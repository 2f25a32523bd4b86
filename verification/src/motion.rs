//! Motion event batches: decoded tables, their semantic checks, and the
//! checked view. Every motion scalar is a binary32 value held as its bit
//! pattern.
use crate::error::{first_failure, or_else, ProtocolError};
use crate::float_bits::{f32_finite, f32_ge_zero, f32_zero, finite_f32, ge_zero_f32, zero_f32};
use crate::uuid::{is_nil, nil};
use vstd::prelude::*;

verus! {

/// Most records of each kind one batch, sample, or list may carry.
pub const MAXIMUM_RECORDS: usize = 262144;

/// Largest gesture-kind ordinal (in-view leave).
pub const MAXIMUM_GESTURE_KIND: u8 = 23;

// ---------------------------------------------------------------------------
// Tables

/// The wire `MotionLength` struct.
#[derive(Clone, Copy, Debug)]
pub struct MotionLength {
    /// Pixel component.
    pub pixels: u32,
    /// Percentage component.
    pub percentage: u32,
}

/// The wire `MotionVector2` struct.
#[derive(Clone, Copy, Debug)]
pub struct MotionVector2 {
    /// X component.
    pub x: u32,
    /// Y component.
    pub y: u32,
}

/// The wire `MotionVector3` struct.
#[derive(Clone, Copy, Debug)]
pub struct MotionVector3 {
    /// X component.
    pub x: u32,
    /// Y component.
    pub y: u32,
    /// Z component.
    pub z: u32,
}

/// The wire `MotionColor` struct.
#[derive(Clone, Copy, Debug)]
pub struct MotionColor {
    /// Red channel.
    pub red: u32,
    /// Green channel.
    pub green: u32,
    /// Blue channel.
    pub blue: u32,
    /// Alpha channel.
    pub alpha: u32,
}

/// The wire `MotionShadow` struct.
#[derive(Clone, Copy, Debug)]
pub struct MotionShadow {
    /// Horizontal offset.
    pub x: u32,
    /// Vertical offset.
    pub y: u32,
    /// Blur radius.
    pub blur: u32,
    /// Spread.
    pub spread: u32,
    /// Color.
    pub color: MotionColor,
    /// Whether the shadow is inset.
    pub inset: bool,
}

/// A transform operation kind.
#[derive(Clone, Copy, Debug)]
pub enum MotionTransformKind {
    /// Three length channels.
    Translate,
    /// Three scalar channels.
    Rotate,
    /// Two scalar channels.
    Skew,
    /// Three scalar channels.
    Scale,
    /// A kind this schema revision does not name.
    Unknown,
}

/// One wire transform operation table.
pub struct MotionTransformTable {
    /// Operation kind.
    pub kind: MotionTransformKind,
    /// Length channels, when present.
    pub lengths: Option<Vec<MotionLength>>,
    /// Scalar channels, when present.
    pub scalars: Option<Vec<u32>>,
}

/// A filter function kind.
#[derive(Clone, Copy, Debug)]
pub enum MotionFilterKind {
    /// Brightness multiplier.
    Brightness,
    /// Drop shadow.
    DropShadow,
    /// A kind this schema revision does not name.
    Unknown,
}

/// One wire filter function table.
pub struct MotionFilterTable {
    /// Function kind.
    pub kind: MotionFilterKind,
    /// Brightness multiplier.
    pub brightness: u32,
    /// Drop shadow, when present.
    pub shadow: Option<MotionShadow>,
}

/// A gradient kind.
#[derive(Clone, Copy, Debug)]
pub enum MotionGradientKind {
    /// Angle-directed gradient.
    Linear,
    /// Center-and-radius gradient.
    Radial,
    /// A kind this schema revision does not name.
    Unknown,
}

/// One wire gradient stop.
#[derive(Clone, Copy, Debug)]
pub struct MotionGradientStop {
    /// Stop color.
    pub color: MotionColor,
    /// Stop position.
    pub position: u32,
}

/// The wire gradient value table.
pub struct MotionGradientTable {
    /// Gradient kind.
    pub kind: MotionGradientKind,
    /// Linear angle.
    pub angle: u32,
    /// Radial center, when present.
    pub center: Option<MotionVector2>,
    /// Radial radius, when present.
    pub radius: Option<MotionVector2>,
    /// Color stops.
    pub stops: Vec<MotionGradientStop>,
}

/// One clip-polygon point.
#[derive(Clone, Copy, Debug)]
pub struct MotionPolygonPoint {
    /// X length.
    pub x: MotionLength,
    /// Y length.
    pub y: MotionLength,
}

/// A discrete value kind.
#[derive(Clone, Copy, Debug)]
pub enum MotionDiscreteKind {
    /// No value.
    Null,
    /// A string value.
    String,
    /// A kind this schema revision does not name.
    Unknown,
}

/// The wire discrete value table.
pub struct MotionDiscreteTable {
    /// Value kind.
    pub kind: MotionDiscreteKind,
    /// String payload, when present.
    pub string_value: Option<String>,
}

/// The wire `MotionValue` union: the variant its tag names, with the payload
/// table when the buffer carries one.
pub enum MotionValueTable {
    /// Scalar.
    Scalar(Option<u32>),
    /// Length.
    Length(Option<MotionLength>),
    /// Color.
    Color(Option<MotionColor>),
    /// Two-component vector.
    Vector2(Option<MotionVector2>),
    /// Three-component vector.
    Vector3(Option<MotionVector3>),
    /// Angle.
    Angle(Option<u32>),
    /// Transform list.
    TransformList(Option<Vec<MotionTransformTable>>),
    /// Filter list.
    FilterList(Option<Vec<MotionFilterTable>>),
    /// Shadow list.
    ShadowList(Option<Vec<MotionShadow>>),
    /// Gradient.
    Gradient(Option<MotionGradientTable>),
    /// Clip inset channels.
    ClipInset(Option<Vec<MotionLength>>),
    /// Clip polygon points.
    ClipPolygon(Option<Vec<MotionPolygonPoint>>),
    /// Discrete value.
    Discrete(Option<MotionDiscreteTable>),
    /// A tag this schema revision does not name.
    Unknown,
}

// ---------------------------------------------------------------------------
// Value rules

/// Both components are finite.
pub open spec fn length_valid(v: MotionLength) -> bool {
    f32_finite(v.pixels) && f32_finite(v.percentage)
}

/// Both components are finite.
pub open spec fn vector2_valid(v: MotionVector2) -> bool {
    f32_finite(v.x) && f32_finite(v.y)
}

/// All three components are finite.
pub open spec fn vector3_valid(v: MotionVector3) -> bool {
    f32_finite(v.x) && f32_finite(v.y) && f32_finite(v.z)
}

/// All four channels are finite.
pub open spec fn color_valid(v: MotionColor) -> bool {
    f32_finite(v.red) && f32_finite(v.green) && f32_finite(v.blue) && f32_finite(v.alpha)
}

/// Offsets, blur, spread and color are finite.
pub open spec fn shadow_valid(v: MotionShadow) -> bool {
    f32_finite(v.x) && f32_finite(v.y) && f32_finite(v.blur) && f32_finite(v.spread)
        && color_valid(v.color)
}

/// Every length is valid.
pub open spec fn lengths_valid(v: Seq<MotionLength>) -> bool {
    forall|i: int| 0 <= i < v.len() ==> length_valid(#[trigger] v[i])
}

/// Every scalar is finite.
pub open spec fn scalars_valid(v: Seq<u32>) -> bool {
    forall|i: int| 0 <= i < v.len() ==> f32_finite(#[trigger] v[i])
}

/// One transform operation carries exactly the channels its kind needs.
pub open spec fn transform_valid(t: MotionTransformTable) -> bool {
    match t.kind {
        MotionTransformKind::Translate => t.scalars is None && t.lengths is Some
            && t.lengths->0@.len() == 3 && lengths_valid(t.lengths->0@),
        MotionTransformKind::Skew => t.lengths is None && t.scalars is Some && t.scalars->0@.len()
            == 2 && scalars_valid(t.scalars->0@),
        MotionTransformKind::Rotate | MotionTransformKind::Scale => t.lengths is None
            && t.scalars is Some && t.scalars->0@.len() == 3 && scalars_valid(t.scalars->0@),
        MotionTransformKind::Unknown => false,
    }
}

/// A bounded list of valid transform operations.
pub open spec fn transforms_valid(v: Seq<MotionTransformTable>) -> bool {
    v.len() <= MAXIMUM_RECORDS && forall|i: int| 0 <= i < v.len() ==> transform_valid(#[trigger] v[i])
}

/// One filter function carries exactly the parameter its kind needs.
pub open spec fn filter_valid(f: MotionFilterTable) -> bool {
    match f.kind {
        MotionFilterKind::Brightness => f.shadow is None && f32_finite(f.brightness) && f32_ge_zero(
            f.brightness,
        ),
        MotionFilterKind::DropShadow => f32_zero(f.brightness) && f.shadow is Some && shadow_valid(
            f.shadow->0,
        ),
        MotionFilterKind::Unknown => false,
    }
}

/// A bounded list of valid filter functions.
pub open spec fn filters_valid(v: Seq<MotionFilterTable>) -> bool {
    v.len() <= MAXIMUM_RECORDS && forall|i: int| 0 <= i < v.len() ==> filter_valid(#[trigger] v[i])
}

/// A bounded list of valid shadows.
pub open spec fn shadows_valid(v: Seq<MotionShadow>) -> bool {
    v.len() <= MAXIMUM_RECORDS && forall|i: int| 0 <= i < v.len() ==> shadow_valid(#[trigger] v[i])
}

/// Every stop has a finite color and position.
pub open spec fn stops_valid(v: Seq<MotionGradientStop>) -> bool {
    forall|i: int|
        0 <= i < v.len() ==> color_valid((#[trigger] v[i]).color) && f32_finite(v[i].position)
}

/// A gradient with one to the record limit of valid stops and exactly the
/// geometry its kind needs.
pub open spec fn gradient_valid(g: MotionGradientTable) -> bool {
    &&& g.stops@.len() > 0
    &&& g.stops@.len() <= MAXIMUM_RECORDS
    &&& stops_valid(g.stops@)
    &&& match g.kind {
        MotionGradientKind::Linear => f32_finite(g.angle) && g.center is None && g.radius is None,
        MotionGradientKind::Radial => f32_zero(g.angle) && g.center is Some && vector2_valid(
            g.center->0,
        ) && g.radius is Some && vector2_valid(g.radius->0),
        MotionGradientKind::Unknown => false,
    }
}

/// Exactly four valid inset channels.
pub open spec fn inset_valid(v: Seq<MotionLength>) -> bool {
    v.len() == 4 && lengths_valid(v)
}

/// One to the record limit of points with valid coordinates.
pub open spec fn polygon_valid(v: Seq<MotionPolygonPoint>) -> bool {
    &&& v.len() > 0
    &&& v.len() <= MAXIMUM_RECORDS
    &&& forall|i: int|
        0 <= i < v.len() ==> length_valid((#[trigger] v[i]).x) && length_valid(v[i].y)
}

/// A string payload exactly when the kind is a string.
pub open spec fn discrete_valid(d: MotionDiscreteTable) -> bool {
    match d.kind {
        MotionDiscreteKind::Null => d.string_value is None,
        MotionDiscreteKind::String => d.string_value is Some,
        MotionDiscreteKind::Unknown => false,
    }
}

/// A value union names a known variant, carries its payload, and the payload is valid.
pub open spec fn value_valid(v: MotionValueTable) -> bool {
    match v {
        MotionValueTable::Scalar(Some(x)) => f32_finite(x),
        MotionValueTable::Length(Some(x)) => length_valid(x),
        MotionValueTable::Color(Some(x)) => color_valid(x),
        MotionValueTable::Vector2(Some(x)) => vector2_valid(x),
        MotionValueTable::Vector3(Some(x)) => vector3_valid(x),
        MotionValueTable::Angle(Some(x)) => f32_finite(x),
        MotionValueTable::TransformList(Some(x)) => transforms_valid(x@),
        MotionValueTable::FilterList(Some(x)) => filters_valid(x@),
        MotionValueTable::ShadowList(Some(x)) => shadows_valid(x@),
        MotionValueTable::Gradient(Some(x)) => gradient_valid(x),
        MotionValueTable::ClipInset(Some(x)) => inset_valid(x@),
        MotionValueTable::ClipPolygon(Some(x)) => polygon_valid(x@),
        MotionValueTable::Discrete(Some(x)) => discrete_valid(x),
        _ => false,
    }
}

/// A length whose pixel and percentage parts are both finite binary32 values.
pub open spec fn finite_length(l: MotionLength) -> bool {
    f32_finite(l.pixels) && f32_finite(l.percentage)
}

/// Each transform is judged by its kind's own shape: a translation carries no
/// scalars and exactly three lengths (x, y, z), all finite; a skew carries no
/// lengths and exactly two finite scalars; a rotation or a scale carries no
/// lengths and exactly three finite scalars; an unnamed kind is refused.
pub proof fn lemma_transform_shape(t: MotionTransformTable)
    ensures
        transform_valid(t) <==> match t.kind {
            MotionTransformKind::Translate => {
                &&& t.scalars is None
                &&& t.lengths matches Some(ls)
                &&& ls@.len() == 3
                &&& finite_length(ls@[0])
                &&& finite_length(ls@[1])
                &&& finite_length(ls@[2])
            },
            MotionTransformKind::Skew => {
                &&& t.lengths is None
                &&& t.scalars matches Some(xs)
                &&& xs@.len() == 2
                &&& f32_finite(xs@[0])
                &&& f32_finite(xs@[1])
            },
            MotionTransformKind::Rotate | MotionTransformKind::Scale => {
                &&& t.lengths is None
                &&& t.scalars matches Some(xs)
                &&& xs@.len() == 3
                &&& f32_finite(xs@[0])
                &&& f32_finite(xs@[1])
                &&& f32_finite(xs@[2])
            },
            MotionTransformKind::Unknown => false,
        },
{
    match t.kind {
        MotionTransformKind::Translate => {
            if t.lengths is Some {
                let ls = t.lengths->0@;
                if ls.len() == 3 && finite_length(ls[0]) && finite_length(ls[1]) && finite_length(
                    ls[2],
                ) {
                    assert forall|i: int| 0 <= i < ls.len() implies length_valid(#[trigger] ls[i]) by {
                        if i == 0 {
                        } else if i == 1 {
                        } else {
                        }
                    }
                }
            }
        },
        MotionTransformKind::Skew => {
            if t.scalars is Some {
                let xs = t.scalars->0@;
                if xs.len() == 2 && f32_finite(xs[0]) && f32_finite(xs[1]) {
                    assert forall|i: int| 0 <= i < xs.len() implies f32_finite(#[trigger] xs[i]) by {
                        if i == 0 {
                        } else {
                        }
                    }
                }
            }
        },
        MotionTransformKind::Rotate | MotionTransformKind::Scale => {
            if t.scalars is Some {
                let xs = t.scalars->0@;
                if xs.len() == 3 && f32_finite(xs[0]) && f32_finite(xs[1]) && f32_finite(xs[2]) {
                    assert forall|i: int| 0 <= i < xs.len() implies f32_finite(#[trigger] xs[i]) by {
                        if i == 0 {
                        } else if i == 1 {
                        } else {
                        }
                    }
                }
            }
        },
        MotionTransformKind::Unknown => {},
    }
}

/// A transform-list value is accepted exactly when it holds at most
/// [`MAXIMUM_RECORDS`] transforms and every one of them is accepted.
pub proof fn lemma_transform_list(list: Vec<MotionTransformTable>)
    ensures
        value_valid(MotionValueTable::TransformList(Some(list))) <==> (list@.len() <= MAXIMUM_RECORDS
            && forall|i: int| 0 <= i < list@.len() ==> transform_valid(#[trigger] list@[i])),
{
}

// ---------------------------------------------------------------------------
// Value checks

/// Whether both components are finite.
pub fn length(v: &MotionLength) -> (r: bool)
    ensures
        r == length_valid(*v),
{
    finite_f32(v.pixels) && finite_f32(v.percentage)
}

/// Whether both components are finite.
pub fn vector2(v: &MotionVector2) -> (r: bool)
    ensures
        r == vector2_valid(*v),
{
    finite_f32(v.x) && finite_f32(v.y)
}

/// Whether all three components are finite.
pub fn vector3(v: &MotionVector3) -> (r: bool)
    ensures
        r == vector3_valid(*v),
{
    finite_f32(v.x) && finite_f32(v.y) && finite_f32(v.z)
}

/// Whether all four channels are finite.
pub fn color(v: &MotionColor) -> (r: bool)
    ensures
        r == color_valid(*v),
{
    finite_f32(v.red) && finite_f32(v.green) && finite_f32(v.blue) && finite_f32(v.alpha)
}

/// Whether offsets, blur, spread and color are finite.
pub fn shadow(v: &MotionShadow) -> (r: bool)
    ensures
        r == shadow_valid(*v),
{
    finite_f32(v.x) && finite_f32(v.y) && finite_f32(v.blur) && finite_f32(v.spread) && color(
        &v.color,
    )
}

fn all_lengths(v: &Vec<MotionLength>) -> (r: bool)
    ensures
        r == lengths_valid(v@),
{
    let mut i: usize = 0;
    while i < v.len()
        invariant
            i <= v@.len(),
            forall|k: int| 0 <= k < i ==> length_valid(#[trigger] v@[k]),
        decreases v@.len() - i,
    {
        if !length(&v[i]) {
            return false;
        }
        i += 1;
    }
    true
}

fn all_scalars(v: &Vec<u32>) -> (r: bool)
    ensures
        r == scalars_valid(v@),
{
    let mut i: usize = 0;
    while i < v.len()
        invariant
            i <= v@.len(),
            forall|k: int| 0 <= k < i ==> f32_finite(#[trigger] v@[k]),
        decreases v@.len() - i,
    {
        if !finite_f32(v[i]) {
            return false;
        }
        i += 1;
    }
    true
}

fn transform(t: &MotionTransformTable) -> (r: bool)
    ensures
        r == transform_valid(*t),
{
    match t.kind {
        MotionTransformKind::Translate => {
            if t.scalars.is_some() {
                return false;
            }
            match &t.lengths {
                Some(v) => v.len() == 3 && all_lengths(v),
                None => false,
            }
        },
        MotionTransformKind::Rotate | MotionTransformKind::Skew | MotionTransformKind::Scale => {
            if t.lengths.is_some() {
                return false;
            }
            let expected: usize = match t.kind {
                MotionTransformKind::Skew => 2,
                _ => 3,
            };
            match &t.scalars {
                Some(v) => v.len() == expected && all_scalars(v),
                None => false,
            }
        },
        MotionTransformKind::Unknown => false,
    }
}

/// Whether a transform list is bounded and every operation is valid.
pub fn validate_transforms(v: &Vec<MotionTransformTable>) -> (r: bool)
    ensures
        r == transforms_valid(v@),
{
    if v.len() > MAXIMUM_RECORDS {
        return false;
    }
    let mut i: usize = 0;
    while i < v.len()
        invariant
            i <= v@.len(),
            forall|k: int| 0 <= k < i ==> transform_valid(#[trigger] v@[k]),
        decreases v@.len() - i,
    {
        if !transform(&v[i]) {
            return false;
        }
        i += 1;
    }
    true
}

fn filter(f: &MotionFilterTable) -> (r: bool)
    ensures
        r == filter_valid(*f),
{
    match f.kind {
        MotionFilterKind::Brightness => f.shadow.is_none() && finite_f32(f.brightness) && ge_zero_f32(
            f.brightness,
        ),
        MotionFilterKind::DropShadow => zero_f32(f.brightness) && match &f.shadow {
            Some(s) => shadow(s),
            None => false,
        },
        MotionFilterKind::Unknown => false,
    }
}

/// Whether a filter list is bounded and every function is valid.
pub fn validate_filters(v: &Vec<MotionFilterTable>) -> (r: bool)
    ensures
        r == filters_valid(v@),
{
    if v.len() > MAXIMUM_RECORDS {
        return false;
    }
    let mut i: usize = 0;
    while i < v.len()
        invariant
            i <= v@.len(),
            forall|k: int| 0 <= k < i ==> filter_valid(#[trigger] v@[k]),
        decreases v@.len() - i,
    {
        if !filter(&v[i]) {
            return false;
        }
        i += 1;
    }
    true
}

/// Whether a shadow list is bounded and every shadow is valid.
pub fn validate_shadows(v: &Vec<MotionShadow>) -> (r: bool)
    ensures
        r == shadows_valid(v@),
{
    if v.len() > MAXIMUM_RECORDS {
        return false;
    }
    let mut i: usize = 0;
    while i < v.len()
        invariant
            i <= v@.len(),
            forall|k: int| 0 <= k < i ==> shadow_valid(#[trigger] v@[k]),
        decreases v@.len() - i,
    {
        if !shadow(&v[i]) {
            return false;
        }
        i += 1;
    }
    true
}

/// Whether a gradient has valid stops and the geometry its kind needs.
pub fn validate_gradient(g: &MotionGradientTable) -> (r: bool)
    ensures
        r == gradient_valid(*g),
{
    if g.stops.len() == 0 || g.stops.len() > MAXIMUM_RECORDS {
        return false;
    }
    let mut i: usize = 0;
    while i < g.stops.len()
        invariant
            i <= g.stops@.len(),
            forall|k: int|
                0 <= k < i ==> color_valid((#[trigger] g.stops@[k]).color) && f32_finite(
                    g.stops@[k].position,
                ),
        decreases g.stops@.len() - i,
    {
        if !(color(&g.stops[i].color) && finite_f32(g.stops[i].position)) {
            return false;
        }
        i += 1;
    }
    match g.kind {
        MotionGradientKind::Linear => finite_f32(g.angle) && g.center.is_none() && g.radius.is_none(),
        MotionGradientKind::Radial => zero_f32(g.angle) && match (g.center, g.radius) {
            (Some(c), Some(r)) => vector2(&c) && vector2(&r),
            _ => false,
        },
        MotionGradientKind::Unknown => false,
    }
}

/// Whether an inset has exactly four valid channels.
pub fn validate_inset(v: &Vec<MotionLength>) -> (r: bool)
    ensures
        r == inset_valid(v@),
{
    v.len() == 4 && all_lengths(v)
}

/// Whether a polygon has one to the record limit of valid points.
pub fn validate_polygon(v: &Vec<MotionPolygonPoint>) -> (r: bool)
    ensures
        r == polygon_valid(v@),
{
    if v.len() == 0 || v.len() > MAXIMUM_RECORDS {
        return false;
    }
    let mut i: usize = 0;
    while i < v.len()
        invariant
            i <= v@.len(),
            forall|k: int|
                0 <= k < i ==> length_valid((#[trigger] v@[k]).x) && length_valid(v@[k].y),
        decreases v@.len() - i,
    {
        if !(length(&v[i].x) && length(&v[i].y)) {
            return false;
        }
        i += 1;
    }
    true
}

/// Whether a discrete value carries a string exactly when its kind is a string.
pub fn validate_discrete(d: &MotionDiscreteTable) -> (r: bool)
    ensures
        r == discrete_valid(*d),
{
    match d.kind {
        MotionDiscreteKind::Null => d.string_value.is_none(),
        MotionDiscreteKind::String => d.string_value.is_some(),
        MotionDiscreteKind::Unknown => false,
    }
}

/// Whether a value union is valid.
pub fn validate_value(v: &MotionValueTable) -> (r: bool)
    ensures
        r == value_valid(*v),
{
    match v {
        MotionValueTable::Scalar(Some(x)) => finite_f32(*x),
        MotionValueTable::Length(Some(x)) => length(x),
        MotionValueTable::Color(Some(x)) => color(x),
        MotionValueTable::Vector2(Some(x)) => vector2(x),
        MotionValueTable::Vector3(Some(x)) => vector3(x),
        MotionValueTable::Angle(Some(x)) => finite_f32(*x),
        MotionValueTable::TransformList(Some(x)) => validate_transforms(x),
        MotionValueTable::FilterList(Some(x)) => validate_filters(x),
        MotionValueTable::ShadowList(Some(x)) => validate_shadows(x),
        MotionValueTable::Gradient(Some(x)) => validate_gradient(x),
        MotionValueTable::ClipInset(Some(x)) => validate_inset(x),
        MotionValueTable::ClipPolygon(Some(x)) => validate_polygon(x),
        MotionValueTable::Discrete(Some(x)) => validate_discrete(x),
        _ => false,
    }
}

// ---------------------------------------------------------------------------
// Records

/// A lifecycle event kind.
#[derive(Clone, Copy, Debug, Eq, PartialEq, Structural)]
pub enum MotionLifecycleKind {
    /// The descriptor became active.
    Activated,
    /// Playback started.
    Started,
    /// Playback repeated.
    Repeated,
    /// Playback completed.
    Completed,
    /// Playback stopped.
    Stopped,
    /// Playback was cancelled.
    Cancelled,
    /// A kind this schema revision does not name.
    Unknown,
}

/// One wire lifecycle event table (the fields the checks read).
#[derive(Clone, Copy, Debug)]
pub struct MotionLifecycleEventTable {
    /// Lifecycle sequence number.
    pub sequence: u64,
    /// Descriptor UUID bytes.
    pub descriptor_id: [u8; 16],
    /// Event kind.
    pub kind: MotionLifecycleKind,
    /// First repetition, for repeat events.
    pub repeat_first: u64,
    /// Last repetition, for repeat events.
    pub repeat_last: u64,
}

/// One wire property value table.
pub struct MotionPropertyValueTable {
    /// Raw property ordinal.
    pub property: u8,
    /// Whether the schema names the ordinal.
    pub property_named: bool,
    /// Value union.
    pub value: MotionValueTable,
}

/// One wire presentation sample table (the fields the checks read).
pub struct MotionPresentationSampleTable {
    /// Descriptor UUID bytes.
    pub descriptor_id: [u8; 16],
    /// Sampled property values.
    pub values: Vec<MotionPropertyValueTable>,
}

/// One wire value sample table (the fields the checks read).
pub struct MotionValueSampleTable {
    /// Subscription UUID bytes.
    pub subscription_id: [u8; 16],
    /// Value UUID bytes.
    pub value_id: [u8; 16],
    /// Sampled value union.
    pub value: MotionValueTable,
    /// Sampled velocity union.
    pub velocity: MotionValueTable,
}

/// A playback outcome.
#[derive(Clone, Copy, Debug)]
pub enum MotionPlaybackOutcome {
    /// Playback completed.
    Completed,
    /// Playback stopped.
    Stopped,
    /// Playback was cancelled.
    Cancelled,
    /// An outcome this schema revision does not name.
    Unknown,
}

/// One wire playback event table (the fields the checks read).
#[derive(Clone, Copy, Debug)]
pub struct MotionPlaybackEventTable {
    /// Playback UUID bytes.
    pub playback_id: [u8; 16],
    /// Outcome.
    pub outcome: MotionPlaybackOutcome,
}

/// A gesture pointer device.
#[derive(Clone, Copy, Debug)]
pub enum MotionPointerDevice {
    /// Mouse.
    Mouse,
    /// Pen.
    Pen,
    /// Touch.
    Touch,
    /// Keyboard.
    Keyboard,
    /// Gamepad.
    Gamepad,
    /// A device this schema revision does not name.
    Unknown,
}

/// A gesture axis.
#[derive(Clone, Copy, Debug)]
pub enum MotionGestureAxis {
    /// Horizontal.
    X,
    /// Vertical.
    Y,
    /// Both.
    Both,
    /// An axis this schema revision does not name.
    Unknown,
}

/// One wire gesture event table (the fields the checks read).
#[derive(Clone, Copy, Debug)]
pub struct MotionGestureEventTable {
    /// Descriptor UUID bytes.
    pub descriptor_id: [u8; 16],
    /// Raw gesture-kind ordinal.
    pub kind: u8,
    /// Pointer device.
    pub device: MotionPointerDevice,
    /// Axis value.
    pub axis: MotionGestureAxis,
    /// Whether the axis is meaningful.
    pub has_axis: bool,
    /// Pointer position.
    pub point: MotionVector2,
    /// Movement since the last event.
    pub delta: MotionVector2,
    /// Movement since the gesture began.
    pub offset: MotionVector2,
    /// Pointer velocity.
    pub velocity: MotionVector2,
}

/// The wire `MotionEventBatch` table.
pub struct MotionEventBatchTable {
    /// Inclusive first lifecycle sequence.
    pub first_sequence: u64,
    /// Inclusive last lifecycle sequence.
    pub last_sequence: u64,
    /// Lifecycle records.
    pub events: Vec<MotionLifecycleEventTable>,
    /// Presentation samples.
    pub samples: Vec<MotionPresentationSampleTable>,
    /// Explicit value samples.
    pub value_samples: Vec<MotionValueSampleTable>,
    /// Playback records.
    pub playback_events: Vec<MotionPlaybackEventTable>,
    /// Gesture records.
    pub gesture_events: Vec<MotionGestureEventTable>,
}

// ---------------------------------------------------------------------------
// Record rules

/// Why a lifecycle event is refused, if it is.
pub open spec fn lifecycle_failure(e: MotionLifecycleEventTable) -> Option<Seq<char>> {
    if is_nil(e.descriptor_id@) || e.kind == MotionLifecycleKind::Unknown {
        Some("invalid Motion lifecycle identity or kind"@)
    } else if e.kind == MotionLifecycleKind::Repeated {
        if e.repeat_first > e.repeat_last {
            Some("Motion repeat range is reversed"@)
        } else {
            None
        }
    } else if e.repeat_first != 0 || e.repeat_last != 0 {
        Some("non-repeat Motion event carries repeat bounds"@)
    } else {
        None
    }
}

/// Why property value `k` of a sample is refused, if it is.
pub open spec fn property_failure(values: Seq<MotionPropertyValueTable>, k: int) -> Option<Seq<char>> {
    if exists|j: int| 0 <= j < k && (#[trigger] values[j]).property == values[k].property {
        Some("Motion presentation properties must be unique"@)
    } else if !values[k].property_named {
        Some("unknown Motion property"@)
    } else if !value_valid(values[k].value) {
        Some("invalid Motion property value"@)
    } else {
        None
    }
}

/// The per-value checks of one sample's values.
pub open spec fn property_check(values: Seq<MotionPropertyValueTable>) -> spec_fn(int) -> Option<
    Seq<char>,
> {
    |k: int| property_failure(values, k)
}

/// Why a presentation sample is refused, if it is.
pub open spec fn sample_failure(s: MotionPresentationSampleTable) -> Option<Seq<char>> {
    if is_nil(s.descriptor_id@) || s.values@.len() > MAXIMUM_RECORDS {
        Some("invalid Motion presentation sample"@)
    } else {
        first_failure(s.values@.len() as int, property_check(s.values@), 0)
    }
}

/// Why a value sample is refused, if it is.
pub open spec fn value_sample_failure(s: MotionValueSampleTable) -> Option<Seq<char>> {
    if is_nil(s.subscription_id@) || is_nil(s.value_id@) {
        Some("Motion value-sample UUIDs must be nonzero"@)
    } else if !value_valid(s.value) || !value_valid(s.velocity) {
        Some("invalid Motion sampled value"@)
    } else {
        None
    }
}

/// Why a playback event is refused, if it is.
pub open spec fn playback_failure(e: MotionPlaybackEventTable) -> Option<Seq<char>> {
    if is_nil(e.playback_id@) || e.outcome is Unknown {
        Some("invalid Motion playback event"@)
    } else {
        None
    }
}

/// Why a gesture event is refused, if it is.
pub open spec fn gesture_failure(e: MotionGestureEventTable) -> Option<Seq<char>> {
    if is_nil(e.descriptor_id@) || e.kind > MAXIMUM_GESTURE_KIND || e.device is Unknown
        || e.axis is Unknown || !vector2_valid(e.point) || !vector2_valid(e.delta)
        || !vector2_valid(e.offset) || !vector2_valid(e.velocity) {
        Some("invalid Motion gesture event"@)
    } else if !e.has_axis && !(e.axis is X) {
        Some("Motion gesture without an axis has a noncanonical axis value"@)
    } else {
        None
    }
}

/// The per-record checks of each list.
pub open spec fn lifecycle_check(v: Seq<MotionLifecycleEventTable>) -> spec_fn(int) -> Option<Seq<char>> {
    |k: int| lifecycle_failure(v[k])
}

/// The per-record checks of each list.
pub open spec fn sample_check(v: Seq<MotionPresentationSampleTable>) -> spec_fn(int) -> Option<Seq<char>> {
    |k: int| sample_failure(v[k])
}

/// The per-record checks of each list.
pub open spec fn value_sample_check(v: Seq<MotionValueSampleTable>) -> spec_fn(int) -> Option<Seq<char>> {
    |k: int| value_sample_failure(v[k])
}

/// The per-record checks of each list.
pub open spec fn playback_check(v: Seq<MotionPlaybackEventTable>) -> spec_fn(int) -> Option<Seq<char>> {
    |k: int| playback_failure(v[k])
}

/// The per-record checks of each list.
pub open spec fn gesture_check(v: Seq<MotionGestureEventTable>) -> spec_fn(int) -> Option<Seq<char>> {
    |k: int| gesture_failure(v[k])
}

/// Some adjacent lifecycle sequences do not follow one another.
pub open spec fn not_contiguous(events: Seq<MotionLifecycleEventTable>) -> bool {
    exists|i: int| 1 <= i < events.len() && !#[trigger] follows(events, i)
}

/// Record `i` carries the sequence after that of record `i - 1`.
pub open spec fn follows(events: Seq<MotionLifecycleEventTable>, i: int) -> bool {
    events[i - 1].sequence + 1 == events[i].sequence
}

/// The verdict of the semantic checks on a batch.
pub open spec fn batch_failure(t: MotionEventBatchTable) -> Option<Seq<char>> {
    let events = t.events@;
    if t.first_sequence > t.last_sequence {
        Some("Motion sequence range is reversed"@)
    } else if events.len() > MAXIMUM_RECORDS || t.samples@.len() > MAXIMUM_RECORDS
        || t.value_samples@.len() > MAXIMUM_RECORDS || t.playback_events@.len() > MAXIMUM_RECORDS
        || t.gesture_events@.len() > MAXIMUM_RECORDS {
        Some("Motion batch has too many records"@)
    } else if events.len() > 0 && (events[0].sequence != t.first_sequence || events.last().sequence
        != t.last_sequence) {
        Some("Motion sequence bounds do not match lifecycle events"@)
    } else if not_contiguous(events) {
        Some("Motion lifecycle sequences are not contiguous"@)
    } else {
        or_else(
            first_failure(events.len() as int, lifecycle_check(events), 0),
            or_else(
                first_failure(t.samples@.len() as int, sample_check(t.samples@), 0),
                or_else(
                    first_failure(
                        t.value_samples@.len() as int,
                        value_sample_check(t.value_samples@),
                        0,
                    ),
                    or_else(
                        first_failure(
                            t.playback_events@.len() as int,
                            playback_check(t.playback_events@),
                            0,
                        ),
                        first_failure(
                            t.gesture_events@.len() as int,
                            gesture_check(t.gesture_events@),
                            0,
                        ),
                    ),
                ),
            ),
        )
    }
}

// ---------------------------------------------------------------------------
// Record checks

fn validate_lifecycle(e: &MotionLifecycleEventTable) -> (r: Result<(), ProtocolError>)
    ensures
        match r {
            Ok(()) => lifecycle_failure(*e) is None,
            Err(err) => lifecycle_failure(*e) == Some(err@),
        },
{
    let unknown = match e.kind {
        MotionLifecycleKind::Unknown => true,
        _ => false,
    };
    if nil(&e.descriptor_id) || unknown {
        return Err(ProtocolError::new("invalid Motion lifecycle identity or kind"));
    }
    match e.kind {
        MotionLifecycleKind::Repeated => {
            if e.repeat_first > e.repeat_last {
                return Err(ProtocolError::new("Motion repeat range is reversed"));
            }
        },
        _ => {
            if e.repeat_first != 0 || e.repeat_last != 0 {
                return Err(ProtocolError::new("non-repeat Motion event carries repeat bounds"));
            }
        },
    }
    Ok(())
}

/// Checks one presentation property value: a named property and a valid value.
pub fn validate_property_value(v: &MotionPropertyValueTable) -> (r: Result<(), ProtocolError>)
    ensures
        match r {
            Ok(()) => v.property_named && value_valid(v.value),
            Err(e) => if !v.property_named {
                e@ == "unknown Motion property"@
            } else {
                !value_valid(v.value) && e@ == "invalid Motion property value"@
            },
        },
{
    if !v.property_named {
        return Err(ProtocolError::new("unknown Motion property"));
    }
    if validate_value(&v.value) {
        Ok(())
    } else {
        Err(ProtocolError::new("invalid Motion property value"))
    }
}

fn validate_sample(s: &MotionPresentationSampleTable) -> (r: Result<(), ProtocolError>)
    ensures
        match r {
            Ok(()) => sample_failure(*s) is None,
            Err(e) => sample_failure(*s) == Some(e@),
        },
{
    if nil(&s.descriptor_id) || s.values.len() > MAXIMUM_RECORDS {
        return Err(ProtocolError::new("invalid Motion presentation sample"));
    }
    let ghost values = s.values@;
    let ghost n = values.len() as int;
    let mut seen: Vec<bool> = vec![false; 256];
    let mut k: usize = 0;
    while k < s.values.len()
        invariant
            k <= values.len(),
            values == s.values@,
            n == values.len(),
            !is_nil(s.descriptor_id@),
            values.len() <= MAXIMUM_RECORDS,
            seen@.len() == 256,
            forall|p: int|
                0 <= p < 256 ==> (#[trigger] seen@[p] <==> exists|j: int|
                    0 <= j < k && values[j].property == p),
            first_failure(n, property_check(values), 0) == first_failure(
                n,
                property_check(values),
                k as int,
            ),
        decreases values.len() - k,
    {
        let property = s.values[k].property;
        if seen[property as usize] {
            proof {
                let j = choose|j: int| 0 <= j < k && values[j].property == property;
                assert(values[j].property == values[k as int].property);
                assert(property_check(values)(k as int) == Some(
                    "Motion presentation properties must be unique"@,
                ));
            }
            return Err(ProtocolError::new("Motion presentation properties must be unique"));
        }
        proof {
            assert forall|j: int| 0 <= j < k implies (#[trigger] values[j]).property
                != values[k as int].property by {
                if values[j].property == values[k as int].property {
                    assert(seen@[property as int]);
                }
            }
        }
        match validate_property_value(&s.values[k]) {
            Ok(()) => {},
            Err(e) => {
                assert(property_check(values)(k as int) == Some(e@));
                return Err(e);
            },
        }
        assert(property_check(values)(k as int) is None);
        seen.set(property as usize, true);
        k += 1;
        proof {
            assert forall|p: int|
                0 <= p < 256 implies (#[trigger] seen@[p] <==> exists|j: int|
                    0 <= j < k && values[j].property == p) by {
                if p == property as int {
                    assert(values[k - 1].property == p);
                }
                if exists|j: int| 0 <= j < k && values[j].property == p {
                    let j = choose|j: int| 0 <= j < k && values[j].property == p;
                    if j < k - 1 {
                        assert(exists|j2: int| 0 <= j2 < k - 1 && values[j2].property == p);
                    }
                }
            }
        }
    }
    Ok(())
}

/// Checks the value (or, with `velocity`, the velocity) of a value sample.
pub fn validate_sample_value(sample: &MotionValueSampleTable, velocity: bool) -> (r: Result<
    (),
    ProtocolError,
>)
    ensures
        match r {
            Ok(()) => value_valid(if velocity { sample.velocity } else { sample.value }),
            Err(e) => !value_valid(if velocity { sample.velocity } else { sample.value }) && e@
                == "invalid Motion sampled value"@,
        },
{
    let valid = if velocity {
        validate_value(&sample.velocity)
    } else {
        validate_value(&sample.value)
    };
    if valid {
        Ok(())
    } else {
        Err(ProtocolError::new("invalid Motion sampled value"))
    }
}

fn validate_value_sample(s: &MotionValueSampleTable) -> (r: Result<(), ProtocolError>)
    ensures
        match r {
            Ok(()) => value_sample_failure(*s) is None,
            Err(e) => value_sample_failure(*s) == Some(e@),
        },
{
    if nil(&s.subscription_id) || nil(&s.value_id) {
        return Err(ProtocolError::new("Motion value-sample UUIDs must be nonzero"));
    }
    validate_sample_value(s, false)?;
    validate_sample_value(s, true)
}

fn validate_playback(e: &MotionPlaybackEventTable) -> (r: Result<(), ProtocolError>)
    ensures
        match r {
            Ok(()) => playback_failure(*e) is None,
            Err(err) => playback_failure(*e) == Some(err@),
        },
{
    let unknown = match e.outcome {
        MotionPlaybackOutcome::Unknown => true,
        _ => false,
    };
    if nil(&e.playback_id) || unknown {
        return Err(ProtocolError::new("invalid Motion playback event"));
    }
    Ok(())
}

fn validate_gesture(e: &MotionGestureEventTable) -> (r: Result<(), ProtocolError>)
    ensures
        match r {
            Ok(()) => gesture_failure(*e) is None,
            Err(err) => gesture_failure(*e) == Some(err@),
        },
{
    let device_unknown = match e.device {
        MotionPointerDevice::Unknown => true,
        _ => false,
    };
    let axis_unknown = match e.axis {
        MotionGestureAxis::Unknown => true,
        _ => false,
    };
    if nil(&e.descriptor_id) || e.kind > MAXIMUM_GESTURE_KIND || device_unknown || axis_unknown
        || !vector2(&e.point) || !vector2(&e.delta) || !vector2(&e.offset) || !vector2(
        &e.velocity,
    ) {
        return Err(ProtocolError::new("invalid Motion gesture event"));
    }
    let axis_x = match e.axis {
        MotionGestureAxis::X => true,
        _ => false,
    };
    if !e.has_axis && !axis_x {
        return Err(ProtocolError::new("Motion gesture without an axis has a noncanonical axis value"));
    }
    Ok(())
}


fn check_lifecycle(v: &Vec<MotionLifecycleEventTable>) -> (r: Result<(), ProtocolError>)
    ensures
        match r {
            Ok(()) => first_failure(v@.len() as int, lifecycle_check(v@), 0) is None,
            Err(e) => first_failure(v@.len() as int, lifecycle_check(v@), 0) == Some(e@),
        },
{
    let ghost n = v@.len() as int;
    let mut i: usize = 0;
    while i < v.len()
        invariant
            i <= n,
            n == v@.len(),
            first_failure(n, lifecycle_check(v@), 0) == first_failure(n, lifecycle_check(v@), i as int),
        decreases n - i,
    {
        match validate_lifecycle(&v[i]) {
            Ok(()) => {},
            Err(e) => {
                assert(lifecycle_check(v@)(i as int) == Some(e@));
                return Err(e);
            },
        }
        assert(lifecycle_check(v@)(i as int) is None);
        i += 1;
    }
    Ok(())
}

fn check_samples(v: &Vec<MotionPresentationSampleTable>) -> (r: Result<(), ProtocolError>)
    ensures
        match r {
            Ok(()) => first_failure(v@.len() as int, sample_check(v@), 0) is None,
            Err(e) => first_failure(v@.len() as int, sample_check(v@), 0) == Some(e@),
        },
{
    let ghost n = v@.len() as int;
    let mut i: usize = 0;
    while i < v.len()
        invariant
            i <= n,
            n == v@.len(),
            first_failure(n, sample_check(v@), 0) == first_failure(n, sample_check(v@), i as int),
        decreases n - i,
    {
        match validate_sample(&v[i]) {
            Ok(()) => {},
            Err(e) => {
                assert(sample_check(v@)(i as int) == Some(e@));
                return Err(e);
            },
        }
        assert(sample_check(v@)(i as int) is None);
        i += 1;
    }
    Ok(())
}

fn check_value_samples(v: &Vec<MotionValueSampleTable>) -> (r: Result<(), ProtocolError>)
    ensures
        match r {
            Ok(()) => first_failure(v@.len() as int, value_sample_check(v@), 0) is None,
            Err(e) => first_failure(v@.len() as int, value_sample_check(v@), 0) == Some(e@),
        },
{
    let ghost n = v@.len() as int;
    let mut i: usize = 0;
    while i < v.len()
        invariant
            i <= n,
            n == v@.len(),
            first_failure(n, value_sample_check(v@), 0) == first_failure(n, value_sample_check(v@), i as int),
        decreases n - i,
    {
        match validate_value_sample(&v[i]) {
            Ok(()) => {},
            Err(e) => {
                assert(value_sample_check(v@)(i as int) == Some(e@));
                return Err(e);
            },
        }
        assert(value_sample_check(v@)(i as int) is None);
        i += 1;
    }
    Ok(())
}

fn check_playback(v: &Vec<MotionPlaybackEventTable>) -> (r: Result<(), ProtocolError>)
    ensures
        match r {
            Ok(()) => first_failure(v@.len() as int, playback_check(v@), 0) is None,
            Err(e) => first_failure(v@.len() as int, playback_check(v@), 0) == Some(e@),
        },
{
    let ghost n = v@.len() as int;
    let mut i: usize = 0;
    while i < v.len()
        invariant
            i <= n,
            n == v@.len(),
            first_failure(n, playback_check(v@), 0) == first_failure(n, playback_check(v@), i as int),
        decreases n - i,
    {
        match validate_playback(&v[i]) {
            Ok(()) => {},
            Err(e) => {
                assert(playback_check(v@)(i as int) == Some(e@));
                return Err(e);
            },
        }
        assert(playback_check(v@)(i as int) is None);
        i += 1;
    }
    Ok(())
}

fn check_gestures(v: &Vec<MotionGestureEventTable>) -> (r: Result<(), ProtocolError>)
    ensures
        match r {
            Ok(()) => first_failure(v@.len() as int, gesture_check(v@), 0) is None,
            Err(e) => first_failure(v@.len() as int, gesture_check(v@), 0) == Some(e@),
        },
{
    let ghost n = v@.len() as int;
    let mut i: usize = 0;
    while i < v.len()
        invariant
            i <= n,
            n == v@.len(),
            first_failure(n, gesture_check(v@), 0) == first_failure(n, gesture_check(v@), i as int),
        decreases n - i,
    {
        match validate_gesture(&v[i]) {
            Ok(()) => {},
            Err(e) => {
                assert(gesture_check(v@)(i as int) == Some(e@));
                return Err(e);
            },
        }
        assert(gesture_check(v@)(i as int) is None);
        i += 1;
    }
    Ok(())
}

fn check_contiguous(events: &Vec<MotionLifecycleEventTable>) -> (r: bool)
    ensures
        r == !not_contiguous(events@),
{
    let mut index: usize = 1;
    while index < events.len()
        invariant
            1 <= index,
            forall|i: int| 1 <= i < index && i < events@.len() ==> #[trigger] follows(events@, i),
        decreases events@.len() - index,
    {
        let next = events[index - 1].sequence.checked_add(1);
        match next {
            Some(n) => {
                if n != events[index].sequence {
                    assert(!follows(events@, index as int));
                    return false;
                }
            },
            None => {
                assert(!follows(events@, index as int));
                return false;
            },
        }
        assert(follows(events@, index as int));
        index += 1;
    }
    true
}

/// Checks a whole batch: an ordered sequence range, bounded record lists,
/// lifecycle records that run contiguously from the first to the last
/// sequence, and then every record of every list in order.
pub fn validate_batch(t: &MotionEventBatchTable) -> (r: Result<(), ProtocolError>)
    ensures
        match r {
            Ok(()) => batch_failure(*t) is None,
            Err(e) => batch_failure(*t) == Some(e@),
        },
{
    if t.first_sequence > t.last_sequence {
        return Err(ProtocolError::new("Motion sequence range is reversed"));
    }
    if t.events.len() > MAXIMUM_RECORDS || t.samples.len() > MAXIMUM_RECORDS
        || t.value_samples.len() > MAXIMUM_RECORDS || t.playback_events.len() > MAXIMUM_RECORDS
        || t.gesture_events.len() > MAXIMUM_RECORDS {
        return Err(ProtocolError::new("Motion batch has too many records"));
    }
    let events = &t.events;
    if events.len() > 0 {
        if events[0].sequence != t.first_sequence || events[events.len() - 1].sequence
            != t.last_sequence {
            return Err(ProtocolError::new("Motion sequence bounds do not match lifecycle events"));
        }
    }
    if !check_contiguous(events) {
        return Err(ProtocolError::new("Motion lifecycle sequences are not contiguous"));
    }
    check_lifecycle(&t.events)?;
    check_samples(&t.samples)?;
    check_value_samples(&t.value_samples)?;
    check_playback(&t.playback_events)?;
    check_gestures(&t.gesture_events)
}

/// A lifecycle list that passed the checks numbers its records consecutively
/// from the batch's first sequence, so the batch's range names exactly them.
pub proof fn lemma_accepted_sequences(t: MotionEventBatchTable)
    requires
        batch_failure(t) is None,
    ensures
        forall|i: int|
            0 <= i < t.events@.len() ==> (#[trigger] t.events@[i]).sequence == t.first_sequence + i,
        t.events@.len() > 0 ==> t.last_sequence == t.first_sequence + t.events@.len() - 1,
{
    let events = t.events@;
    assert forall|i: int| 0 <= i < events.len() implies (#[trigger] events[i]).sequence
        == t.first_sequence + i by {
        lemma_sequence_step(events, t.first_sequence, i);
    }
    if events.len() > 0 {
        assert(events[events.len() - 1].sequence == t.first_sequence + events.len() - 1);
    }
}

/// Why the sequence numbers `seqs` of a batch of lifecycle events written for
/// the inclusive range `first..=last` are refused, if they are.
pub open spec fn sequence_failure(first: u64, last: u64, seqs: Seq<u64>) -> Option<Seq<char>> {
    if first > last {
        Some("Motion sequence range is reversed"@)
    } else if seqs.len() == 0 {
        None
    } else if seqs[0] != first || seqs[seqs.len() - 1] != last {
        Some("Motion sequence bounds do not match events"@)
    } else if exists|i: int| 0 < i < seqs.len() && seqs[i - 1] + 1 != #[trigger] seqs[i] {
        Some("Motion lifecycle sequences must be contiguous"@)
    } else {
        None
    }
}

/// Checks the sequence numbers of a batch about to be written: an ordered
/// range whose bounds are the first and last events' sequences, with each
/// event numbered one after the event before it.
pub fn validate_sequence(first: u64, last: u64, seqs: &[u64]) -> (r: Result<(), ProtocolError>)
    ensures
        match r {
            Ok(()) => sequence_failure(first, last, seqs@) is None,
            Err(e) => sequence_failure(first, last, seqs@) == Some(e@),
        },
{
    if first > last {
        return Err(ProtocolError::new("Motion sequence range is reversed"));
    }
    if seqs.len() == 0 {
        return Ok(());
    }
    if seqs[0] != first || seqs[seqs.len() - 1] != last {
        return Err(ProtocolError::new("Motion sequence bounds do not match events"));
    }
    let mut i: usize = 1;
    while i < seqs.len()
        invariant
            1 <= i <= seqs@.len(),
            first <= last,
            seqs@[0] == first,
            seqs@[seqs@.len() - 1] == last,
            forall|k: int| 0 < k < i ==> seqs@[k - 1] + 1 == #[trigger] seqs@[k],
        decreases seqs@.len() - i,
    {
        let next = seqs[i - 1].checked_add(1);
        let contiguous = match next {
            Some(n) => n == seqs[i],
            None => false,
        };
        if !contiguous {
            proof {
                assert(seqs@[i - 1] + 1 != seqs@[i as int]);
            }
            return Err(ProtocolError::new("Motion lifecycle sequences must be contiguous"));
        }
        i += 1;
    }
    Ok(())
}

/// A written batch whose sequences passed the checks numbers its events
/// consecutively from `first` through `last`.
pub proof fn lemma_written_sequences(first: u64, last: u64, seqs: Seq<u64>, i: int)
    requires
        sequence_failure(first, last, seqs) is None,
        0 <= i < seqs.len(),
    ensures
        seqs[i] == first + i,
        last == first + seqs.len() - 1,
{
    lemma_written_prefix(first, last, seqs, i);
    lemma_written_last(first, last, seqs);
}

proof fn lemma_written_last(first: u64, last: u64, seqs: Seq<u64>)
    requires
        sequence_failure(first, last, seqs) is None,
        seqs.len() > 0,
    ensures
        last == first + seqs.len() - 1,
{
    lemma_written_prefix(first, last, seqs, seqs.len() - 1);
}

proof fn lemma_written_prefix(first: u64, last: u64, seqs: Seq<u64>, k: int)
    requires
        sequence_failure(first, last, seqs) is None,
        0 <= k < seqs.len(),
    ensures
        seqs[k] == first + k,
    decreases k,
{
    if k > 0 {
        lemma_written_prefix(first, last, seqs, k - 1);
        assert(seqs[k - 1] + 1 == seqs[k]);
    }
}

proof fn lemma_sequence_step(events: Seq<MotionLifecycleEventTable>, first: u64, i: int)
    requires
        0 <= i < events.len(),
        events[0].sequence == first,
        !not_contiguous(events),
    ensures
        events[i].sequence == first + i,
    decreases i,
{
    if i > 0 {
        lemma_sequence_step(events, first, i - 1);
        assert(follows(events, i));
    }
}

/// A semantically checked Motion event batch.
pub struct MotionEventBatchView {
    value: MotionEventBatchTable,
}

impl MotionEventBatchView {
    /// The viewed table.
    pub closed spec fn table(&self) -> MotionEventBatchTable {
        self.value
    }

    #[verifier::type_invariant]
    closed spec fn checked(&self) -> bool {
        batch_failure(self.value) is None
    }

    /// Checks one decoded batch and keeps it as a view.
    pub fn new(value: MotionEventBatchTable) -> (r: Result<Self, ProtocolError>)
        ensures
            match r {
                Ok(view) => batch_failure(value) is None && view.table() == value,
                Err(e) => batch_failure(value) == Some(e@),
            },
    {
        validate_batch(&value)?;
        Ok(MotionEventBatchView { value })
    }

    /// The checked table, whose scalars are binary32 bit patterns.
    pub fn raw(&self) -> (r: &MotionEventBatchTable)
        ensures
            *r == self.table(),
            batch_failure(*r) is None,
    {
        proof {
            use_type_invariant(self);
        }
        &self.value
    }

    /// Returns the inclusive first lifecycle sequence.
    pub fn first_sequence(&self) -> (r: u64)
        ensures
            r == self.table().first_sequence,
            r <= self.table().last_sequence,
    {
        proof {
            use_type_invariant(self);
        }
        self.value.first_sequence
    }

    /// Returns the inclusive last lifecycle sequence.
    pub fn last_sequence(&self) -> (r: u64)
        ensures
            r == self.table().last_sequence,
            r >= self.table().first_sequence,
    {
        proof {
            use_type_invariant(self);
        }
        self.value.last_sequence
    }

    /// Returns the number of lifecycle records.
    pub fn lifecycle_count(&self) -> (r: usize)
        ensures
            r == self.table().events@.len(),
            r <= MAXIMUM_RECORDS,
    {
        proof {
            use_type_invariant(self);
        }
        self.value.events.len()
    }

    /// Returns the number of presentation samples.
    pub fn presentation_sample_count(&self) -> (r: usize)
        ensures
            r == self.table().samples@.len(),
            r <= MAXIMUM_RECORDS,
    {
        proof {
            use_type_invariant(self);
        }
        self.value.samples.len()
    }

    /// Returns the number of explicit value samples.
    pub fn value_sample_count(&self) -> (r: usize)
        ensures
            r == self.table().value_samples@.len(),
            r <= MAXIMUM_RECORDS,
    {
        proof {
            use_type_invariant(self);
        }
        self.value.value_samples.len()
    }

    /// Returns the number of playback records.
    pub fn playback_count(&self) -> (r: usize)
        ensures
            r == self.table().playback_events@.len(),
            r <= MAXIMUM_RECORDS,
    {
        proof {
            use_type_invariant(self);
        }
        self.value.playback_events.len()
    }

    /// Returns the number of gesture records.
    pub fn gesture_count(&self) -> (r: usize)
        ensures
            r == self.table().gesture_events@.len(),
            r <= MAXIMUM_RECORDS,
    {
        proof {
            use_type_invariant(self);
        }
        self.value.gesture_events.len()
    }
}

} // verus!
