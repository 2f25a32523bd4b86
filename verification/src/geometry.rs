//! Geometry observation batches: decoded tables, their semantic checks, and
//! the checked borrowed views.
use crate::error::ProtocolError;
use crate::float_bits::{
    all_finite, f64_finite, f64_le_zero, f64_zero, finite_f64, le_zero_f64, zero_f64,
};
use crate::uuid::{is_nil, le_value, lemma_le_value_injective, nil, uuid_key};
use std::collections::HashSet;
use vstd::prelude::*;

verus! {

/// Most changed observations one batch may carry.
pub const MAXIMUM_CHANGED_VALUES: usize = 262144;

/// Largest geometry-unavailable reason ordinal (projection unavailable).
pub const MAXIMUM_UNAVAILABLE_REASON: u8 = 8;

/// Largest display-orientation ordinal (portrait flipped).
pub const MAXIMUM_DISPLAY_ORIENTATION: u8 = 3;

/// The wire `Rect` struct; each `f64` is held as its bit pattern.
#[derive(Clone, Copy, Debug)]
pub struct RectTable {
    /// Left edge.
    pub x: u64,
    /// Top edge.
    pub y: u64,
    /// Width.
    pub width: u64,
    /// Height.
    pub height: u64,
}

/// The wire `ViewportRect` struct; each `f64` is held as its bit pattern.
#[derive(Clone, Copy, Debug)]
pub struct ViewportRectTable {
    /// Left edge.
    pub x: u64,
    /// Top edge.
    pub y: u64,
    /// Width.
    pub width: u64,
    /// Height.
    pub height: u64,
    /// Display identifier.
    pub display_id: u32,
}

/// The wire `Projective2` struct: its nine entries in row-major order and
/// the determinant that its cofactor expansion along the first row gives in
/// `f64` arithmetic, each held as its bit pattern.
#[derive(Clone, Copy, Debug)]
pub struct Projective2Table {
    /// Row-major entries.
    pub entries: [u64; 9],
    /// The computed determinant.
    pub determinant: u64,
}

/// The wire `ElementGeometry` table.
#[derive(Clone, Copy, Debug)]
pub struct ElementGeometryTable {
    /// Local layout.
    pub layout: RectTable,
    /// Viewport bounds.
    pub viewport_bound: ViewportRectTable,
    /// Local-to-viewport matrix.
    pub viewport_from_local: Projective2Table,
    /// Parent-to-viewport matrix.
    pub viewport_from_parent: Projective2Table,
    /// Owning panel UUID bytes.
    pub panel_id: [u8; 16],
}

/// The wire `ViewportGeometry` table.
#[derive(Clone, Copy, Debug)]
pub struct ViewportGeometryTable {
    /// Viewport bounds.
    pub viewport: ViewportRectTable,
    /// Safe-area bounds.
    pub safe_area: ViewportRectTable,
    /// Display scale bits.
    pub scale: u64,
    /// Optional display DPI bits.
    pub dpi: Option<u64>,
    /// Raw orientation ordinal.
    pub orientation: u8,
}

/// The wire `WorldPointGeometry` table.
#[derive(Clone, Copy, Debug)]
pub struct WorldPointGeometryTable {
    /// Point x bits.
    pub x: u64,
    /// Point y bits.
    pub y: u64,
    /// Point display identifier.
    pub display_id: u32,
    /// Projection depth bits.
    pub depth: u64,
    /// Whether the point is inside the viewport.
    pub is_inside_viewport: bool,
}

/// The wire `WorldBoundsGeometry` table.
#[derive(Clone, Copy, Debug)]
pub struct WorldBoundsGeometryTable {
    /// Projected bounds.
    pub bound: ViewportRectTable,
    /// Nearest depth bits.
    pub nearest_depth: u64,
    /// Farthest depth bits.
    pub farthest_depth: u64,
    /// Whether the bounds intersect the viewport.
    pub is_inside_viewport: bool,
}

/// The wire `WorldRestBoundsGeometry` table.
#[derive(Clone, Copy, Debug)]
pub struct WorldRestBoundsGeometryTable {
    /// Local bounds.
    pub bound: RectTable,
}

/// The wire `PresentationWorkGeometry` table.
#[derive(Clone, Copy, Debug)]
pub struct PresentationWorkGeometryTable {
    /// Retained native batches.
    pub queued_batches: u32,
    /// Finite operations blocking batch progress.
    pub blocking_operations: u32,
    /// Paused gameplay presentation scopes.
    pub paused_scopes: u32,
}

/// The wire `GeometryValue` union: the variant its tag names, with the
/// payload table when the buffer carries one.
#[derive(Clone, Copy, Debug)]
pub enum GeometryValueTable {
    /// UI element geometry.
    Element(Option<ElementGeometryTable>),
    /// Display viewport geometry.
    Viewport(Option<ViewportGeometryTable>),
    /// Projected world point geometry.
    WorldPoint(Option<WorldPointGeometryTable>),
    /// Projected rendered bounds geometry.
    WorldBounds(Option<WorldBoundsGeometryTable>),
    /// Renderer bounds in local XY space.
    WorldRestBounds(Option<WorldRestBoundsGeometryTable>),
    /// Native queue and blocking-work counts.
    PresentationWork(Option<PresentationWorkGeometryTable>),
    /// A tag this schema revision does not name.
    Unknown,
}

/// The wire `GeometryResult` union: a current value table, or an unavailable
/// table reduced to its raw reason ordinal.
#[derive(Clone, Copy, Debug)]
pub enum GeometryResultTable {
    /// A current geometry table carrying the value union.
    Current(Option<GeometryValueTable>),
    /// An unavailable geometry table carrying a reason ordinal.
    Unavailable(Option<u8>),
    /// A tag this schema revision does not name.
    Unknown,
}

/// The wire `GeometryObservationValue` table.
#[derive(Clone, Copy, Debug)]
pub struct GeometryObservationValueTable {
    /// Observation UUID bytes.
    pub observation_id: [u8; 16],
    /// Result union.
    pub result: GeometryResultTable,
}

/// The wire `GeometryObservationBatch` table.
pub struct GeometryObservationBatchTable {
    /// Sampling generation.
    pub generation: u64,
    /// Changed observations.
    pub changed: Vec<GeometryObservationValueTable>,
}

// ---------------------------------------------------------------------------
// Rules

/// All four coordinates are finite.
pub open spec fn rect_finite(r: RectTable) -> bool {
    f64_finite(r.x) && f64_finite(r.y) && f64_finite(r.width) && f64_finite(r.height)
}

/// All four coordinates are finite.
pub open spec fn viewport_rect_finite(r: ViewportRectTable) -> bool {
    f64_finite(r.x) && f64_finite(r.y) && f64_finite(r.width) && f64_finite(r.height)
}

/// Why a projective matrix is refused, if it is.
pub open spec fn projective_failure(p: Projective2Table) -> Option<Seq<char>> {
    if exists|i: int| 0 <= i < 9 && !f64_finite(#[trigger] p.entries@[i]) {
        Some("projective matrix contains a non-finite number"@)
    } else if !f64_finite(p.determinant) || f64_zero(p.determinant) {
        Some("projective matrix must be invertible"@)
    } else {
        None
    }
}

/// Why element geometry is refused, if it is.
pub open spec fn element_failure(e: ElementGeometryTable) -> Option<Seq<char>> {
    if is_nil(e.panel_id@) || !rect_finite(e.layout) || !viewport_rect_finite(e.viewport_bound) {
        Some("invalid element geometry"@)
    } else if projective_failure(e.viewport_from_local) is Some {
        projective_failure(e.viewport_from_local)
    } else {
        projective_failure(e.viewport_from_parent)
    }
}

/// Whether viewport geometry is acceptable.
pub open spec fn viewport_valid(v: ViewportGeometryTable) -> bool {
    viewport_rect_finite(v.viewport) && viewport_rect_finite(v.safe_area) && f64_finite(v.scale)
        && !(v.dpi is Some && !f64_finite(v.dpi->0)) && v.orientation <= MAXIMUM_DISPLAY_ORIENTATION
}

/// Whether world-point geometry is acceptable.
pub open spec fn world_point_valid(w: WorldPointGeometryTable) -> bool {
    f64_finite(w.x) && f64_finite(w.y) && f64_finite(w.depth)
}

/// Whether world-bounds geometry is acceptable.
pub open spec fn world_bounds_valid(w: WorldBoundsGeometryTable) -> bool {
    viewport_rect_finite(w.bound) && f64_finite(w.nearest_depth) && f64_finite(w.farthest_depth)
}

/// Whether world-rest-bounds geometry is acceptable: finite, with positive extent.
pub open spec fn world_rest_bounds_valid(w: WorldRestBoundsGeometryTable) -> bool {
    rect_finite(w.bound) && !f64_le_zero(w.bound.width) && !f64_le_zero(w.bound.height)
}

/// Why a current value union is refused, if it is.
pub open spec fn value_failure(v: GeometryValueTable) -> Option<Seq<char>> {
    match v {
        GeometryValueTable::Element(None) => Some("element geometry payload is missing"@),
        GeometryValueTable::Element(Some(e)) => element_failure(e),
        GeometryValueTable::Viewport(None) => Some("viewport geometry payload is missing"@),
        GeometryValueTable::Viewport(Some(t)) => if viewport_valid(t) {
            None
        } else {
            Some("invalid viewport geometry"@)
        },
        GeometryValueTable::WorldPoint(None) => Some("world-point geometry payload is missing"@),
        GeometryValueTable::WorldPoint(Some(t)) => if world_point_valid(t) {
            None
        } else {
            Some("invalid world-point geometry"@)
        },
        GeometryValueTable::WorldBounds(None) => Some("world-bounds geometry payload is missing"@),
        GeometryValueTable::WorldBounds(Some(t)) => if world_bounds_valid(t) {
            None
        } else {
            Some("invalid world-bounds geometry"@)
        },
        GeometryValueTable::WorldRestBounds(None) => Some(
            "world-rest-bounds geometry payload is missing"@,
        ),
        GeometryValueTable::WorldRestBounds(Some(t)) => if world_rest_bounds_valid(t) {
            None
        } else {
            Some("invalid world-rest-bounds geometry"@)
        },
        GeometryValueTable::PresentationWork(None) => Some(
            "presentation-work geometry payload is missing"@,
        ),
        GeometryValueTable::PresentationWork(Some(_)) => None,
        GeometryValueTable::Unknown => Some("unknown geometry value union tag"@),
    }
}

/// Why a result union is refused, if it is.
pub open spec fn result_failure(r: GeometryResultTable) -> Option<Seq<char>> {
    match r {
        GeometryResultTable::Current(None) => Some("current geometry payload is missing"@),
        GeometryResultTable::Current(Some(v)) => value_failure(v),
        GeometryResultTable::Unavailable(None) => Some("unavailable geometry payload is missing"@),
        GeometryResultTable::Unavailable(Some(reason)) => if reason > MAXIMUM_UNAVAILABLE_REASON {
            Some("unknown geometry-unavailable reason"@)
        } else {
            None
        },
        GeometryResultTable::Unknown => Some("unknown geometry result union tag"@),
    }
}

/// The identifier of entry `k` is nil or repeats an earlier one.
pub open spec fn identity_refused(changed: Seq<GeometryObservationValueTable>, k: int) -> bool {
    is_nil(changed[k].observation_id@) || exists|j: int|
        0 <= j < k && (#[trigger] changed[j]).observation_id@ == changed[k].observation_id@
}

/// Why entry `k` is refused, if it is.
pub open spec fn entry_failure(changed: Seq<GeometryObservationValueTable>, k: int) -> Option<
    Seq<char>,
> {
    if identity_refused(changed, k) {
        Some("geometry observation UUIDs must be nonzero and unique"@)
    } else {
        result_failure(changed[k].result)
    }
}

/// Why the first refused entry at or after `k` is refused, if one is.
pub open spec fn first_entry_failure(changed: Seq<GeometryObservationValueTable>, k: int) -> Option<
    Seq<char>,
>
    decreases changed.len() - k,
{
    if k < 0 || k >= changed.len() {
        None
    } else {
        match entry_failure(changed, k) {
            Some(m) => Some(m),
            None => first_entry_failure(changed, k + 1),
        }
    }
}

/// The verdict of the semantic checks on a batch.
pub open spec fn batch_failure(t: GeometryObservationBatchTable) -> Option<Seq<char>> {
    if t.generation == 0 {
        Some("geometry generation must be nonzero"@)
    } else if t.changed@.len() > MAXIMUM_CHANGED_VALUES {
        Some("geometry batch has too many changed values"@)
    } else {
        first_entry_failure(t.changed@, 0)
    }
}

proof fn lemma_first_entry_failure_none(changed: Seq<GeometryObservationValueTable>, k: int, i: int)
    requires
        0 <= k <= i < changed.len(),
        first_entry_failure(changed, k) is None,
    ensures
        entry_failure(changed, i) is None,
    decreases i - k,
{
    if k < i {
        lemma_first_entry_failure_none(changed, k + 1, i);
    }
}

/// A viewport's dpi only ever refuses it when present and not finite: two
/// viewports that differ only in that one reports a dpi and the other does
/// not get the same verdict when the reported dpi is finite, and the one
/// reporting a non-finite dpi is refused.
pub proof fn lemma_viewport_dpi(with_dpi: ViewportGeometryTable, without: ViewportGeometryTable)
    requires
        with_dpi.viewport == without.viewport,
        with_dpi.safe_area == without.safe_area,
        with_dpi.scale == without.scale,
        with_dpi.orientation == without.orientation,
        with_dpi.dpi is Some,
        without.dpi is None,
    ensures
        f64_finite(with_dpi.dpi->Some_0) ==> (value_failure(
            GeometryValueTable::Viewport(Some(with_dpi)),
        ) == value_failure(GeometryValueTable::Viewport(Some(without)))),
        !f64_finite(with_dpi.dpi->Some_0) ==> value_failure(
            GeometryValueTable::Viewport(Some(with_dpi)),
        ) == Some("invalid viewport geometry"@),
{
}

/// Viewport geometry is accepted exactly when every coordinate of its
/// viewport and safe area, and its scale, are finite, its orientation is one
/// of the four the schema names, and its dpi is absent or finite.
pub proof fn lemma_viewport_accepted(v: ViewportGeometryTable)
    ensures
        (value_failure(GeometryValueTable::Viewport(Some(v))) is None) <==> {
            &&& f64_finite(v.viewport.x) && f64_finite(v.viewport.y)
            &&& f64_finite(v.viewport.width) && f64_finite(v.viewport.height)
            &&& f64_finite(v.safe_area.x) && f64_finite(v.safe_area.y)
            &&& f64_finite(v.safe_area.width) && f64_finite(v.safe_area.height)
            &&& f64_finite(v.scale)
            &&& v.orientation <= 3
            &&& (v.dpi is None || f64_finite(v.dpi->Some_0))
        },
{
}

/// An accepted batch has a nonzero generation, and its observation UUIDs are
/// nonzero and pairwise distinct.
pub proof fn lemma_accepted_batch_identities(t: GeometryObservationBatchTable, i: int, j: int)
    requires
        batch_failure(t) is None,
        0 <= j < i < t.changed@.len(),
    ensures
        t.generation != 0,
        !is_nil(t.changed@[i].observation_id@),
        !is_nil(t.changed@[j].observation_id@),
        t.changed@[j].observation_id@ != t.changed@[i].observation_id@,
{
    lemma_first_entry_failure_none(t.changed@, 0, i);
    lemma_first_entry_failure_none(t.changed@, 0, j);
    assert(!identity_refused(t.changed@, i));
    if t.changed@[j].observation_id@ == t.changed@[i].observation_id@ {
        assert(t.changed@[j].observation_id@ == t.changed@[i].observation_id@);
        assert(identity_refused(t.changed@, i));
    }
}

/// Refuses a geometry value about to be written unless every number in it,
/// given as binary64 bit patterns, is finite.
pub fn finite_values(values: &[u64]) -> (r: Result<(), ProtocolError>)
    ensures
        match r {
            Ok(()) => all_finite(values@),
            Err(e) => !all_finite(values@) && e@ == "geometry numbers must be finite"@,
        },
{
    let mut i: usize = 0;
    while i < values.len()
        invariant
            i <= values@.len(),
            forall|k: int| 0 <= k < i ==> f64_finite(#[trigger] values@[k]),
        decreases values@.len() - i,
    {
        if !finite_f64(values[i]) {
            return Err(ProtocolError::new("geometry numbers must be finite"));
        }
        i += 1;
    }
    Ok(())
}

// ---------------------------------------------------------------------------
// Checks

fn rect(value: &RectTable) -> (r: bool)
    ensures
        r == rect_finite(*value),
{
    finite_f64(value.x) && finite_f64(value.y) && finite_f64(value.width) && finite_f64(value.height)
}

fn valid_viewport_rect(value: &ViewportRectTable) -> (r: bool)
    ensures
        r == viewport_rect_finite(*value),
{
    finite_f64(value.x) && finite_f64(value.y) && finite_f64(value.width) && finite_f64(value.height)
}

fn valid_projective(value: &Projective2Table) -> (r: Result<(), ProtocolError>)
    ensures
        match r {
            Ok(()) => projective_failure(*value) is None,
            Err(e) => projective_failure(*value) == Some(e@),
        },
{
    let mut i: usize = 0;
    while i < 9
        invariant
            i <= 9,
            value.entries@.len() == 9,
            forall|k: int| 0 <= k < i ==> f64_finite(#[trigger] value.entries@[k]),
        decreases 9 - i,
    {
        if !finite_f64(value.entries[i]) {
            return Err(ProtocolError::new("projective matrix contains a non-finite number"));
        }
        i += 1;
    }
    if !finite_f64(value.determinant) || zero_f64(value.determinant) {
        return Err(ProtocolError::new("projective matrix must be invertible"));
    }
    Ok(())
}

fn validate_element(value: &ElementGeometryTable) -> (r: Result<(), ProtocolError>)
    ensures
        match r {
            Ok(()) => element_failure(*value) is None,
            Err(e) => element_failure(*value) == Some(e@),
        },
{
    if nil(&value.panel_id) || !rect(&value.layout) || !valid_viewport_rect(&value.viewport_bound) {
        return Err(ProtocolError::new("invalid element geometry"));
    }
    valid_projective(&value.viewport_from_local)?;
    valid_projective(&value.viewport_from_parent)
}

fn validate_viewport(value: &ViewportGeometryTable) -> (r: Result<(), ProtocolError>)
    ensures
        match r {
            Ok(()) => viewport_valid(*value),
            Err(e) => !viewport_valid(*value) && e@ == "invalid viewport geometry"@,
        },
{
    let dpi_refused = match value.dpi {
        Some(dpi) => !finite_f64(dpi),
        None => false,
    };
    if !valid_viewport_rect(&value.viewport) || !valid_viewport_rect(&value.safe_area)
        || !finite_f64(value.scale) || dpi_refused || value.orientation
        > MAXIMUM_DISPLAY_ORIENTATION {
        return Err(ProtocolError::new("invalid viewport geometry"));
    }
    Ok(())
}

fn validate_world_point(value: &WorldPointGeometryTable) -> (r: Result<(), ProtocolError>)
    ensures
        match r {
            Ok(()) => world_point_valid(*value),
            Err(e) => !world_point_valid(*value) && e@ == "invalid world-point geometry"@,
        },
{
    if !finite_f64(value.x) || !finite_f64(value.y) || !finite_f64(value.depth) {
        return Err(ProtocolError::new("invalid world-point geometry"));
    }
    Ok(())
}

fn validate_world_bounds(value: &WorldBoundsGeometryTable) -> (r: Result<(), ProtocolError>)
    ensures
        match r {
            Ok(()) => world_bounds_valid(*value),
            Err(e) => !world_bounds_valid(*value) && e@ == "invalid world-bounds geometry"@,
        },
{
    if !valid_viewport_rect(&value.bound) || !finite_f64(value.nearest_depth) || !finite_f64(
        value.farthest_depth,
    ) {
        return Err(ProtocolError::new("invalid world-bounds geometry"));
    }
    Ok(())
}

fn validate_world_rest_bounds(value: &WorldRestBoundsGeometryTable) -> (r: Result<(), ProtocolError>)
    ensures
        match r {
            Ok(()) => world_rest_bounds_valid(*value),
            Err(e) => !world_rest_bounds_valid(*value) && e@ == "invalid world-rest-bounds geometry"@,
        },
{
    if !rect(&value.bound) || le_zero_f64(value.bound.width) || le_zero_f64(value.bound.height) {
        return Err(ProtocolError::new("invalid world-rest-bounds geometry"));
    }
    Ok(())
}

// ---------------------------------------------------------------------------
// Views

/// Borrowed, checked UI element geometry.
#[derive(Clone, Copy)]
pub struct ElementGeometryView<'a> {
    value: &'a ElementGeometryTable,
}

/// Borrowed, checked viewport geometry.
#[derive(Clone, Copy)]
pub struct ViewportGeometryView<'a> {
    value: &'a ViewportGeometryTable,
}

/// Borrowed, checked projected world point geometry.
#[derive(Clone, Copy)]
pub struct WorldPointGeometryView<'a> {
    value: &'a WorldPointGeometryTable,
}

/// Borrowed, checked projected rendered bounds geometry.
#[derive(Clone, Copy)]
pub struct WorldBoundsGeometryView<'a> {
    value: &'a WorldBoundsGeometryTable,
}

/// Borrowed, checked renderer bounds in an object's local XY space.
#[derive(Clone, Copy)]
pub struct WorldRestBoundsGeometryView<'a> {
    value: &'a WorldRestBoundsGeometryTable,
}

/// Borrowed native presentation-work counts.
#[derive(Clone, Copy)]
pub struct PresentationWorkGeometryView<'a> {
    value: &'a PresentationWorkGeometryTable,
}

/// A borrowed current geometry value.
#[derive(Clone, Copy)]
pub enum GeometryValueView<'a> {
    /// UI element geometry.
    Element(ElementGeometryView<'a>),
    /// Display viewport geometry.
    Viewport(ViewportGeometryView<'a>),
    /// Projected world point geometry.
    WorldPoint(WorldPointGeometryView<'a>),
    /// Projected rendered bounds geometry.
    WorldBounds(WorldBoundsGeometryView<'a>),
    /// Renderer bounds in the observed object's local XY space.
    WorldRestBounds(WorldRestBoundsGeometryView<'a>),
    /// Native queue and blocking-work counts.
    PresentationWork(PresentationWorkGeometryView<'a>),
}

/// A borrowed geometry observation result.
#[derive(Clone, Copy)]
pub enum GeometryObservationResultView<'a> {
    /// A current sampled value.
    Current(GeometryValueView<'a>),
    /// A temporary unavailable-reason ordinal.
    Unavailable(u8),
}

impl<'a> ElementGeometryView<'a> {
    /// The viewed table.
    pub closed spec fn table(&self) -> ElementGeometryTable {
        *self.value
    }

    #[verifier::type_invariant]
    closed spec fn checked(&self) -> bool {
        element_failure(*self.value) is None
    }

    /// The checked table, whose `f64` fields are bit patterns.
    pub fn raw(&self) -> (r: &'a ElementGeometryTable)
        ensures
            *r == self.table(),
            element_failure(*r) is None,
    {
        proof {
            use_type_invariant(self);
        }
        self.value
    }

    /// Returns the owning panel UUID bytes.
    pub fn panel_id(&self) -> (r: [u8; 16])
        ensures
            r@ == self.table().panel_id@,
            !is_nil(r@),
    {
        proof {
            use_type_invariant(self);
        }
        self.value.panel_id
    }
}

impl<'a> ViewportGeometryView<'a> {
    /// The viewed table.
    pub closed spec fn table(&self) -> ViewportGeometryTable {
        *self.value
    }

    #[verifier::type_invariant]
    closed spec fn checked(&self) -> bool {
        viewport_valid(*self.value)
    }

    /// The checked table, whose `f64` fields are bit patterns.
    pub fn raw(&self) -> (r: &'a ViewportGeometryTable)
        ensures
            *r == self.table(),
            viewport_valid(*r),
    {
        proof {
            use_type_invariant(self);
        }
        self.value
    }

    /// Returns the stable orientation ordinal.
    pub fn orientation(&self) -> (r: u8)
        ensures
            r == self.table().orientation,
            r <= MAXIMUM_DISPLAY_ORIENTATION,
    {
        proof {
            use_type_invariant(self);
        }
        self.value.orientation
    }
}

impl<'a> WorldPointGeometryView<'a> {
    /// The viewed table.
    pub closed spec fn table(&self) -> WorldPointGeometryTable {
        *self.value
    }

    #[verifier::type_invariant]
    closed spec fn checked(&self) -> bool {
        world_point_valid(*self.value)
    }

    /// The checked table, whose `f64` fields are bit patterns.
    pub fn raw(&self) -> (r: &'a WorldPointGeometryTable)
        ensures
            *r == self.table(),
            world_point_valid(*r),
    {
        proof {
            use_type_invariant(self);
        }
        self.value
    }

    /// Returns whether the point is inside the viewport.
    pub fn is_inside_viewport(&self) -> (r: bool)
        ensures
            r == self.table().is_inside_viewport,
    {
        self.value.is_inside_viewport
    }
}

impl<'a> WorldBoundsGeometryView<'a> {
    /// The viewed table.
    pub closed spec fn table(&self) -> WorldBoundsGeometryTable {
        *self.value
    }

    #[verifier::type_invariant]
    closed spec fn checked(&self) -> bool {
        world_bounds_valid(*self.value)
    }

    /// The checked table, whose `f64` fields are bit patterns.
    pub fn raw(&self) -> (r: &'a WorldBoundsGeometryTable)
        ensures
            *r == self.table(),
            world_bounds_valid(*r),
    {
        proof {
            use_type_invariant(self);
        }
        self.value
    }

    /// Returns whether the bounds intersect the viewport.
    pub fn is_inside_viewport(&self) -> (r: bool)
        ensures
            r == self.table().is_inside_viewport,
    {
        self.value.is_inside_viewport
    }
}

impl<'a> WorldRestBoundsGeometryView<'a> {
    /// The viewed table.
    pub closed spec fn table(&self) -> WorldRestBoundsGeometryTable {
        *self.value
    }

    #[verifier::type_invariant]
    closed spec fn checked(&self) -> bool {
        world_rest_bounds_valid(*self.value)
    }

    /// The checked table, whose `f64` fields are bit patterns.
    pub fn raw(&self) -> (r: &'a WorldRestBoundsGeometryTable)
        ensures
            *r == self.table(),
            world_rest_bounds_valid(*r),
    {
        proof {
            use_type_invariant(self);
        }
        self.value
    }
}

impl<'a> PresentationWorkGeometryView<'a> {
    /// The viewed table.
    pub closed spec fn table(&self) -> PresentationWorkGeometryTable {
        *self.value
    }

    /// Returns retained native batches.
    pub fn queued_batches(&self) -> (r: u32)
        ensures
            r == self.table().queued_batches,
    {
        self.value.queued_batches
    }

    /// Returns finite operations blocking batch progress.
    pub fn blocking_operations(&self) -> (r: u32)
        ensures
            r == self.table().blocking_operations,
    {
        self.value.blocking_operations
    }

    /// Returns paused gameplay presentation scopes.
    pub fn paused_scopes(&self) -> (r: u32)
        ensures
            r == self.table().paused_scopes,
    {
        self.value.paused_scopes
    }
}

/// `view` is the view of the current value union `t`.
pub open spec fn value_view_of(view: GeometryValueView, t: GeometryValueTable) -> bool {
    match (view, t) {
        (GeometryValueView::Element(v), GeometryValueTable::Element(Some(x))) => v.table() == x,
        (GeometryValueView::Viewport(v), GeometryValueTable::Viewport(Some(x))) => v.table() == x,
        (GeometryValueView::WorldPoint(v), GeometryValueTable::WorldPoint(Some(x))) => v.table()
            == x,
        (GeometryValueView::WorldBounds(v), GeometryValueTable::WorldBounds(Some(x))) => v.table()
            == x,
        (GeometryValueView::WorldRestBounds(v), GeometryValueTable::WorldRestBounds(Some(x))) => {
            v.table() == x
        },
        (GeometryValueView::PresentationWork(v), GeometryValueTable::PresentationWork(Some(x))) => {
            v.table() == x
        },
        _ => false,
    }
}

/// `view` is the view of the result union `t`.
pub open spec fn result_view_of(view: GeometryObservationResultView, t: GeometryResultTable) -> bool {
    match (view, t) {
        (GeometryObservationResultView::Current(v), GeometryResultTable::Current(Some(x))) => {
            value_view_of(v, x)
        },
        (GeometryObservationResultView::Unavailable(code), GeometryResultTable::Unavailable(
            Some(reason),
        )) => code == reason,
        _ => false,
    }
}

/// Checks a current value union and views it.
pub fn current_value<'a>(value: &'a GeometryValueTable) -> (r: Result<
    GeometryValueView<'a>,
    ProtocolError,
>)
    ensures
        match r {
            Ok(v) => value_failure(*value) is None && value_view_of(v, *value),
            Err(e) => value_failure(*value) == Some(e@),
        },
{
    match value {
        GeometryValueTable::Element(payload) => match payload {
            Some(t) => {
                validate_element(t)?;
                Ok(GeometryValueView::Element(ElementGeometryView { value: t }))
            },
            None => Err(ProtocolError::new("element geometry payload is missing")),
        },
        GeometryValueTable::Viewport(payload) => match payload {
            Some(t) => {
                validate_viewport(t)?;
                Ok(GeometryValueView::Viewport(ViewportGeometryView { value: t }))
            },
            None => Err(ProtocolError::new("viewport geometry payload is missing")),
        },
        GeometryValueTable::WorldPoint(payload) => match payload {
            Some(t) => {
                validate_world_point(t)?;
                Ok(GeometryValueView::WorldPoint(WorldPointGeometryView { value: t }))
            },
            None => Err(ProtocolError::new("world-point geometry payload is missing")),
        },
        GeometryValueTable::WorldBounds(payload) => match payload {
            Some(t) => {
                validate_world_bounds(t)?;
                Ok(GeometryValueView::WorldBounds(WorldBoundsGeometryView { value: t }))
            },
            None => Err(ProtocolError::new("world-bounds geometry payload is missing")),
        },
        GeometryValueTable::WorldRestBounds(payload) => match payload {
            Some(t) => {
                validate_world_rest_bounds(t)?;
                Ok(GeometryValueView::WorldRestBounds(WorldRestBoundsGeometryView { value: t }))
            },
            None => Err(ProtocolError::new("world-rest-bounds geometry payload is missing")),
        },
        GeometryValueTable::PresentationWork(payload) => match payload {
            Some(t) => Ok(GeometryValueView::PresentationWork(PresentationWorkGeometryView { value: t })),
            None => Err(ProtocolError::new("presentation-work geometry payload is missing")),
        },
        GeometryValueTable::Unknown => Err(ProtocolError::new("unknown geometry value union tag")),
    }
}

/// Checks a result union and views it.
pub fn result<'a>(value: &'a GeometryResultTable) -> (r: Result<
    GeometryObservationResultView<'a>,
    ProtocolError,
>)
    ensures
        match r {
            Ok(v) => result_failure(*value) is None && result_view_of(v, *value),
            Err(e) => result_failure(*value) == Some(e@),
        },
{
    match value {
        GeometryResultTable::Current(payload) => match payload {
            Some(v) => Ok(GeometryObservationResultView::Current(current_value(v)?)),
            None => Err(ProtocolError::new("current geometry payload is missing")),
        },
        GeometryResultTable::Unavailable(payload) => match payload {
            Some(reason) => {
                if *reason > MAXIMUM_UNAVAILABLE_REASON {
                    return Err(ProtocolError::new("unknown geometry-unavailable reason"));
                }
                Ok(GeometryObservationResultView::Unavailable(*reason))
            },
            None => Err(ProtocolError::new("unavailable geometry payload is missing")),
        },
        GeometryResultTable::Unknown => Err(ProtocolError::new("unknown geometry result union tag")),
    }
}

/// Checks a whole batch: a nonzero generation, a bounded number of changed
/// values, and for each in order a nonzero identifier not seen before and a
/// valid result.
pub fn validate_batch(value: &GeometryObservationBatchTable) -> (r: Result<(), ProtocolError>)
    ensures
        match r {
            Ok(()) => batch_failure(*value) is None,
            Err(e) => batch_failure(*value) == Some(e@),
        },
{
    broadcast use vstd::std_specs::hash::group_hash_axioms;

    if value.generation == 0 {
        return Err(ProtocolError::new("geometry generation must be nonzero"));
    }
    let changed = &value.changed;
    if changed.len() > MAXIMUM_CHANGED_VALUES {
        return Err(ProtocolError::new("geometry batch has too many changed values"));
    }
    let ghost c = changed@;
    let mut identities: HashSet<u128> = HashSet::with_capacity(changed.len());
    let mut i: usize = 0;
    while i < changed.len()
        invariant
            i <= c.len(),
            c == changed@,
            changed == &value.changed,
            value.generation != 0,
            c.len() <= MAXIMUM_CHANGED_VALUES,
            first_entry_failure(c, 0) == first_entry_failure(c, i as int),
            forall|key: u128|
                identities@.contains(key) <==> exists|j: int|
                    0 <= j < i && key == le_value(#[trigger] c[j].observation_id@),
            forall|j: int| 0 <= j < i ==> entry_failure(c, j) is None,
        decreases c.len() - i,
    {
        let observation = &changed[i];
        let key = uuid_key(&observation.observation_id);
        let ghost old_ids = identities@;
        let id_nil = nil(&observation.observation_id);
        let fresh = if id_nil {
            false
        } else {
            identities.insert(key)
        };
        proof {
            if !id_nil {
                if !fresh {
                    assert(old_ids.contains(key));
                    let j = choose|j: int| 0 <= j < i && key == le_value(#[trigger] c[j].observation_id@);
                    lemma_le_value_injective(c[j].observation_id@, c[i as int].observation_id@);
                    assert(c[j].observation_id@ == c[i as int].observation_id@);
                } else {
                    assert forall|j: int| 0 <= j < i implies (#[trigger] c[j]).observation_id@
                        != c[i as int].observation_id@ by {
                        if c[j].observation_id@ == c[i as int].observation_id@ {
                            assert(key == le_value(c[j].observation_id@));
                            assert(old_ids.contains(key));
                        }
                    }
                }
            }
            if fresh {
                assert(!identity_refused(c, i as int));
                assert forall|k: u128|
                    identities@.contains(k) <==> exists|j: int|
                        0 <= j < i + 1 && k == le_value(#[trigger] c[j].observation_id@) by {
                    if k == key {
                        assert(k == le_value(c[i as int].observation_id@));
                    }
                    if exists|j: int| 0 <= j < i + 1 && k == le_value(#[trigger] c[j].observation_id@) {
                        let j = choose|j: int| 0 <= j < i + 1 && k == le_value(#[trigger] c[j].observation_id@);
                        if j < i {
                            assert(old_ids.contains(k));
                        }
                    }
                }
            } else {
                assert(identity_refused(c, i as int));
                assert(entry_failure(c, i as int) == Some(
                    "geometry observation UUIDs must be nonzero and unique"@,
                ));
            }
        }
        if !fresh {
            return Err(ProtocolError::new("geometry observation UUIDs must be nonzero and unique"));
        }
        match result(&observation.result) {
            Ok(_) => {},
            Err(e) => {
                assert(entry_failure(c, i as int) == Some(e@));
                return Err(e);
            },
        }
        assert(entry_failure(c, i as int) is None);
        i += 1;
    }
    Ok(())
}

/// A checked borrowed geometry sampling pass.
pub struct GeometryObservationBatchView {
    value: GeometryObservationBatchTable,
}

/// One checked borrowed changed geometry observation.
#[derive(Clone, Copy)]
pub struct GeometryObservationValueView<'a> {
    value: &'a GeometryObservationValueTable,
}

impl GeometryObservationBatchView {
    /// The viewed table.
    pub closed spec fn table(&self) -> GeometryObservationBatchTable {
        self.value
    }

    #[verifier::type_invariant]
    closed spec fn checked(&self) -> bool {
        batch_failure(self.value) is None
    }

    /// Checks one decoded batch and keeps it as a view.
    pub fn new(value: GeometryObservationBatchTable) -> (r: Result<Self, ProtocolError>)
        ensures
            match r {
                Ok(view) => batch_failure(value) is None && view.table() == value,
                Err(e) => batch_failure(value) == Some(e@),
            },
    {
        validate_batch(&value)?;
        Ok(GeometryObservationBatchView { value })
    }

    /// Returns the nonzero sampling generation.
    pub fn generation(&self) -> (r: u64)
        ensures
            r == self.table().generation,
            r != 0,
            batch_failure(self.table()) is None,
    {
        proof {
            use_type_invariant(self);
        }
        self.value.generation
    }

    /// Returns the number of changed observations.
    pub fn changed_count(&self) -> (r: usize)
        ensures
            r == self.table().changed@.len(),
            r <= MAXIMUM_CHANGED_VALUES,
    {
        proof {
            use_type_invariant(self);
        }
        self.value.changed.len()
    }

    /// Returns one changed observation, if the index is in range.
    pub fn changed(&self, index: usize) -> (r: Option<GeometryObservationValueView<'_>>)
        ensures
            match r {
                Some(v) => index < self.table().changed@.len() && v.table()
                    == self.table().changed@[index as int],
                None => index >= self.table().changed@.len(),
            },
    {
        proof {
            use_type_invariant(self);
        }
        if index < self.value.changed.len() {
            proof {
                lemma_first_entry_failure_none(self.value.changed@, 0, index as int);
            }
            Some(GeometryObservationValueView { value: &self.value.changed[index] })
        } else {
            None
        }
    }

    /// Returns every changed observation in order.
    pub fn changed_values(&self) -> (r: Vec<GeometryObservationValueView<'_>>)
        ensures
            r@.len() == self.table().changed@.len(),
            r@.len() <= MAXIMUM_CHANGED_VALUES,
            forall|i: int| 0 <= i < r@.len() ==> (#[trigger] r@[i]).table() == self.table().changed@[i],
            forall|i: int| 0 <= i < r@.len() ==> !is_nil((#[trigger] r@[i]).table().observation_id@),
            forall|i: int, j: int|
                0 <= j < i < r@.len() ==> (#[trigger] r@[j]).table().observation_id@ != (
                #[trigger] r@[i]).table().observation_id@,
    {
        proof {
            use_type_invariant(self);
        }
        let mut out: Vec<GeometryObservationValueView<'_>> = Vec::new();
        let mut i: usize = 0;
        while i < self.value.changed.len()
            invariant
                i <= self.table().changed@.len(),
                out@.len() == i,
                forall|k: int| 0 <= k < i ==> (#[trigger] out@[k]).table() == self.table().changed@[k],
            decreases self.table().changed@.len() - i,
        {
            match self.changed(i) {
                Some(v) => out.push(v),
                None => {},
            }
            i += 1;
        }
        proof {
            let c = self.table().changed@;
            assert forall|k: int| 0 <= k < out@.len() implies !is_nil(
                (#[trigger] out@[k]).table().observation_id@,
            ) by {
                lemma_first_entry_failure_none(c, 0, k);
            }
            assert forall|k: int, j: int| 0 <= j < k < out@.len() implies (
            #[trigger] out@[j]).table().observation_id@ != (
            #[trigger] out@[k]).table().observation_id@ by {
                lemma_accepted_batch_identities(self.table(), k, j);
            }
        }
        out
    }
}

impl<'a> GeometryObservationValueView<'a> {
    /// The viewed table.
    pub closed spec fn table(&self) -> GeometryObservationValueTable {
        *self.value
    }

    #[verifier::type_invariant]
    closed spec fn checked(&self) -> bool {
        !is_nil(self.value.observation_id@) && result_failure(self.value.result) is None
    }

    /// Returns the observation UUID bytes.
    pub fn observation_id(&self) -> (r: [u8; 16])
        ensures
            r@ == self.table().observation_id@,
            !is_nil(r@),
    {
        proof {
            use_type_invariant(self);
        }
        self.value.observation_id
    }

    /// Returns the current value or temporary-unavailability result.
    pub fn result(&self) -> (r: GeometryObservationResultView<'a>)
        ensures
            result_view_of(r, self.table().result),
            result_failure(self.table().result) is None,
            r matches GeometryObservationResultView::Unavailable(reason) ==> reason
                <= MAXIMUM_UNAVAILABLE_REASON,
    {
        proof {
            use_type_invariant(self);
        }
        match result(&self.value.result) {
            Ok(v) => v,
            Err(_) => vstd::pervasive::unreached(),
        }
    }
}

} // verus!
