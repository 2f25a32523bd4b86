//! Host capability observations: the decoded table, its semantic checks, and
//! the bounded owned model handed to the application.
use crate::error::{outcome, ProtocolError};
use crate::uuid::{is_nil, nil};
use vstd::prelude::*;

verus! {

/// The host operating environment.
#[derive(Clone, Copy, Debug, Eq, PartialEq, Structural)]
pub enum HostPlatform {
    /// The host cannot report its platform.
    Unavailable,
    /// macOS.
    MacOs,
    /// Windows.
    Windows,
    /// A web browser.
    Web,
    /// iOS.
    Ios,
}

/// Whether a host capability can be observed or changed.
#[derive(Clone, Copy, Debug, Eq, PartialEq, Structural)]
pub enum SettingAvailability {
    /// The capability does not exist on this host.
    Unavailable,
    /// The capability is available.
    Available,
    /// Observing the capability failed.
    Failed,
}

/// A window presentation mode.
#[derive(Clone, Copy, Debug, Eq, PartialEq, Structural)]
pub enum DisplayMode {
    /// A decorated window.
    Windowed,
    /// A borderless full-screen window.
    Borderless,
    /// Exclusive full screen.
    Fullscreen,
}

/// The phase of a tentative display change.
#[derive(Clone, Copy, Debug, Eq, PartialEq, Structural)]
pub enum DisplayPreviewState {
    /// The change is being applied.
    Applying,
    /// The change awaits confirmation.
    Confirmable,
    /// The change is being reverted.
    Reverting,
}

/// A display resolution and refresh ratio (the same four fields on the wire).
#[derive(Clone, Copy, Debug, Eq, PartialEq, Structural)]
pub struct DisplayResolution {
    /// Width in physical pixels.
    pub width: u32,
    /// Height in physical pixels.
    pub height: u32,
    /// Refresh-rate numerator.
    pub refresh_numerator: u32,
    /// Refresh-rate denominator.
    pub refresh_denominator: u32,
}

/// A width and height in physical pixels (the same two fields on the wire).
#[derive(Clone, Copy, Debug, Eq, PartialEq, Structural)]
pub struct ScreenSize {
    /// Width in physical pixels.
    pub width: u32,
    /// Height in physical pixels.
    pub height: u32,
}

/// An applied display mode and resolution.
#[derive(Clone, Copy, Debug)]
pub struct DisplayConfiguration {
    /// Presentation mode.
    pub mode: DisplayMode,
    /// Resolution.
    pub resolution: DisplayResolution,
}

/// A tentative display change awaiting confirmation.
#[derive(Clone, Copy, Debug)]
pub struct DisplayPreview {
    /// The command that requested the change.
    pub request_id: [u8; 16],
    /// The phase of the change.
    pub state: DisplayPreviewState,
    /// Seconds until the change reverts.
    pub remaining_seconds: u32,
}

/// The outcome of the latest host settings request.
#[derive(Clone, Debug)]
pub struct HostSettingsResult {
    /// The request this result answers.
    pub request_id: [u8; 16],
    /// The failure, when the request failed.
    pub error: Option<String>,
}

/// A bounded owned host capability observation.
#[derive(Clone, Debug)]
pub struct HostSettings {
    /// The host platform.
    pub platform: HostPlatform,
    /// Whether display configuration is available.
    pub display: SettingAvailability,
    /// Offered presentation modes.
    pub display_modes: Vec<DisplayMode>,
    /// Offered resolutions.
    pub resolutions: Vec<DisplayResolution>,
    /// The applied display configuration.
    pub applied_display: Option<DisplayConfiguration>,
    /// The window bounds.
    pub window_bounds: Option<ScreenSize>,
    /// A pending tentative display change.
    pub display_preview: Option<DisplayPreview>,
    /// Whether frame pacing is available.
    pub frame_pacing: SettingAvailability,
    /// Offered frame rates, sorted and unique.
    pub frame_rates: Vec<u32>,
    /// The applied frame rate, or -1 when unlimited.
    pub applied_frame_rate: i32,
    /// Whether vertical sync can be toggled.
    pub vsync_available: bool,
    /// Whether vertical sync is applied.
    pub applied_vsync: bool,
    /// Whether a keyboard is connected.
    pub keyboard_connected: bool,
    /// Number of connected controllers.
    pub controller_count: u32,
    /// Whether diagnostics reporting is available.
    pub diagnostics: SettingAvailability,
    /// Whether diagnostics reporting is configured.
    pub diagnostics_configured: bool,
    /// Whether exceptions are captured.
    pub capture_exceptions: bool,
    /// Whether performance is reported.
    pub performance_reporting: bool,
    /// The diagnostics failure, when there is one.
    pub diagnostics_error: Option<String>,
    /// The observation failure, when there is one.
    pub observation_error: Option<String>,
    /// The latest request outcome.
    pub last_result: Option<HostSettingsResult>,
}

/// The wire `DisplayConfiguration` table as decoded from a buffer.
#[derive(Clone, Copy, Debug)]
pub struct DisplayConfigurationTable {
    /// Raw presentation-mode ordinal.
    pub mode: u8,
    /// Resolution struct.
    pub resolution: DisplayResolution,
}

/// The wire `DisplayPreview` table as decoded from a buffer.
#[derive(Clone, Copy, Debug)]
pub struct DisplayPreviewTable {
    /// Requesting command UUID bytes.
    pub request_id: [u8; 16],
    /// Raw preview-state ordinal.
    pub state: u8,
    /// Seconds until the change reverts.
    pub remaining_seconds: u32,
}

/// The wire `HostSettingsResult` table as decoded from a buffer.
#[derive(Clone, Debug)]
pub struct HostSettingsResultTable {
    /// Request UUID bytes.
    pub request_id: [u8; 16],
    /// Optional failure text.
    pub error: Option<String>,
}

/// The wire `HostSettings` table as decoded from a buffer, enums still raw.
#[derive(Clone, Debug)]
pub struct HostSettingsTable {
    /// Raw platform ordinal.
    pub platform: u8,
    /// Raw availability ordinal.
    pub display: u8,
    /// Raw presentation-mode ordinals.
    pub display_modes: Vec<u8>,
    /// Resolution structs.
    pub resolutions: Vec<DisplayResolution>,
    /// Applied display configuration.
    pub applied_display: Option<DisplayConfigurationTable>,
    /// Window bounds struct.
    pub window_bounds: Option<ScreenSize>,
    /// Pending display preview.
    pub display_preview: Option<DisplayPreviewTable>,
    /// Raw availability ordinal.
    pub frame_pacing: u8,
    /// Offered frame rates.
    pub frame_rates: Vec<u32>,
    /// Applied frame rate.
    pub applied_frame_rate: i32,
    /// Vertical-sync availability.
    pub vsync_available: bool,
    /// Applied vertical sync.
    pub applied_vsync: bool,
    /// Keyboard presence.
    pub keyboard_connected: bool,
    /// Controller count.
    pub controller_count: u32,
    /// Raw availability ordinal.
    pub diagnostics: u8,
    /// Diagnostics configuration.
    pub diagnostics_configured: bool,
    /// Exception capture.
    pub capture_exceptions: bool,
    /// Performance reporting.
    pub performance_reporting: bool,
    /// Diagnostics failure text.
    pub diagnostics_error: Option<String>,
    /// Observation failure text.
    pub observation_error: Option<String>,
    /// Latest request outcome.
    pub last_result: Option<HostSettingsResultTable>,
}

// ---------------------------------------------------------------------------
// Ordinals

/// The platform a raw ordinal names.
pub open spec fn spec_platform(code: u8) -> Option<HostPlatform> {
    if code == 0 {
        Some(HostPlatform::Unavailable)
    } else if code == 1 {
        Some(HostPlatform::MacOs)
    } else if code == 2 {
        Some(HostPlatform::Windows)
    } else if code == 3 {
        Some(HostPlatform::Web)
    } else if code == 4 {
        Some(HostPlatform::Ios)
    } else {
        None
    }
}

/// The availability a raw ordinal names.
pub open spec fn spec_availability(code: u8) -> Option<SettingAvailability> {
    if code == 0 {
        Some(SettingAvailability::Unavailable)
    } else if code == 1 {
        Some(SettingAvailability::Available)
    } else if code == 2 {
        Some(SettingAvailability::Failed)
    } else {
        None
    }
}

/// The presentation mode a raw ordinal names.
pub open spec fn spec_mode(code: u8) -> Option<DisplayMode> {
    if code == 0 {
        Some(DisplayMode::Windowed)
    } else if code == 1 {
        Some(DisplayMode::Borderless)
    } else if code == 2 {
        Some(DisplayMode::Fullscreen)
    } else {
        None
    }
}

/// The raw ordinal of a presentation mode.
pub open spec fn mode_code(mode: DisplayMode) -> u8 {
    match mode {
        DisplayMode::Windowed => 0,
        DisplayMode::Borderless => 1,
        DisplayMode::Fullscreen => 2,
    }
}

/// The preview state a raw ordinal names.
pub open spec fn spec_preview_state(code: u8) -> Option<DisplayPreviewState> {
    if code == 0 {
        Some(DisplayPreviewState::Applying)
    } else if code == 1 {
        Some(DisplayPreviewState::Confirmable)
    } else if code == 2 {
        Some(DisplayPreviewState::Reverting)
    } else {
        None
    }
}

fn platform(code: u8) -> (r: Result<HostPlatform, ProtocolError>)
    ensures
        match r {
            Ok(p) => spec_platform(code) == Some(p),
            Err(e) => spec_platform(code) is None && e@ == "unknown host platform"@,
        },
{
    match code {
        0 => Ok(HostPlatform::Unavailable),
        1 => Ok(HostPlatform::MacOs),
        2 => Ok(HostPlatform::Windows),
        3 => Ok(HostPlatform::Web),
        4 => Ok(HostPlatform::Ios),
        _ => Err(ProtocolError::new("unknown host platform")),
    }
}

/// Decodes a raw availability ordinal.
pub fn availability(code: u8) -> (r: Result<SettingAvailability, ProtocolError>)
    ensures
        match r {
            Ok(a) => spec_availability(code) == Some(a),
            Err(e) => spec_availability(code) is None && e@ == "unknown capability availability"@,
        },
{
    match code {
        0 => Ok(SettingAvailability::Unavailable),
        1 => Ok(SettingAvailability::Available),
        2 => Ok(SettingAvailability::Failed),
        _ => Err(ProtocolError::new("unknown capability availability")),
    }
}

/// Decodes a raw presentation-mode ordinal.
pub fn mode(code: u8) -> (r: Result<DisplayMode, ProtocolError>)
    ensures
        match r {
            Ok(m) => spec_mode(code) == Some(m),
            Err(e) => spec_mode(code) is None && e@ == "unknown display mode"@,
        },
{
    match code {
        0 => Ok(DisplayMode::Windowed),
        1 => Ok(DisplayMode::Borderless),
        2 => Ok(DisplayMode::Fullscreen),
        _ => Err(ProtocolError::new("unknown display mode")),
    }
}

fn preview_state(code: u8) -> (r: Result<DisplayPreviewState, ProtocolError>)
    ensures
        match r {
            Ok(s) => spec_preview_state(code) == Some(s),
            Err(e) => spec_preview_state(code) is None && e@ == "unknown display preview state"@,
        },
{
    match code {
        0 => Ok(DisplayPreviewState::Applying),
        1 => Ok(DisplayPreviewState::Confirmable),
        2 => Ok(DisplayPreviewState::Reverting),
        _ => Err(ProtocolError::new("unknown display preview state")),
    }
}

// ---------------------------------------------------------------------------
// Semantic rules on the owned model

/// Why a resolution is refused, if it is.
pub open spec fn resolution_failure(r: DisplayResolution) -> Option<Seq<char>> {
    if r.width == 0 || r.height == 0 {
        Some("invalid display dimensions"@)
    } else if r.refresh_denominator == 0 {
        Some("invalid display refresh ratio"@)
    } else {
        None
    }
}

/// Why the first refused resolution of `rs` is refused, if one is.
pub open spec fn first_resolution_failure(rs: Seq<DisplayResolution>) -> Option<Seq<char>>
    decreases rs.len(),
{
    if rs.len() == 0 {
        None
    } else {
        match resolution_failure(rs[0]) {
            Some(m) => Some(m),
            None => first_resolution_failure(rs.drop_first()),
        }
    }
}

/// Checks one resolution.
pub fn validate_resolution(value: &DisplayResolution) -> (r: Result<(), ProtocolError>)
    ensures
        match r {
            Ok(()) => resolution_failure(*value) is None,
            Err(e) => resolution_failure(*value) == Some(e@),
        },
{
    if value.width == 0 || value.height == 0 {
        return Err(ProtocolError::new("invalid display dimensions"));
    }
    if value.refresh_denominator == 0 {
        return Err(ProtocolError::new("invalid display refresh ratio"));
    }
    Ok(())
}

fn validate_resolutions(values: &Vec<DisplayResolution>) -> (r: Result<(), ProtocolError>)
    ensures
        match r {
            Ok(()) => first_resolution_failure(values@) is None,
            Err(e) => first_resolution_failure(values@) == Some(e@),
        },
{
    let mut i: usize = 0;
    assert(values@.subrange(0, values@.len() as int) =~= values@);
    while i < values.len()
        invariant
            i <= values@.len(),
            first_resolution_failure(values@) == first_resolution_failure(
                values@.subrange(i as int, values@.len() as int),
            ),
        decreases values@.len() - i,
    {
        let ghost rest = values@.subrange(i as int, values@.len() as int);
        assert(rest[0] == values@[i as int]);
        assert(rest.drop_first() =~= values@.subrange(i + 1, values@.len() as int));
        validate_resolution(&values[i])?;
        i += 1;
    }
    assert(values@.subrange(i as int, values@.len() as int) =~= Seq::<DisplayResolution>::empty());
    Ok(())
}

/// Two equal presentation modes occur in `modes`.
pub open spec fn has_duplicate(modes: Seq<u8>) -> bool {
    exists|i: int, j: int| 0 <= j < i < modes.len() && modes[j] == modes[i]
}

/// Some rate is not smaller than the one after it.
pub open spec fn not_strictly_increasing(rates: Seq<u32>) -> bool {
    exists|k: int| 0 <= k && k + 1 < rates.len() && #[trigger] rates[k] >= rates[k + 1]
}

/// The checks shared by decoding and encoding, stated on the fields they read.
pub open spec fn validate_fields(
    window_bounds: Option<ScreenSize>,
    preview_remaining: Option<u32>,
    modes: Seq<u8>,
    resolutions: Seq<DisplayResolution>,
    applied: Option<DisplayResolution>,
    rates: Seq<u32>,
    applied_rate: i32,
) -> Result<(), Seq<char>> {
    if window_bounds matches Some(s) && (s.width == 0 || s.height == 0) {
        Err("invalid window bounds"@)
    } else if preview_remaining matches Some(seconds) && seconds > 15 {
        Err("invalid display preview deadline"@)
    } else if modes.len() > 3 || resolutions.len() > 4096 {
        Err("too many display choices"@)
    } else if has_duplicate(modes) {
        Err("duplicate display mode"@)
    } else if first_resolution_failure(resolutions) is Some {
        Err(first_resolution_failure(resolutions)->0)
    } else if applied is Some && resolution_failure(applied->0) is Some {
        Err(resolution_failure(applied->0)->0)
    } else if rates.len() > 256 || rates.contains(0) {
        Err("invalid frame rate choices"@)
    } else if not_strictly_increasing(rates) {
        Err("frame rate choices must be sorted and unique"@)
    } else if applied_rate != -1 && applied_rate <= 0 {
        Err("invalid applied frame rate"@)
    } else {
        Ok(())
    }
}

/// The verdict of the semantic checks on an owned observation.
pub open spec fn spec_validate(h: HostSettings) -> Result<(), Seq<char>> {
    validate_fields(
        h.window_bounds,
        match h.display_preview {
            Some(p) => Some(p.remaining_seconds),
            None => None,
        },
        h.display_modes@.map_values(|m: DisplayMode| mode_code(m)),
        h.resolutions@,
        match h.applied_display {
            Some(d) => Some(d.resolution),
            None => None,
        },
        h.frame_rates@,
        h.applied_frame_rate,
    )
}

fn find_duplicate_mode(modes: &Vec<DisplayMode>) -> (r: bool)
    ensures
        r == has_duplicate(modes@.map_values(|m: DisplayMode| mode_code(m))),
{
    let ghost codes = modes@.map_values(|m: DisplayMode| mode_code(m));
    let mut index: usize = 0;
    while index < modes.len()
        invariant
            index <= modes@.len(),
            codes.len() == modes@.len(),
            codes == modes@.map_values(|m: DisplayMode| mode_code(m)),
            forall|i: int, j: int| 0 <= j < i < index ==> codes[j] != codes[i],
        decreases modes@.len() - index,
    {
        let mut j: usize = 0;
        while j < index
            invariant
                j <= index < modes@.len(),
                codes.len() == modes@.len(),
                codes == modes@.map_values(|m: DisplayMode| mode_code(m)),
                forall|i: int, k: int| 0 <= k < i < index ==> codes[k] != codes[i],
                forall|k: int| 0 <= k < j ==> codes[k] != codes[index as int],
            decreases index - j,
        {
            if modes[j] == modes[index] {
                assert(codes[j as int] == codes[index as int]);
                return true;
            }
            assert(codes[j as int] != codes[index as int]);
            j += 1;
        }
        index += 1;
    }
    false
}

fn rates_have_zero(rates: &Vec<u32>) -> (r: bool)
    ensures
        r == rates@.contains(0),
{
    let mut i: usize = 0;
    while i < rates.len()
        invariant
            i <= rates@.len(),
            forall|k: int| 0 <= k < i ==> rates@[k] != 0,
        decreases rates@.len() - i,
    {
        if rates[i] == 0 {
            assert(rates@[i as int] == 0);
            return true;
        }
        i += 1;
    }
    false
}

fn rates_out_of_order(rates: &Vec<u32>) -> (r: bool)
    ensures
        r == not_strictly_increasing(rates@),
{
    let mut k: usize = 0;
    while k < rates.len() && k + 1 < rates.len()
        invariant
            k <= rates@.len(),
            forall|j: int| 0 <= j < k && j + 1 < rates@.len() ==> #[trigger] rates@[j] < rates@[j + 1],
        decreases rates@.len() - k,
    {
        if rates[k] >= rates[k + 1] {
            return true;
        }
        k += 1;
    }
    false
}

fn check_fields(
    window_bounds: Option<ScreenSize>,
    preview_remaining: Option<u32>,
    modes_count: usize,
    duplicate_mode: bool,
    resolutions: &Vec<DisplayResolution>,
    applied: Option<DisplayResolution>,
    rates: &Vec<u32>,
    applied_rate: i32,
    Ghost(modes): Ghost<Seq<u8>>,
) -> (r: Result<(), ProtocolError>)
    requires
        modes_count == modes.len(),
        duplicate_mode == has_duplicate(modes),
    ensures
        outcome(r) == validate_fields(
            window_bounds,
            preview_remaining,
            modes,
            resolutions@,
            applied,
            rates@,
            applied_rate,
        ),
{
    if let Some(size) = window_bounds {
        if size.width == 0 || size.height == 0 {
            return Err(ProtocolError::new("invalid window bounds"));
        }
    }
    if let Some(seconds) = preview_remaining {
        if seconds > 15 {
            return Err(ProtocolError::new("invalid display preview deadline"));
        }
    }
    if modes_count > 3 || resolutions.len() > 4096 {
        return Err(ProtocolError::new("too many display choices"));
    }
    if duplicate_mode {
        return Err(ProtocolError::new("duplicate display mode"));
    }
    validate_resolutions(resolutions)?;
    if let Some(resolution) = applied {
        validate_resolution(&resolution)?;
    }
    if rates.len() > 256 || rates_have_zero(rates) {
        return Err(ProtocolError::new("invalid frame rate choices"));
    }
    if rates_out_of_order(rates) {
        return Err(ProtocolError::new("frame rate choices must be sorted and unique"));
    }
    if applied_rate != -1 && applied_rate <= 0 {
        return Err(ProtocolError::new("invalid applied frame rate"));
    }
    Ok(())
}

/// Checks an owned observation before it is written or after it is decoded.
pub fn validate(value: &HostSettings) -> (r: Result<(), ProtocolError>)
    ensures
        outcome(r) == spec_validate(*value),
{
    let duplicate = find_duplicate_mode(&value.display_modes);
    let preview_remaining = match value.display_preview {
        Some(p) => Some(p.remaining_seconds),
        None => None,
    };
    let applied = match value.applied_display {
        Some(d) => Some(d.resolution),
        None => None,
    };
    check_fields(
        value.window_bounds,
        preview_remaining,
        value.display_modes.len(),
        duplicate,
        &value.resolutions,
        applied,
        &value.frame_rates,
        value.applied_frame_rate,
        Ghost(value.display_modes@.map_values(|m: DisplayMode| mode_code(m))),
    )
}

// ---------------------------------------------------------------------------
// Decoding the wire table

/// Two optional texts carry the same characters.
pub open spec fn same_text(a: Option<String>, b: Option<String>) -> bool {
    match (a, b) {
        (None, None) => true,
        (Some(x), Some(y)) => x@ == y@,
        _ => false,
    }
}

/// Every raw presentation-mode ordinal in `modes` names a mode.
pub open spec fn modes_known(modes: Seq<u8>) -> bool {
    forall|i: int| 0 <= i < modes.len() ==> (#[trigger] spec_mode(modes[i])) is Some
}

/// Why decoding stops before the owned observation exists, if it does.
pub open spec fn decode_failure(t: HostSettingsTable) -> Option<Seq<char>> {
    if t.display_modes@.len() > 3 {
        Some("too many display modes"@)
    } else if t.resolutions@.len() > 4096 || t.frame_rates@.len() > 256 {
        Some("host settings choices exceed limits"@)
    } else if spec_platform(t.platform) is None {
        Some("unknown host platform"@)
    } else if spec_availability(t.display) is None {
        Some("unknown capability availability"@)
    } else if !modes_known(t.display_modes@) {
        Some("unknown display mode"@)
    } else if first_resolution_failure(t.resolutions@) is Some {
        first_resolution_failure(t.resolutions@)
    } else if t.applied_display is Some && spec_mode(t.applied_display->0.mode) is None {
        Some("unknown display mode"@)
    } else if t.applied_display is Some && resolution_failure(t.applied_display->0.resolution) is Some {
        resolution_failure(t.applied_display->0.resolution)
    } else if t.display_preview is Some && is_nil(t.display_preview->0.request_id@) {
        Some("display preview ID must be nonzero"@)
    } else if t.display_preview is Some && spec_preview_state(t.display_preview->0.state) is None {
        Some("unknown display preview state"@)
    } else if spec_availability(t.frame_pacing) is None {
        Some("unknown capability availability"@)
    } else if spec_availability(t.diagnostics) is None {
        Some("unknown capability availability"@)
    } else if t.last_result is Some && is_nil(t.last_result->0.request_id@) {
        Some("host settings request ID must be nonzero"@)
    } else {
        None
    }
}

/// The verdict of decoding a wire table: the decoding failure, or the
/// semantic checks on the fields the owned observation carries over.
pub open spec fn spec_decode(t: HostSettingsTable) -> Result<(), Seq<char>> {
    match decode_failure(t) {
        Some(m) => Err(m),
        None => validate_fields(
            t.window_bounds,
            match t.display_preview {
                Some(p) => Some(p.remaining_seconds),
                None => None,
            },
            t.display_modes@,
            t.resolutions@,
            match t.applied_display {
                Some(d) => Some(d.resolution),
                None => None,
            },
            t.frame_rates@,
            t.applied_frame_rate,
        ),
    }
}

/// `h` is the owned observation that `t` describes.
pub open spec fn decodes_to(t: HostSettingsTable, h: HostSettings) -> bool {
    &&& spec_platform(t.platform) == Some(h.platform)
    &&& spec_availability(t.display) == Some(h.display)
    &&& h.display_modes@.len() == t.display_modes@.len()
    &&& forall|i: int|
        0 <= i < h.display_modes@.len() ==> spec_mode(t.display_modes@[i]) == Some(
            #[trigger] h.display_modes@[i],
        )
    &&& h.resolutions@ == t.resolutions@
    &&& match (t.applied_display, h.applied_display) {
        (None, None) => true,
        (Some(a), Some(b)) => spec_mode(a.mode) == Some(b.mode) && a.resolution == b.resolution,
        _ => false,
    }
    &&& h.window_bounds == t.window_bounds
    &&& match (t.display_preview, h.display_preview) {
        (None, None) => true,
        (Some(a), Some(b)) => b.request_id@ == a.request_id@ && spec_preview_state(a.state) == Some(
            b.state,
        ) && b.remaining_seconds == a.remaining_seconds,
        _ => false,
    }
    &&& spec_availability(t.frame_pacing) == Some(h.frame_pacing)
    &&& h.frame_rates@ == t.frame_rates@
    &&& h.applied_frame_rate == t.applied_frame_rate
    &&& h.vsync_available == t.vsync_available
    &&& h.applied_vsync == t.applied_vsync
    &&& h.keyboard_connected == t.keyboard_connected
    &&& h.controller_count == t.controller_count
    &&& spec_availability(t.diagnostics) == Some(h.diagnostics)
    &&& h.diagnostics_configured == t.diagnostics_configured
    &&& h.capture_exceptions == t.capture_exceptions
    &&& h.performance_reporting == t.performance_reporting
    &&& same_text(t.diagnostics_error, h.diagnostics_error)
    &&& same_text(t.observation_error, h.observation_error)
    &&& match (t.last_result, h.last_result) {
        (None, None) => true,
        (Some(a), Some(b)) => b.request_id@ == a.request_id@ && same_text(a.error, b.error),
        _ => false,
    }
}

fn copy_text(value: &Option<String>) -> (r: Option<String>)
    ensures
        same_text(*value, r),
{
    match value {
        Some(text) => Some(text.clone()),
        None => None,
    }
}

fn decode_modes(codes: &Vec<u8>) -> (r: Result<Vec<DisplayMode>, ProtocolError>)
    ensures
        match r {
            Ok(modes) => modes_known(codes@) && modes@.len() == codes@.len() && forall|i: int|
                0 <= i < modes@.len() ==> spec_mode(codes@[i]) == Some(#[trigger] modes@[i]),
            Err(e) => !modes_known(codes@) && e@ == "unknown display mode"@,
        },
{
    let mut modes: Vec<DisplayMode> = Vec::new();
    let mut i: usize = 0;
    while i < codes.len()
        invariant
            i <= codes@.len(),
            modes@.len() == i,
            forall|k: int| 0 <= k < i ==> spec_mode(codes@[k]) == Some(#[trigger] modes@[k]),
        decreases codes@.len() - i,
    {
        let m = match mode(codes[i]) {
            Ok(m) => m,
            Err(e) => {
                assert(spec_mode(codes@[i as int]) is None);
                return Err(e);
            },
        };
        modes.push(m);
        i += 1;
    }
    assert forall|k: int| 0 <= k < codes@.len() implies (#[trigger] spec_mode(codes@[k])) is Some by {
        assert(spec_mode(codes@[k]) == Some(modes@[k]));
    }
    Ok(modes)
}

fn copy_resolutions(values: &Vec<DisplayResolution>) -> (r: Vec<DisplayResolution>)
    ensures
        r@ == values@,
{
    let mut out: Vec<DisplayResolution> = Vec::new();
    let mut i: usize = 0;
    while i < values.len()
        invariant
            i <= values@.len(),
            out@ == values@.subrange(0, i as int),
        decreases values@.len() - i,
    {
        out.push(values[i]);
        i += 1;
        assert(out@ =~= values@.subrange(0, i as int));
    }
    assert(values@.subrange(0, i as int) =~= values@);
    out
}

fn copy_rates(values: &Vec<u32>) -> (r: Vec<u32>)
    ensures
        r@ == values@,
{
    let mut out: Vec<u32> = Vec::new();
    let mut i: usize = 0;
    while i < values.len()
        invariant
            i <= values@.len(),
            out@ == values@.subrange(0, i as int),
        decreases values@.len() - i,
    {
        out.push(values[i]);
        i += 1;
        assert(out@ =~= values@.subrange(0, i as int));
    }
    assert(values@.subrange(0, i as int) =~= values@);
    out
}

proof fn lemma_mode_codes(t: Seq<u8>, modes: Seq<DisplayMode>)
    requires
        modes.len() == t.len(),
        forall|i: int| 0 <= i < modes.len() ==> spec_mode(t[i]) == Some(#[trigger] modes[i]),
    ensures
        modes.map_values(|m: DisplayMode| mode_code(m)) == t,
{
    let codes = modes.map_values(|m: DisplayMode| mode_code(m));
    assert forall|i: int| 0 <= i < t.len() implies #[trigger] codes[i] == t[i] by {
        assert(spec_mode(t[i]) == Some(modes[i]));
    }
    assert(codes =~= t);
}

/// Every owned observation decoded from a wire table passes the checks an
/// observation must pass before it is written, so it can be written back.
pub proof fn lemma_decoded_observation_validates(t: HostSettingsTable, h: HostSettings)
    requires
        spec_decode(t) is Ok,
        decodes_to(t, h),
    ensures
        spec_validate(h) is Ok,
{
    lemma_mode_codes(t.display_modes@, h.display_modes@);
    assert(match h.display_preview {
        Some(p) => Some(p.remaining_seconds),
        None => None,
    } == match t.display_preview {
        Some(p) => Some(p.remaining_seconds),
        None => None,
    });
    assert(match h.applied_display {
        Some(d) => Some(d.resolution),
        None => None,
    } == match t.applied_display {
        Some(d) => Some(d.resolution),
        None => None,
    });
}

/// The schema ordinal written for each platform, in declaration order.
pub open spec fn platform_ordinal(p: HostPlatform) -> u8 {
    match p {
        HostPlatform::Unavailable => 0,
        HostPlatform::MacOs => 1,
        HostPlatform::Windows => 2,
        HostPlatform::Web => 3,
        HostPlatform::Ios => 4,
    }
}

/// The schema ordinal written for each availability, in declaration order.
pub open spec fn availability_ordinal(a: SettingAvailability) -> u8 {
    match a {
        SettingAvailability::Unavailable => 0,
        SettingAvailability::Available => 1,
        SettingAvailability::Failed => 2,
    }
}

/// The schema ordinal written for each preview state, in declaration order.
pub open spec fn preview_state_ordinal(s: DisplayPreviewState) -> u8 {
    match s {
        DisplayPreviewState::Applying => 0,
        DisplayPreviewState::Confirmable => 1,
        DisplayPreviewState::Reverting => 2,
    }
}

/// Each ordinal the host-settings schema writes reads back as the value it
/// was written for, and an ordinal that reads as a value is the one written
/// for it.
pub proof fn lemma_ordinals_round_trip(
    platform: HostPlatform,
    availability: SettingAvailability,
    mode: DisplayMode,
    state: DisplayPreviewState,
    code: u8,
)
    ensures
        spec_platform(platform_ordinal(platform)) == Some(platform),
        spec_platform(code) == Some(platform) ==> code == platform_ordinal(platform),
        spec_availability(availability_ordinal(availability)) == Some(availability),
        spec_availability(code) == Some(availability) ==> code == availability_ordinal(
            availability,
        ),
        spec_mode(mode_code(mode)) == Some(mode),
        spec_mode(code) == Some(mode) ==> code == mode_code(mode),
        spec_preview_state(preview_state_ordinal(state)) == Some(state),
        spec_preview_state(code) == Some(state) ==> code == preview_state_ordinal(state),
{
}

/// Decoding keeps every ordinal: writing the decoded observation's platform,
/// availabilities, display modes and preview state gives back the wire
/// ordinals they were decoded from.
pub proof fn lemma_decoded_ordinals(t: HostSettingsTable, h: HostSettings)
    requires
        decodes_to(t, h),
    ensures
        platform_ordinal(h.platform) == t.platform,
        availability_ordinal(h.display) == t.display,
        availability_ordinal(h.frame_pacing) == t.frame_pacing,
        availability_ordinal(h.diagnostics) == t.diagnostics,
        h.display_modes@.map_values(|m: DisplayMode| mode_code(m)) == t.display_modes@,
        t.display_preview is Some ==> h.display_preview is Some && preview_state_ordinal(
            h.display_preview->Some_0.state,
        ) == t.display_preview->Some_0.state,
{
    lemma_mode_codes(t.display_modes@, h.display_modes@);
}

/// Decodes and checks one wire observation into the owned model.
pub fn decode(t: &HostSettingsTable) -> (r: Result<HostSettings, ProtocolError>)
    ensures
        match r {
            Ok(h) => spec_decode(*t) is Ok && decodes_to(*t, h),
            Err(e) => spec_decode(*t) == Err::<(), Seq<char>>(e@),
        },
{
    if t.display_modes.len() > 3 {
        return Err(ProtocolError::new("too many display modes"));
    }
    if t.resolutions.len() > 4096 || t.frame_rates.len() > 256 {
        return Err(ProtocolError::new("host settings choices exceed limits"));
    }
    let platform = platform(t.platform)?;
    let display = availability(t.display)?;
    let display_modes = decode_modes(&t.display_modes)?;
    validate_resolutions(&t.resolutions)?;
    let resolutions = copy_resolutions(&t.resolutions);
    let applied_display = match t.applied_display {
        Some(d) => {
            let m = mode(d.mode)?;
            validate_resolution(&d.resolution)?;
            Some(DisplayConfiguration { mode: m, resolution: d.resolution })
        },
        None => None,
    };
    let display_preview = match t.display_preview {
        Some(p) => {
            if nil(&p.request_id) {
                return Err(ProtocolError::new("display preview ID must be nonzero"));
            }
            let state = preview_state(p.state)?;
            Some(
                DisplayPreview {
                    request_id: p.request_id,
                    state,
                    remaining_seconds: p.remaining_seconds,
                },
            )
        },
        None => None,
    };
    let frame_pacing = availability(t.frame_pacing)?;
    let diagnostics = availability(t.diagnostics)?;
    let last_result = match &t.last_result {
        Some(result) => {
            if nil(&result.request_id) {
                return Err(ProtocolError::new("host settings request ID must be nonzero"));
            }
            Some(HostSettingsResult { request_id: result.request_id, error: copy_text(&result.error) })
        },
        None => None,
    };
    let result = HostSettings {
        platform,
        display,
        display_modes,
        resolutions,
        applied_display,
        window_bounds: t.window_bounds,
        display_preview,
        frame_pacing,
        frame_rates: copy_rates(&t.frame_rates),
        applied_frame_rate: t.applied_frame_rate,
        vsync_available: t.vsync_available,
        applied_vsync: t.applied_vsync,
        keyboard_connected: t.keyboard_connected,
        controller_count: t.controller_count,
        diagnostics,
        diagnostics_configured: t.diagnostics_configured,
        capture_exceptions: t.capture_exceptions,
        performance_reporting: t.performance_reporting,
        diagnostics_error: copy_text(&t.diagnostics_error),
        observation_error: copy_text(&t.observation_error),
        last_result,
    };
    proof {
        lemma_mode_codes(t.display_modes@, result.display_modes@);
    }
    validate(&result)?;
    Ok(result)
}

/// Borrowed, semantically checked host settings observation.
pub struct HostSettingsView {
    value: HostSettingsTable,
}

impl HostSettingsView {
    /// The decoded wire table this view stands for.
    pub closed spec fn table(&self) -> HostSettingsTable {
        self.value
    }

    /// Every view holds a table that decodes.
    #[verifier::type_invariant]
    closed spec fn decodes(&self) -> bool {
        spec_decode(self.value) is Ok
    }

    /// Checks one decoded wire table and keeps it as a view.
    pub fn new(value: HostSettingsTable) -> (r: Result<Self, ProtocolError>)
        ensures
            match r {
                Ok(view) => spec_decode(value) is Ok && view.table() == value,
                Err(e) => spec_decode(value) == Err::<(), Seq<char>>(e@),
            },
    {
        match decode(&value) {
            Ok(_) => Ok(HostSettingsView { value }),
            Err(e) => Err(e),
        }
    }

    /// Copies the bounded observation into the owned model.
    pub fn to_owned(&self) -> (r: HostSettings)
        ensures
            spec_decode(self.table()) is Ok,
            decodes_to(self.table(), r),
    {
        proof {
            use_type_invariant(self);
        }
        match decode(&self.value) {
            Ok(h) => h,
            Err(_) => vstd::pervasive::unreached(),
        }
    }
}

} // verus!
