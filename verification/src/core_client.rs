//! Core client submissions: built-in input actions, batch completions, and
//! batch and operation failures, as the FlatBuffers verifier decodes them;
//! the rules each must pass; and the checked views.
use crate::error::ProtocolError;
use crate::float_bits::{f64_finite, finite_f64};
use crate::framing::{check_framing, spec_framing, FramingFailure};
use crate::geometry::{
    batch_failure as geometry_failure, GeometryObservationBatchTable, GeometryObservationBatchView,
};
use crate::host_settings::{spec_decode, HostSettingsTable, HostSettingsView};
use crate::motion::{batch_failure as motion_failure, MotionEventBatchTable, MotionEventBatchView};
use crate::uuid::{is_nil, nil};
use vstd::prelude::*;
use vstd::string::{StringExecFns, StringSliceAdditionalSpecFns};

verus! {

/// Largest physical-key ordinal (`NumpadEnter`).
pub const MAXIMUM_PHYSICAL_KEY: u16 = 103;

/// Largest controller-button ordinal (`Select`).
pub const MAXIMUM_CONTROLLER_BUTTON: u8 = 9;

/// Largest controller-direction ordinal (`Down`).
pub const MAXIMUM_CONTROLLER_DIRECTION: u8 = 3;

/// Largest controller navigation-source ordinal (`LeftStick`).
pub const MAXIMUM_NAVIGATION_SOURCE: u8 = 1;

/// The D-pad navigation-source ordinal.
pub const DPAD_SOURCE: u8 = 0;

/// Largest reduced-motion preference ordinal (`NoPreference`).
pub const MAXIMUM_REDUCED_MOTION_PREFERENCE: u8 = 2;

// ---------------------------------------------------------------------------
// Tables

/// The wire `CoreActionKind` enum.
#[derive(Clone, Copy, Debug, PartialEq, Eq, Structural)]
pub enum CoreActionKindCode {
    /// Coordinate-free activation.
    Activate,
    /// Pointer entered an object.
    PointerEnter,
    /// Pointer exited an object.
    PointerExit,
    /// Pointer button went down.
    PointerDown,
    /// Pointer button went up.
    PointerUp,
    /// Pointer clicked an object.
    PointerClick,
    /// Drag started.
    DragStart,
    /// Drag ended.
    DragEnd,
    /// Physical key went down.
    KeyDown,
    /// Physical key went up.
    KeyUp,
    /// Controller button went down.
    ControllerButtonDown,
    /// Controller button went up.
    ControllerButtonUp,
    /// Exclusive input capture finished.
    InputCaptured,
    /// Controller navigation step.
    ControllerNavigate,
    /// Changed geometry observations.
    GeometryObservations,
    /// Motion events.
    MotionEvents,
    /// Host settings changed.
    HostSettingsChanged,
    /// Application focus or suspension changed.
    ApplicationStateChanged,
    /// Reduced-motion preference changed.
    ReducedMotionPreferenceChanged,
    /// An ordinal the schema does not name.
    Unknown,
}

/// The wire `ActivationAction` table.
#[derive(Clone, Copy, Debug)]
pub struct ActivationActionTable {
    /// Target object UUID bytes.
    pub object_id: [u8; 16],
}

/// The wire `PointerAction` table; coordinates are binary64 bit patterns.
#[derive(Clone, Copy, Debug)]
pub struct PointerActionTable {
    /// Target object UUID bytes.
    pub object_id: [u8; 16],
    /// Stable pointer identity.
    pub pointer_id: i32,
    /// Screen position.
    pub screen_position: [u64; 2],
    /// World hit position.
    pub world_hit: [u64; 3],
}

/// The kind of a wire `PointerButton` struct.
#[derive(Clone, Copy, Debug, PartialEq, Eq, Structural)]
pub enum PointerButtonKindCode {
    /// The left button.
    Left,
    /// The middle button.
    Middle,
    /// The right button.
    Right,
    /// Any other kind.
    Other,
}

/// The wire `PointerButtonAction` table; coordinates are binary64 bit patterns.
#[derive(Clone, Copy, Debug)]
pub struct PointerButtonActionTable {
    /// Target object UUID bytes.
    pub object_id: [u8; 16],
    /// Stable pointer identity.
    pub pointer_id: i32,
    /// Screen position.
    pub screen_position: [u64; 2],
    /// World hit position.
    pub world_hit: [u64; 3],
    /// The button-kind ordinal.
    pub button: u8,
    /// The kind that ordinal names.
    pub button_kind: PointerButtonKindCode,
    /// The custom button index.
    pub button_other: u32,
}

/// The wire `DragAction` table; coordinates are binary64 bit patterns.
#[derive(Clone, Copy, Debug)]
pub struct DragActionTable {
    /// Target object UUID bytes.
    pub object_id: [u8; 16],
    /// Stable pointer identity.
    pub pointer_id: i32,
    /// Screen position.
    pub screen_position: [u64; 2],
    /// World position.
    pub world_position: [u64; 3],
}

/// The wire `KeyAction` table.
#[derive(Clone, Copy, Debug)]
pub struct KeyActionTable {
    /// Physical-key ordinal.
    pub key: u16,
}

/// The wire `ControllerButtonAction` table.
#[derive(Clone, Copy, Debug)]
pub struct ControllerButtonActionTable {
    /// Controller identity.
    pub controller_id: i32,
    /// Controller-button ordinal.
    pub button: u8,
}

/// The wire `ControllerNavigateAction` table.
#[derive(Clone, Copy, Debug)]
pub struct ControllerNavigateActionTable {
    /// Controller identity.
    pub controller_id: i32,
    /// Direction ordinal.
    pub direction: u8,
    /// Navigation-source ordinal.
    pub source: u8,
    /// Whether this was a held-input repeat.
    pub repeat: bool,
}

/// The wire `ApplicationStateAction` table.
#[derive(Clone, Copy, Debug)]
pub struct ApplicationStateActionTable {
    /// Whether the application owns focus.
    pub focused: bool,
    /// Whether the application is paused.
    pub paused: bool,
}

/// The wire `ReducedMotionPreferenceAction` table.
#[derive(Clone, Copy, Debug)]
pub struct ReducedMotionPreferenceActionTable {
    /// Preference ordinal.
    pub value: u8,
}

/// The wire `InputCaptureResultKind` enum.
#[derive(Clone, Copy, Debug, PartialEq, Eq, Structural)]
pub enum CaptureResultCode {
    /// A key was captured.
    Key,
    /// A controller button was captured.
    Button,
    /// A controller direction was captured.
    Direction,
    /// The capture was cancelled.
    Cancelled,
    /// An ordinal the schema does not name.
    Unknown,
}

/// The wire `InputCaptureCancellation` enum.
#[derive(Clone, Copy, Debug, PartialEq, Eq, Structural)]
pub enum CaptureCancellationCode {
    /// The application lost focus.
    FocusLost,
    /// The capturing device disconnected.
    DeviceDisconnected,
    /// A newer capture replaced this one.
    Superseded,
    /// An ordinal the schema does not name.
    Unknown,
}

/// The wire `InputCaptureAction` table.
#[derive(Debug)]
pub struct InputCaptureActionTable {
    /// Capture UUID bytes.
    pub capture_id: [u8; 16],
    /// Capturing device identity.
    pub device_id: i32,
    /// Result kind.
    pub result: CaptureResultCode,
    /// Physical-key ordinal.
    pub key: u16,
    /// The verdict of the physical-key table on `key`: the failure text, if
    /// the ordinal names no key.
    pub key_failure: Option<String>,
    /// Controller-button ordinal.
    pub button: u8,
    /// Direction ordinal.
    pub direction: u8,
    /// Navigation-source ordinal.
    pub source: u8,
    /// Whether the direction was a held-input repeat.
    pub repeat: bool,
    /// Cancellation reason.
    pub cancellation: CaptureCancellationCode,
}

/// The wire `CoreActionBody` union: the payload type, with its table when
/// present.
pub enum CoreActionBodyTable {
    /// `ActivationAction`.
    Activation(Option<ActivationActionTable>),
    /// `PointerAction`.
    Pointer(Option<PointerActionTable>),
    /// `PointerButtonAction`.
    PointerButton(Option<PointerButtonActionTable>),
    /// `DragAction`.
    Drag(Option<DragActionTable>),
    /// `KeyAction`.
    Key(Option<KeyActionTable>),
    /// `ControllerButtonAction`.
    ControllerButton(Option<ControllerButtonActionTable>),
    /// `ControllerNavigateAction`.
    ControllerNavigate(Option<ControllerNavigateActionTable>),
    /// `InputCaptureAction`.
    InputCapture(Option<InputCaptureActionTable>),
    /// `GeometryAction`, by its wrapped batch.
    Geometry(Option<GeometryObservationBatchTable>),
    /// `MotionAction`, by its wrapped batch.
    Motion(Option<MotionEventBatchTable>),
    /// `HostSettingsAction`, by its wrapped observation.
    HostSettings(Option<HostSettingsTable>),
    /// `ApplicationStateAction`.
    ApplicationState(Option<ApplicationStateActionTable>),
    /// `ReducedMotionPreferenceAction`.
    ReducedMotionPreference(Option<ReducedMotionPreferenceActionTable>),
    /// No payload, or a payload type the schema does not name.
    Other,
}

/// The wire `CoreAction` table.
pub struct CoreActionTable {
    /// Action UUID bytes.
    pub action_id: [u8; 16],
    /// Session UUID bytes.
    pub session_id: [u8; 16],
    /// Action kind.
    pub kind: CoreActionKindCode,
    /// Action payload.
    pub body: CoreActionBodyTable,
}

/// The wire `BatchCompleted` table.
#[derive(Clone, Copy, Debug)]
pub struct BatchCompletedTable {
    /// Session UUID bytes.
    pub session_id: [u8; 16],
    /// Batch UUID bytes.
    pub batch_id: [u8; 16],
}

/// The wire `BatchFailed` table.
#[derive(Debug)]
pub struct BatchFailedTable {
    /// Session UUID bytes.
    pub session_id: [u8; 16],
    /// Batch UUID bytes.
    pub batch_id: [u8; 16],
    /// UUID bytes of the failed command, if one failed.
    pub command_id: Option<[u8; 16]>,
    /// Core error-code ordinal.
    pub error_code: u8,
    /// Whether that ordinal is one the schema names.
    pub error_code_named: bool,
    /// Diagnostic text.
    pub message: String,
}

/// The wire `OperationFailed` table.
#[derive(Debug)]
pub struct OperationFailedTable {
    /// Session UUID bytes.
    pub session_id: [u8; 16],
    /// Batch UUID bytes.
    pub batch_id: [u8; 16],
    /// UUID bytes of the command whose operation failed.
    pub command_id: [u8; 16],
    /// Core error-code ordinal.
    pub error_code: u8,
    /// Whether that ordinal is one the schema names.
    pub error_code_named: bool,
    /// Diagnostic text.
    pub message: String,
}

/// The wire `CoreClientMessageBody` union.
pub enum CoreClientBodyTable {
    /// `CoreAction`.
    CoreAction(Option<CoreActionTable>),
    /// `BatchCompleted`.
    BatchCompleted(Option<BatchCompletedTable>),
    /// `BatchFailed`.
    BatchFailed(Option<BatchFailedTable>),
    /// `OperationFailed`.
    OperationFailed(Option<OperationFailedTable>),
    /// No body, or a body type the schema does not name.
    Unknown,
}

// ---------------------------------------------------------------------------
// Rules

/// A nonnegative pointer identity and finite coordinates.
pub open spec fn pointer_valid(pointer_id: i32, screen: [u64; 2], world: [u64; 3]) -> bool {
    &&& pointer_id >= 0
    &&& f64_finite(screen[0])
    &&& f64_finite(screen[1])
    &&& f64_finite(world[0])
    &&& f64_finite(world[1])
    &&& f64_finite(world[2])
}

/// The failure of a kind whose payload does not fit it.
pub open spec fn mismatch() -> Seq<char> {
    "core action kind and payload type do not match"@
}

/// Why a pointer payload is refused, if it is.
pub open spec fn pointer_failure(p: Option<PointerActionTable>) -> Option<Seq<char>> {
    match p {
        None => Some("pointer payload is missing"@),
        Some(p) => if !pointer_valid(p.pointer_id, p.screen_position, p.world_hit) {
            Some("invalid pointer identity or coordinates"@)
        } else if is_nil(p.object_id@) {
            Some("pointer object UUID must be nonzero"@)
        } else {
            None
        },
    }
}

/// Why a pointer-button payload is refused, if it is.
pub open spec fn pointer_button_failure(p: Option<PointerButtonActionTable>) -> Option<Seq<char>> {
    match p {
        None => Some("pointer-button payload is missing"@),
        Some(p) => if !pointer_valid(p.pointer_id, p.screen_position, p.world_hit) {
            Some("invalid pointer identity or coordinates"@)
        } else if is_nil(p.object_id@) {
            Some("pointer-button object UUID must be nonzero"@)
        } else if p.button_kind == PointerButtonKindCode::Other {
            Some("unknown core pointer button"@)
        } else if p.button_other != 0 {
            Some("core pointer button has a noncanonical custom index"@)
        } else {
            None
        },
    }
}

/// Why a drag payload is refused, if it is.
pub open spec fn drag_failure(p: Option<DragActionTable>) -> Option<Seq<char>> {
    match p {
        None => Some("drag payload is missing"@),
        Some(p) => if !pointer_valid(p.pointer_id, p.screen_position, p.world_position) {
            Some("invalid pointer identity or coordinates"@)
        } else if is_nil(p.object_id@) {
            Some("drag object UUID must be nonzero"@)
        } else {
            None
        },
    }
}

/// Why a key payload is refused, if it is.
pub open spec fn key_failure(p: Option<KeyActionTable>) -> Option<Seq<char>> {
    match p {
        None => Some("key payload is missing"@),
        Some(p) => if p.key > MAXIMUM_PHYSICAL_KEY {
            Some("unknown physical key"@)
        } else {
            None
        },
    }
}

/// Why a controller-button payload is refused, if it is.
pub open spec fn controller_button_failure(p: Option<ControllerButtonActionTable>) -> Option<
    Seq<char>,
> {
    match p {
        None => Some("controller-button payload is missing"@),
        Some(p) => if p.controller_id < 0 || p.button > MAXIMUM_CONTROLLER_BUTTON {
            Some("invalid controller-button payload"@)
        } else {
            None
        },
    }
}

/// Why a controller-navigation payload is refused, if it is.
pub open spec fn navigate_failure(p: Option<ControllerNavigateActionTable>) -> Option<Seq<char>> {
    match p {
        None => Some("controller-navigation payload is missing"@),
        Some(p) => if p.controller_id < 0 || p.direction > MAXIMUM_CONTROLLER_DIRECTION || p.source
            > MAXIMUM_NAVIGATION_SOURCE {
            Some("invalid controller-navigation payload"@)
        } else {
            None
        },
    }
}

/// Why an input-capture result is refused, if it is.
pub open spec fn capture_failure(e: InputCaptureActionTable) -> Option<Seq<char>> {
    if is_nil(e.capture_id@) {
        Some("capture identity must be nonzero"@)
    } else if e.device_id < 0 {
        Some("capture device identity must be nonnegative"@)
    } else {
        match e.result {
            CaptureResultCode::Key => match e.key_failure {
                Some(m) => Some(m@),
                None => None,
            },
            CaptureResultCode::Button => if e.button > MAXIMUM_CONTROLLER_BUTTON {
                Some("unknown capture button"@)
            } else {
                None
            },
            CaptureResultCode::Direction => if e.source != DPAD_SOURCE || e.repeat {
                Some("capture directions must be initial D-pad presses"@)
            } else if e.direction > MAXIMUM_CONTROLLER_DIRECTION {
                Some("unknown capture direction"@)
            } else {
                None
            },
            CaptureResultCode::Cancelled => if e.cancellation == CaptureCancellationCode::Unknown {
                Some("unknown capture cancellation"@)
            } else {
                None
            },
            CaptureResultCode::Unknown => Some("unknown capture result"@),
        }
    }
}

/// Why a host-settings observation is refused, if it is.
pub open spec fn host_settings_failure(h: HostSettingsTable) -> Option<Seq<char>> {
    match spec_decode(h) {
        Err(m) => Some(m),
        Ok(()) => None,
    }
}

/// Why an action of kind `kind` with payload `body` is refused, if it is.
pub open spec fn body_failure(kind: CoreActionKindCode, body: CoreActionBodyTable) -> Option<
    Seq<char>,
> {
    match kind {
        CoreActionKindCode::Activate => match body {
            CoreActionBodyTable::Activation(Some(_)) => None,
            _ => Some(mismatch()),
        },
        CoreActionKindCode::PointerEnter | CoreActionKindCode::PointerExit => match body {
            CoreActionBodyTable::Pointer(p) => pointer_failure(p),
            _ => Some(mismatch()),
        },
        CoreActionKindCode::PointerDown | CoreActionKindCode::PointerUp
        | CoreActionKindCode::PointerClick => match body {
            CoreActionBodyTable::PointerButton(p) => pointer_button_failure(p),
            _ => Some(mismatch()),
        },
        CoreActionKindCode::DragStart | CoreActionKindCode::DragEnd => match body {
            CoreActionBodyTable::Drag(p) => drag_failure(p),
            _ => Some(mismatch()),
        },
        CoreActionKindCode::KeyDown | CoreActionKindCode::KeyUp => match body {
            CoreActionBodyTable::Key(p) => key_failure(p),
            _ => Some(mismatch()),
        },
        CoreActionKindCode::ControllerButtonDown | CoreActionKindCode::ControllerButtonUp => match body {
            CoreActionBodyTable::ControllerButton(p) => controller_button_failure(p),
            _ => Some(mismatch()),
        },
        CoreActionKindCode::InputCaptured => match body {
            CoreActionBodyTable::InputCapture(Some(e)) => capture_failure(e),
            _ => Some(mismatch()),
        },
        CoreActionKindCode::ControllerNavigate => match body {
            CoreActionBodyTable::ControllerNavigate(p) => navigate_failure(p),
            _ => Some(mismatch()),
        },
        CoreActionKindCode::GeometryObservations => match body {
            CoreActionBodyTable::Geometry(Some(g)) => geometry_failure(g),
            _ => Some(mismatch()),
        },
        CoreActionKindCode::MotionEvents => match body {
            CoreActionBodyTable::Motion(Some(m)) => motion_failure(m),
            _ => Some(mismatch()),
        },
        CoreActionKindCode::HostSettingsChanged => match body {
            CoreActionBodyTable::HostSettings(Some(h)) => host_settings_failure(h),
            _ => Some(mismatch()),
        },
        CoreActionKindCode::ApplicationStateChanged => match body {
            CoreActionBodyTable::ApplicationState(Some(_)) => None,
            _ => Some(mismatch()),
        },
        CoreActionKindCode::ReducedMotionPreferenceChanged => match body {
            CoreActionBodyTable::ReducedMotionPreference(Some(r)) => if r.value
                > MAXIMUM_REDUCED_MOTION_PREFERENCE {
                Some("unknown reduced-motion preference"@)
            } else {
                None
            },
            _ => Some(mismatch()),
        },
        CoreActionKindCode::Unknown => Some(mismatch()),
    }
}

/// The payload type of `body` is the one actions of kind `kind` carry.
pub open spec fn payload_fits(kind: CoreActionKindCode, body: CoreActionBodyTable) -> bool {
    match kind {
        CoreActionKindCode::Activate => body is Activation,
        CoreActionKindCode::PointerEnter | CoreActionKindCode::PointerExit => body is Pointer,
        CoreActionKindCode::PointerDown | CoreActionKindCode::PointerUp
        | CoreActionKindCode::PointerClick => body is PointerButton,
        CoreActionKindCode::DragStart | CoreActionKindCode::DragEnd => body is Drag,
        CoreActionKindCode::KeyDown | CoreActionKindCode::KeyUp => body is Key,
        CoreActionKindCode::ControllerButtonDown | CoreActionKindCode::ControllerButtonUp => body is ControllerButton,
        CoreActionKindCode::InputCaptured => body is InputCapture,
        CoreActionKindCode::ControllerNavigate => body is ControllerNavigate,
        CoreActionKindCode::GeometryObservations => body is Geometry,
        CoreActionKindCode::MotionEvents => body is Motion,
        CoreActionKindCode::HostSettingsChanged => body is HostSettings,
        CoreActionKindCode::ApplicationStateChanged => body is ApplicationState,
        CoreActionKindCode::ReducedMotionPreferenceChanged => body is ReducedMotionPreference,
        CoreActionKindCode::Unknown => false,
    }
}

/// The payload table of `body` is present.
pub open spec fn payload_present(body: CoreActionBodyTable) -> bool {
    match body {
        CoreActionBodyTable::Activation(p) => p is Some,
        CoreActionBodyTable::Pointer(p) => p is Some,
        CoreActionBodyTable::PointerButton(p) => p is Some,
        CoreActionBodyTable::Drag(p) => p is Some,
        CoreActionBodyTable::Key(p) => p is Some,
        CoreActionBodyTable::ControllerButton(p) => p is Some,
        CoreActionBodyTable::ControllerNavigate(p) => p is Some,
        CoreActionBodyTable::InputCapture(p) => p is Some,
        CoreActionBodyTable::Geometry(p) => p is Some,
        CoreActionBodyTable::Motion(p) => p is Some,
        CoreActionBodyTable::HostSettings(p) => p is Some,
        CoreActionBodyTable::ApplicationState(p) => p is Some,
        CoreActionBodyTable::ReducedMotionPreference(p) => p is Some,
        CoreActionBodyTable::Other => false,
    }
}

/// Why a payload is refused by its own rules, whatever kind carries it.
pub open spec fn payload_rule_failure(body: CoreActionBodyTable) -> Option<Seq<char>> {
    match body {
        CoreActionBodyTable::Activation(Some(_)) => None,
        CoreActionBodyTable::Pointer(p) => pointer_failure(p),
        CoreActionBodyTable::PointerButton(p) => pointer_button_failure(p),
        CoreActionBodyTable::Drag(p) => drag_failure(p),
        CoreActionBodyTable::Key(p) => key_failure(p),
        CoreActionBodyTable::ControllerButton(p) => controller_button_failure(p),
        CoreActionBodyTable::ControllerNavigate(p) => navigate_failure(p),
        CoreActionBodyTable::InputCapture(Some(e)) => capture_failure(e),
        CoreActionBodyTable::Geometry(Some(g)) => geometry_failure(g),
        CoreActionBodyTable::Motion(Some(m)) => motion_failure(m),
        CoreActionBodyTable::HostSettings(Some(h)) => host_settings_failure(h),
        CoreActionBodyTable::ApplicationState(Some(_)) => None,
        CoreActionBodyTable::ReducedMotionPreference(Some(r)) => if r.value
            > MAXIMUM_REDUCED_MOTION_PREFERENCE {
            Some("unknown reduced-motion preference"@)
        } else {
            None
        },
        _ => Some(mismatch()),
    }
}

/// The kind of an action matters only through the payload type it names: an
/// action whose payload type does not fit its kind is refused as a mismatch,
/// and one whose payload fits is judged by that payload's own rules alone,
/// the same for every kind that carries it (so an action is accepted exactly
/// when its payload fits and passes them).
pub proof fn lemma_kind_selects_payload(kind: CoreActionKindCode, body: CoreActionBodyTable)
    ensures
        body_failure(kind, body) == (if payload_fits(kind, body) {
            payload_rule_failure(body)
        } else {
            Some(mismatch())
        }),
{
}

/// An accepted action has a kind the schema names and carries, present, the
/// payload type that kind names.
pub proof fn lemma_accepted_action_payload(kind: CoreActionKindCode, body: CoreActionBodyTable)
    requires
        body_failure(kind, body) is None,
    ensures
        kind != CoreActionKindCode::Unknown,
        payload_fits(kind, body),
        payload_present(body),
{
}

/// Why a core action is refused, if it is.
pub open spec fn action_failure(a: CoreActionTable) -> Option<Seq<char>> {
    if is_nil(a.action_id@) || is_nil(a.session_id@) {
        Some("core action UUIDs must be nonzero"@)
    } else {
        body_failure(a.kind, a.body)
    }
}

/// Why a batch-failure report is refused, if it is.
pub open spec fn batch_failed_failure(t: BatchFailedTable) -> Option<Seq<char>> {
    if is_nil(t.session_id@) || is_nil(t.batch_id@) || (t.command_id is Some && is_nil(
        t.command_id->Some_0@,
    )) || !t.error_code_named {
        Some("invalid batch-failure identity or error code"@)
    } else {
        None
    }
}

/// Why an operation-failure report is refused, if it is.
pub open spec fn operation_failed_failure(t: OperationFailedTable) -> Option<Seq<char>> {
    if is_nil(t.session_id@) || is_nil(t.batch_id@) || is_nil(t.command_id@)
        || !t.error_code_named {
        Some("invalid operation-failure identity or error code"@)
    } else {
        None
    }
}

/// Why a core client submission is refused, if it is.
pub open spec fn client_failure(t: CoreClientBodyTable) -> Option<Seq<char>> {
    match t {
        CoreClientBodyTable::CoreAction(None) => Some("core action payload is missing"@),
        CoreClientBodyTable::CoreAction(Some(a)) => action_failure(a),
        CoreClientBodyTable::BatchCompleted(None) => Some("batch-completed payload is missing"@),
        CoreClientBodyTable::BatchCompleted(Some(b)) => if is_nil(b.session_id@) {
            Some("batch-completed session is zero"@)
        } else if is_nil(b.batch_id@) {
            Some("batch-completed batch is zero"@)
        } else {
            None
        },
        CoreClientBodyTable::BatchFailed(None) => Some("batch-failure payload is missing"@),
        CoreClientBodyTable::BatchFailed(Some(f)) => batch_failed_failure(f),
        CoreClientBodyTable::OperationFailed(None) => Some("operation-failure payload is missing"@),
        CoreClientBodyTable::OperationFailed(Some(f)) => operation_failed_failure(f),
        CoreClientBodyTable::Unknown => Some("unknown core client message union tag"@),
    }
}

// ---------------------------------------------------------------------------
// Checked payloads

/// A checked activation payload.
pub struct ActivationActionView {
    value: ActivationActionTable,
}

impl ActivationActionView {
    /// The viewed table.
    pub closed spec fn table(&self) -> ActivationActionTable {
        self.value
    }

    /// Returns the target object UUID bytes.
    pub fn object_id(&self) -> (r: [u8; 16])
        ensures
            r == self.table().object_id,
    {
        self.value.object_id
    }
}

/// A checked pointer-location payload.
pub struct PointerActionView {
    value: PointerActionTable,
}

impl PointerActionView {
    /// The viewed table.
    pub closed spec fn table(&self) -> PointerActionTable {
        self.value
    }

    #[verifier::type_invariant]
    closed spec fn checked(&self) -> bool {
        pointer_failure(Some(self.value)) is None
    }

    /// Returns the nonzero target object UUID bytes.
    pub fn object_id(&self) -> (r: [u8; 16])
        ensures
            r == self.table().object_id,
            !is_nil(r@),
    {
        proof {
            use_type_invariant(self);
        }
        self.value.object_id
    }

    /// Returns the nonnegative stable pointer identity.
    pub fn pointer_id(&self) -> (r: i32)
        ensures
            r == self.table().pointer_id,
            r >= 0,
    {
        proof {
            use_type_invariant(self);
        }
        self.value.pointer_id
    }

    /// Returns the finite screen position.
    pub fn screen_position(&self) -> (r: [u64; 2])
        ensures
            r == self.table().screen_position,
    {
        self.value.screen_position
    }

    /// Returns the finite world hit position.
    pub fn world_hit(&self) -> (r: [u64; 3])
        ensures
            r == self.table().world_hit,
    {
        self.value.world_hit
    }
}

/// A built-in pointer button.
#[derive(Clone, Copy, Debug, PartialEq, Eq, Structural)]
pub enum PointerButton {
    /// The left button.
    Left,
    /// The middle button.
    Middle,
    /// The right button.
    Right,
}

/// A checked pointer-button payload.
pub struct PointerButtonActionView {
    value: PointerButtonActionTable,
}

impl PointerButtonActionView {
    /// The viewed table.
    pub closed spec fn table(&self) -> PointerButtonActionTable {
        self.value
    }

    #[verifier::type_invariant]
    closed spec fn checked(&self) -> bool {
        pointer_button_failure(Some(self.value)) is None
    }

    /// Returns the nonzero target object UUID bytes.
    pub fn object_id(&self) -> (r: [u8; 16])
        ensures
            r == self.table().object_id,
            !is_nil(r@),
    {
        proof {
            use_type_invariant(self);
        }
        self.value.object_id
    }

    /// Returns the nonnegative stable pointer identity.
    pub fn pointer_id(&self) -> (r: i32)
        ensures
            r == self.table().pointer_id,
            r >= 0,
    {
        proof {
            use_type_invariant(self);
        }
        self.value.pointer_id
    }

    /// Returns the finite screen position.
    pub fn screen_position(&self) -> (r: [u64; 2])
        ensures
            r == self.table().screen_position,
    {
        self.value.screen_position
    }

    /// Returns the finite world hit position.
    pub fn world_hit(&self) -> (r: [u64; 3])
        ensures
            r == self.table().world_hit,
    {
        self.value.world_hit
    }

    /// Returns the stable pointer-button ordinal.
    pub fn button(&self) -> (r: u8)
        ensures
            r == self.table().button,
    {
        self.value.button
    }

    /// Returns the built-in pointer button.
    pub fn pointer_button(&self) -> (r: PointerButton)
        ensures
            self.table().button_kind == PointerButtonKindCode::Left ==> r == PointerButton::Left,
            self.table().button_kind == PointerButtonKindCode::Middle ==> r == PointerButton::Middle,
            self.table().button_kind == PointerButtonKindCode::Right ==> r == PointerButton::Right,
    {
        proof {
            use_type_invariant(self);
        }
        match self.value.button_kind {
            PointerButtonKindCode::Left => PointerButton::Left,
            PointerButtonKindCode::Middle => PointerButton::Middle,
            PointerButtonKindCode::Right => PointerButton::Right,
            PointerButtonKindCode::Other => vstd::pervasive::unreached(),
        }
    }
}

/// A checked drag payload.
pub struct DragActionView {
    value: DragActionTable,
}

impl DragActionView {
    /// The viewed table.
    pub closed spec fn table(&self) -> DragActionTable {
        self.value
    }

    #[verifier::type_invariant]
    closed spec fn checked(&self) -> bool {
        drag_failure(Some(self.value)) is None
    }

    /// Returns the nonzero target object UUID bytes.
    pub fn object_id(&self) -> (r: [u8; 16])
        ensures
            r == self.table().object_id,
            !is_nil(r@),
    {
        proof {
            use_type_invariant(self);
        }
        self.value.object_id
    }

    /// Returns the nonnegative stable pointer identity.
    pub fn pointer_id(&self) -> (r: i32)
        ensures
            r == self.table().pointer_id,
            r >= 0,
    {
        proof {
            use_type_invariant(self);
        }
        self.value.pointer_id
    }

    /// Returns the finite screen position.
    pub fn screen_position(&self) -> (r: [u64; 2])
        ensures
            r == self.table().screen_position,
    {
        self.value.screen_position
    }

    /// Returns the finite world position.
    pub fn world_position(&self) -> (r: [u64; 3])
        ensures
            r == self.table().world_position,
    {
        self.value.world_position
    }
}

/// A checked key payload.
pub struct KeyActionView {
    value: KeyActionTable,
}

impl KeyActionView {
    /// The viewed table.
    pub closed spec fn table(&self) -> KeyActionTable {
        self.value
    }

    #[verifier::type_invariant]
    closed spec fn checked(&self) -> bool {
        key_failure(Some(self.value)) is None
    }

    /// Returns the stable physical-key ordinal, one the schema names.
    pub fn key(&self) -> (r: u16)
        ensures
            r == self.table().key,
            r <= MAXIMUM_PHYSICAL_KEY,
    {
        proof {
            use_type_invariant(self);
        }
        self.value.key
    }
}

/// A checked controller-button payload.
pub struct ControllerButtonActionView {
    value: ControllerButtonActionTable,
}

impl ControllerButtonActionView {
    /// The viewed table.
    pub closed spec fn table(&self) -> ControllerButtonActionTable {
        self.value
    }

    #[verifier::type_invariant]
    closed spec fn checked(&self) -> bool {
        controller_button_failure(Some(self.value)) is None
    }

    /// Returns the nonnegative controller identity.
    pub fn controller_id(&self) -> (r: i32)
        ensures
            r == self.table().controller_id,
            r >= 0,
    {
        proof {
            use_type_invariant(self);
        }
        self.value.controller_id
    }

    /// Returns the stable controller-button ordinal, one the schema names.
    pub fn button(&self) -> (r: u8)
        ensures
            r == self.table().button,
            r <= MAXIMUM_CONTROLLER_BUTTON,
    {
        proof {
            use_type_invariant(self);
        }
        self.value.button
    }
}

/// A checked controller-navigation payload.
pub struct ControllerNavigateActionView {
    value: ControllerNavigateActionTable,
}

impl ControllerNavigateActionView {
    /// The viewed table.
    pub closed spec fn table(&self) -> ControllerNavigateActionTable {
        self.value
    }

    #[verifier::type_invariant]
    closed spec fn checked(&self) -> bool {
        navigate_failure(Some(self.value)) is None
    }

    /// Returns the nonnegative controller identity.
    pub fn controller_id(&self) -> (r: i32)
        ensures
            r == self.table().controller_id,
            r >= 0,
    {
        proof {
            use_type_invariant(self);
        }
        self.value.controller_id
    }

    /// Returns the stable direction ordinal, one the schema names.
    pub fn direction(&self) -> (r: u8)
        ensures
            r == self.table().direction,
            r <= MAXIMUM_CONTROLLER_DIRECTION,
    {
        proof {
            use_type_invariant(self);
        }
        self.value.direction
    }

    /// Returns the stable navigation-source ordinal, one the schema names.
    pub fn source(&self) -> (r: u8)
        ensures
            r == self.table().source,
            r <= MAXIMUM_NAVIGATION_SOURCE,
    {
        proof {
            use_type_invariant(self);
        }
        self.value.source
    }

    /// Returns whether this was a held-input repeat.
    pub fn is_repeat(&self) -> (r: bool)
        ensures
            r == self.table().repeat,
    {
        self.value.repeat
    }
}

/// A checked application-state payload.
pub struct ApplicationStateActionView {
    value: ApplicationStateActionTable,
}

impl ApplicationStateActionView {
    /// The viewed table.
    pub closed spec fn table(&self) -> ApplicationStateActionTable {
        self.value
    }

    /// Returns whether the application owns focus.
    pub fn focused(&self) -> (r: bool)
        ensures
            r == self.table().focused,
    {
        self.value.focused
    }

    /// Returns whether the application is paused.
    pub fn paused(&self) -> (r: bool)
        ensures
            r == self.table().paused,
    {
        self.value.paused
    }
}

/// A checked reduced-motion payload.
pub struct ReducedMotionPreferenceActionView {
    value: ReducedMotionPreferenceActionTable,
}

impl ReducedMotionPreferenceActionView {
    /// The viewed table.
    pub closed spec fn table(&self) -> ReducedMotionPreferenceActionTable {
        self.value
    }

    #[verifier::type_invariant]
    closed spec fn checked(&self) -> bool {
        self.value.value <= MAXIMUM_REDUCED_MOTION_PREFERENCE
    }

    /// Returns the stable preference ordinal, one the schema names.
    pub fn value(&self) -> (r: u8)
        ensures
            r == self.table().value,
            r <= MAXIMUM_REDUCED_MOTION_PREFERENCE,
    {
        proof {
            use_type_invariant(self);
        }
        self.value.value
    }
}

/// What an exclusive input capture captured.
#[derive(Clone, Copy, Debug, PartialEq, Eq, Structural)]
pub enum InputCaptureResult {
    /// A physical key on a keyboard device.
    Key {
        /// Capturing device.
        device_id: i32,
        /// Physical-key ordinal.
        key: u16,
    },
    /// A controller button.
    Button {
        /// Capturing controller.
        controller_id: i32,
        /// Controller-button ordinal.
        button: u8,
    },
    /// An initial D-pad direction.
    Direction {
        /// Capturing controller.
        controller_id: i32,
        /// Direction ordinal.
        direction: u8,
    },
    /// The capture ended without a result.
    Cancelled(CaptureCancellationCode),
}

/// A terminal exclusive input capture result.
#[derive(Clone, Copy, Debug, PartialEq, Eq)]
pub struct InputCaptureEvent {
    /// Capture UUID bytes.
    pub id: [u8; 16],
    /// What was captured.
    pub result: InputCaptureResult,
}

/// The event a checked capture table reads as.
pub open spec fn capture_event_of(e: InputCaptureActionTable, ev: InputCaptureEvent) -> bool {
    &&& ev.id == e.capture_id
    &&& match e.result {
        CaptureResultCode::Key => ev.result == InputCaptureResult::Key {
            device_id: e.device_id,
            key: e.key,
        },
        CaptureResultCode::Button => ev.result == InputCaptureResult::Button {
            controller_id: e.device_id,
            button: e.button,
        },
        CaptureResultCode::Direction => ev.result == InputCaptureResult::Direction {
            controller_id: e.device_id,
            direction: e.direction,
        },
        CaptureResultCode::Cancelled => ev.result == InputCaptureResult::Cancelled(e.cancellation),
        CaptureResultCode::Unknown => false,
    }
}

/// Reads one input-capture result.
pub fn read_event(e: &InputCaptureActionTable) -> (r: Result<InputCaptureEvent, ProtocolError>)
    ensures
        match r {
            Ok(ev) => capture_failure(*e) is None && capture_event_of(*e, ev),
            Err(err) => capture_failure(*e) == Some(err@),
        },
{
    if nil(&e.capture_id) {
        return Err(ProtocolError::new("capture identity must be nonzero"));
    }
    if e.device_id < 0 {
        return Err(ProtocolError::new("capture device identity must be nonnegative"));
    }
    let result = match e.result {
        CaptureResultCode::Key => {
            match &e.key_failure {
                Some(m) => {
                    return Err(ProtocolError::new(m.as_str()));
                },
                None => {},
            }
            InputCaptureResult::Key { device_id: e.device_id, key: e.key }
        },
        CaptureResultCode::Button => {
            if e.button > MAXIMUM_CONTROLLER_BUTTON {
                return Err(ProtocolError::new("unknown capture button"));
            }
            InputCaptureResult::Button { controller_id: e.device_id, button: e.button }
        },
        CaptureResultCode::Direction => {
            if e.source != DPAD_SOURCE || e.repeat {
                return Err(ProtocolError::new("capture directions must be initial D-pad presses"));
            }
            if e.direction > MAXIMUM_CONTROLLER_DIRECTION {
                return Err(ProtocolError::new("unknown capture direction"));
            }
            InputCaptureResult::Direction { controller_id: e.device_id, direction: e.direction }
        },
        CaptureResultCode::Cancelled => {
            match e.cancellation {
                CaptureCancellationCode::Unknown => {
                    return Err(ProtocolError::new("unknown capture cancellation"));
                },
                _ => {},
            }
            InputCaptureResult::Cancelled(e.cancellation)
        },
        CaptureResultCode::Unknown => {
            return Err(ProtocolError::new("unknown capture result"));
        },
    };
    Ok(InputCaptureEvent { id: e.capture_id, result })
}

// ---------------------------------------------------------------------------
// Actions

/// A checked core action payload.
pub enum CoreActionBodyView {
    /// Coordinate-free activation.
    Activate(ActivationActionView),
    /// Pointer entered an object.
    PointerEnter(PointerActionView),
    /// Pointer exited an object.
    PointerExit(PointerActionView),
    /// Pointer button went down.
    PointerDown(PointerButtonActionView),
    /// Pointer button went up.
    PointerUp(PointerButtonActionView),
    /// Pointer clicked an object.
    PointerClick(PointerButtonActionView),
    /// Drag started.
    DragStart(DragActionView),
    /// Drag ended.
    DragEnd(DragActionView),
    /// Physical key went down.
    KeyDown(KeyActionView),
    /// Physical key went up.
    KeyUp(KeyActionView),
    /// Controller button went down.
    ControllerButtonDown(ControllerButtonActionView),
    /// Controller button went up.
    ControllerButtonUp(ControllerButtonActionView),
    /// Controller navigation step.
    ControllerNavigate(ControllerNavigateActionView),
    /// Terminal exclusive physical input capture result.
    InputCaptured(InputCaptureEvent),
    /// One coherent generation of changed geometry observations.
    GeometryObservations(GeometryObservationBatchView),
    /// One normalized Motion event batch.
    MotionEvents(MotionEventBatchView),
    /// Application focus or suspension changed.
    ApplicationStateChanged(ApplicationStateActionView),
    /// Reduced-motion preference changed.
    ReducedMotionPreferenceChanged(ReducedMotionPreferenceActionView),
    /// Changed host capabilities and applied values.
    HostSettingsChanged(HostSettingsView),
}

/// The checked payload `v` stands for an action of kind `kind` with payload
/// `body`.
pub open spec fn body_view_of(v: CoreActionBodyView, kind: CoreActionKindCode, body: CoreActionBodyTable) -> bool {
    match v {
        CoreActionBodyView::Activate(x) => kind == CoreActionKindCode::Activate && body
            == CoreActionBodyTable::Activation(Some(x.table())),
        CoreActionBodyView::PointerEnter(x) => kind == CoreActionKindCode::PointerEnter && body
            == CoreActionBodyTable::Pointer(Some(x.table())),
        CoreActionBodyView::PointerExit(x) => kind == CoreActionKindCode::PointerExit && body
            == CoreActionBodyTable::Pointer(Some(x.table())),
        CoreActionBodyView::PointerDown(x) => kind == CoreActionKindCode::PointerDown && body
            == CoreActionBodyTable::PointerButton(Some(x.table())),
        CoreActionBodyView::PointerUp(x) => kind == CoreActionKindCode::PointerUp && body
            == CoreActionBodyTable::PointerButton(Some(x.table())),
        CoreActionBodyView::PointerClick(x) => kind == CoreActionKindCode::PointerClick && body
            == CoreActionBodyTable::PointerButton(Some(x.table())),
        CoreActionBodyView::DragStart(x) => kind == CoreActionKindCode::DragStart && body
            == CoreActionBodyTable::Drag(Some(x.table())),
        CoreActionBodyView::DragEnd(x) => kind == CoreActionKindCode::DragEnd && body
            == CoreActionBodyTable::Drag(Some(x.table())),
        CoreActionBodyView::KeyDown(x) => kind == CoreActionKindCode::KeyDown && body
            == CoreActionBodyTable::Key(Some(x.table())),
        CoreActionBodyView::KeyUp(x) => kind == CoreActionKindCode::KeyUp && body
            == CoreActionBodyTable::Key(Some(x.table())),
        CoreActionBodyView::ControllerButtonDown(x) => kind
            == CoreActionKindCode::ControllerButtonDown && body
            == CoreActionBodyTable::ControllerButton(Some(x.table())),
        CoreActionBodyView::ControllerButtonUp(x) => kind == CoreActionKindCode::ControllerButtonUp
            && body == CoreActionBodyTable::ControllerButton(Some(x.table())),
        CoreActionBodyView::ControllerNavigate(x) => kind == CoreActionKindCode::ControllerNavigate
            && body == CoreActionBodyTable::ControllerNavigate(Some(x.table())),
        CoreActionBodyView::InputCaptured(ev) => {
            &&& kind == CoreActionKindCode::InputCaptured
            &&& body is InputCapture
            &&& body->InputCapture_0 is Some
            &&& capture_event_of(body->InputCapture_0->Some_0, ev)
        },
        CoreActionBodyView::GeometryObservations(g) => kind
            == CoreActionKindCode::GeometryObservations && body == CoreActionBodyTable::Geometry(
            Some(g.table()),
        ),
        CoreActionBodyView::MotionEvents(m) => kind == CoreActionKindCode::MotionEvents && body
            == CoreActionBodyTable::Motion(Some(m.table())),
        CoreActionBodyView::ApplicationStateChanged(x) => kind
            == CoreActionKindCode::ApplicationStateChanged && body
            == CoreActionBodyTable::ApplicationState(Some(x.table())),
        CoreActionBodyView::ReducedMotionPreferenceChanged(x) => kind
            == CoreActionKindCode::ReducedMotionPreferenceChanged && body
            == CoreActionBodyTable::ReducedMotionPreference(Some(x.table())),
        CoreActionBodyView::HostSettingsChanged(h) => kind == CoreActionKindCode::HostSettingsChanged
            && body == CoreActionBodyTable::HostSettings(Some(h.table())),
    }
}

fn mismatch_error() -> (r: ProtocolError)
    ensures
        r@ == mismatch(),
{
    ProtocolError::new("core action kind and payload type do not match")
}

fn pointer_ok(pointer_id: i32, screen: &[u64; 2], world: &[u64; 3]) -> (r: bool)
    ensures
        r == pointer_valid(pointer_id, *screen, *world),
{
    pointer_id >= 0 && finite_f64(screen[0]) && finite_f64(screen[1]) && finite_f64(world[0])
        && finite_f64(world[1]) && finite_f64(world[2])
}

fn pointer(p: Option<PointerActionTable>) -> (r: Result<PointerActionView, ProtocolError>)
    ensures
        match r {
            Ok(v) => pointer_failure(p) is None && Some(v.table()) == p,
            Err(e) => pointer_failure(p) == Some(e@),
        },
{
    let value = match p {
        Some(value) => value,
        None => {
            return Err(ProtocolError::new("pointer payload is missing"));
        },
    };
    if !pointer_ok(value.pointer_id, &value.screen_position, &value.world_hit) {
        return Err(ProtocolError::new("invalid pointer identity or coordinates"));
    }
    if nil(&value.object_id) {
        return Err(ProtocolError::new("pointer object UUID must be nonzero"));
    }
    Ok(PointerActionView { value })
}

fn pointer_button(p: Option<PointerButtonActionTable>) -> (r: Result<
    PointerButtonActionView,
    ProtocolError,
>)
    ensures
        match r {
            Ok(v) => pointer_button_failure(p) is None && Some(v.table()) == p,
            Err(e) => pointer_button_failure(p) == Some(e@),
        },
{
    let value = match p {
        Some(value) => value,
        None => {
            return Err(ProtocolError::new("pointer-button payload is missing"));
        },
    };
    if !pointer_ok(value.pointer_id, &value.screen_position, &value.world_hit) {
        return Err(ProtocolError::new("invalid pointer identity or coordinates"));
    }
    if nil(&value.object_id) {
        return Err(ProtocolError::new("pointer-button object UUID must be nonzero"));
    }
    match value.button_kind {
        PointerButtonKindCode::Other => {
            return Err(ProtocolError::new("unknown core pointer button"));
        },
        _ => {},
    }
    if value.button_other != 0 {
        return Err(ProtocolError::new("core pointer button has a noncanonical custom index"));
    }
    Ok(PointerButtonActionView { value })
}

fn drag(p: Option<DragActionTable>) -> (r: Result<DragActionView, ProtocolError>)
    ensures
        match r {
            Ok(v) => drag_failure(p) is None && Some(v.table()) == p,
            Err(e) => drag_failure(p) == Some(e@),
        },
{
    let value = match p {
        Some(value) => value,
        None => {
            return Err(ProtocolError::new("drag payload is missing"));
        },
    };
    if !pointer_ok(value.pointer_id, &value.screen_position, &value.world_position) {
        return Err(ProtocolError::new("invalid pointer identity or coordinates"));
    }
    if nil(&value.object_id) {
        return Err(ProtocolError::new("drag object UUID must be nonzero"));
    }
    Ok(DragActionView { value })
}

fn key(p: Option<KeyActionTable>) -> (r: Result<KeyActionView, ProtocolError>)
    ensures
        match r {
            Ok(v) => key_failure(p) is None && Some(v.table()) == p,
            Err(e) => key_failure(p) == Some(e@),
        },
{
    let value = match p {
        Some(value) => value,
        None => {
            return Err(ProtocolError::new("key payload is missing"));
        },
    };
    if value.key > MAXIMUM_PHYSICAL_KEY {
        return Err(ProtocolError::new("unknown physical key"));
    }
    Ok(KeyActionView { value })
}

fn controller_button(p: Option<ControllerButtonActionTable>) -> (r: Result<
    ControllerButtonActionView,
    ProtocolError,
>)
    ensures
        match r {
            Ok(v) => controller_button_failure(p) is None && Some(v.table()) == p,
            Err(e) => controller_button_failure(p) == Some(e@),
        },
{
    let value = match p {
        Some(value) => value,
        None => {
            return Err(ProtocolError::new("controller-button payload is missing"));
        },
    };
    if value.controller_id < 0 || value.button > MAXIMUM_CONTROLLER_BUTTON {
        return Err(ProtocolError::new("invalid controller-button payload"));
    }
    Ok(ControllerButtonActionView { value })
}

fn controller_navigate(p: Option<ControllerNavigateActionTable>) -> (r: Result<
    ControllerNavigateActionView,
    ProtocolError,
>)
    ensures
        match r {
            Ok(v) => navigate_failure(p) is None && Some(v.table()) == p,
            Err(e) => navigate_failure(p) == Some(e@),
        },
{
    let value = match p {
        Some(value) => value,
        None => {
            return Err(ProtocolError::new("controller-navigation payload is missing"));
        },
    };
    if value.controller_id < 0 || value.direction > MAXIMUM_CONTROLLER_DIRECTION || value.source
        > MAXIMUM_NAVIGATION_SOURCE {
        return Err(ProtocolError::new("invalid controller-navigation payload"));
    }
    Ok(ControllerNavigateActionView { value })
}

/// Checks that an action's payload fits its kind and passes that payload's
/// rules, and keeps the checked payload.
pub fn action_body(kind: CoreActionKindCode, body: CoreActionBodyTable) -> (r: Result<
    CoreActionBodyView,
    ProtocolError,
>)
    ensures
        match r {
            Ok(v) => body_failure(kind, body) is None && body_view_of(v, kind, body),
            Err(e) => body_failure(kind, body) == Some(e@),
        },
{
    match kind {
        CoreActionKindCode::Activate => match body {
            CoreActionBodyTable::Activation(Some(value)) => Ok(
                CoreActionBodyView::Activate(ActivationActionView { value }),
            ),
            _ => Err(mismatch_error()),
        },
        CoreActionKindCode::PointerEnter => match body {
            CoreActionBodyTable::Pointer(p) => Ok(CoreActionBodyView::PointerEnter(pointer(p)?)),
            _ => Err(mismatch_error()),
        },
        CoreActionKindCode::PointerExit => match body {
            CoreActionBodyTable::Pointer(p) => Ok(CoreActionBodyView::PointerExit(pointer(p)?)),
            _ => Err(mismatch_error()),
        },
        CoreActionKindCode::PointerDown => match body {
            CoreActionBodyTable::PointerButton(p) => Ok(
                CoreActionBodyView::PointerDown(pointer_button(p)?),
            ),
            _ => Err(mismatch_error()),
        },
        CoreActionKindCode::PointerUp => match body {
            CoreActionBodyTable::PointerButton(p) => Ok(
                CoreActionBodyView::PointerUp(pointer_button(p)?),
            ),
            _ => Err(mismatch_error()),
        },
        CoreActionKindCode::PointerClick => match body {
            CoreActionBodyTable::PointerButton(p) => Ok(
                CoreActionBodyView::PointerClick(pointer_button(p)?),
            ),
            _ => Err(mismatch_error()),
        },
        CoreActionKindCode::DragStart => match body {
            CoreActionBodyTable::Drag(p) => Ok(CoreActionBodyView::DragStart(drag(p)?)),
            _ => Err(mismatch_error()),
        },
        CoreActionKindCode::DragEnd => match body {
            CoreActionBodyTable::Drag(p) => Ok(CoreActionBodyView::DragEnd(drag(p)?)),
            _ => Err(mismatch_error()),
        },
        CoreActionKindCode::KeyDown => match body {
            CoreActionBodyTable::Key(p) => Ok(CoreActionBodyView::KeyDown(key(p)?)),
            _ => Err(mismatch_error()),
        },
        CoreActionKindCode::KeyUp => match body {
            CoreActionBodyTable::Key(p) => Ok(CoreActionBodyView::KeyUp(key(p)?)),
            _ => Err(mismatch_error()),
        },
        CoreActionKindCode::ControllerButtonDown => match body {
            CoreActionBodyTable::ControllerButton(p) => Ok(
                CoreActionBodyView::ControllerButtonDown(controller_button(p)?),
            ),
            _ => Err(mismatch_error()),
        },
        CoreActionKindCode::ControllerButtonUp => match body {
            CoreActionBodyTable::ControllerButton(p) => Ok(
                CoreActionBodyView::ControllerButtonUp(controller_button(p)?),
            ),
            _ => Err(mismatch_error()),
        },
        CoreActionKindCode::InputCaptured => match body {
            CoreActionBodyTable::InputCapture(Some(e)) => Ok(
                CoreActionBodyView::InputCaptured(read_event(&e)?),
            ),
            _ => Err(mismatch_error()),
        },
        CoreActionKindCode::ControllerNavigate => match body {
            CoreActionBodyTable::ControllerNavigate(p) => Ok(
                CoreActionBodyView::ControllerNavigate(controller_navigate(p)?),
            ),
            _ => Err(mismatch_error()),
        },
        CoreActionKindCode::GeometryObservations => match body {
            CoreActionBodyTable::Geometry(Some(g)) => Ok(
                CoreActionBodyView::GeometryObservations(GeometryObservationBatchView::new(g)?),
            ),
            _ => Err(mismatch_error()),
        },
        CoreActionKindCode::MotionEvents => match body {
            CoreActionBodyTable::Motion(Some(m)) => Ok(
                CoreActionBodyView::MotionEvents(MotionEventBatchView::new(m)?),
            ),
            _ => Err(mismatch_error()),
        },
        CoreActionKindCode::HostSettingsChanged => match body {
            CoreActionBodyTable::HostSettings(Some(h)) => Ok(
                CoreActionBodyView::HostSettingsChanged(HostSettingsView::new(h)?),
            ),
            _ => Err(mismatch_error()),
        },
        CoreActionKindCode::ApplicationStateChanged => match body {
            CoreActionBodyTable::ApplicationState(Some(value)) => Ok(
                CoreActionBodyView::ApplicationStateChanged(ApplicationStateActionView { value }),
            ),
            _ => Err(mismatch_error()),
        },
        CoreActionKindCode::ReducedMotionPreferenceChanged => match body {
            CoreActionBodyTable::ReducedMotionPreference(Some(value)) => {
                if value.value > MAXIMUM_REDUCED_MOTION_PREFERENCE {
                    return Err(ProtocolError::new("unknown reduced-motion preference"));
                }
                Ok(
                    CoreActionBodyView::ReducedMotionPreferenceChanged(
                        ReducedMotionPreferenceActionView { value },
                    ),
                )
            },
            _ => Err(mismatch_error()),
        },
        CoreActionKindCode::Unknown => Err(mismatch_error()),
    }
}

/// A checked built-in action and its checked payload.
pub struct CoreActionView {
    action_id: [u8; 16],
    session_id: [u8; 16],
    body: CoreActionBodyView,
}

impl CoreActionView {
    /// The action UUID bytes.
    pub closed spec fn spec_action_id(&self) -> [u8; 16] {
        self.action_id
    }

    /// The session UUID bytes.
    pub closed spec fn spec_session_id(&self) -> [u8; 16] {
        self.session_id
    }

    /// The checked payload.
    pub closed spec fn spec_body(&self) -> CoreActionBodyView {
        self.body
    }

    #[verifier::type_invariant]
    closed spec fn checked(&self) -> bool {
        !is_nil(self.action_id@) && !is_nil(self.session_id@)
    }

    /// Returns the canonical, nonzero action UUID bytes.
    pub fn action_id(&self) -> (r: [u8; 16])
        ensures
            r == self.spec_action_id(),
            !is_nil(r@),
    {
        proof {
            use_type_invariant(self);
        }
        self.action_id
    }

    /// Returns the canonical, nonzero session UUID bytes.
    pub fn session_id(&self) -> (r: [u8; 16])
        ensures
            r == self.spec_session_id(),
            !is_nil(r@),
    {
        proof {
            use_type_invariant(self);
        }
        self.session_id
    }

    /// Returns the checked action payload.
    pub fn body(&self) -> (r: &CoreActionBodyView)
        ensures
            *r == self.spec_body(),
    {
        &self.body
    }
}

/// The checked action `v` stands for the decoded action `a`.
pub open spec fn action_view_of(v: CoreActionView, a: CoreActionTable) -> bool {
    &&& v.spec_action_id() == a.action_id
    &&& v.spec_session_id() == a.session_id
    &&& body_view_of(v.spec_body(), a.kind, a.body)
}

/// Checks one core action: nonzero UUIDs, then its payload.
pub fn validate_action(a: CoreActionTable) -> (r: Result<CoreActionView, ProtocolError>)
    ensures
        match r {
            Ok(v) => action_failure(a) is None && action_view_of(v, a),
            Err(e) => action_failure(a) == Some(e@),
        },
{
    if nil(&a.action_id) || nil(&a.session_id) {
        return Err(ProtocolError::new("core action UUIDs must be nonzero"));
    }
    let CoreActionTable { action_id, session_id, kind, body } = a;
    let body = action_body(kind, body)?;
    Ok(CoreActionView { action_id, session_id, body })
}

/// Successful completion of a scoped batch.
#[derive(Clone, Copy, Debug, PartialEq, Eq)]
pub struct BatchCompleted {
    /// Nonzero session UUID bytes.
    pub session_id: [u8; 16],
    /// Nonzero batch UUID bytes.
    pub batch_id: [u8; 16],
}

/// A checked batch-failure report.
pub struct BatchFailedView {
    value: BatchFailedTable,
}

impl BatchFailedView {
    /// The viewed table.
    pub closed spec fn table(&self) -> BatchFailedTable {
        self.value
    }

    #[verifier::type_invariant]
    closed spec fn checked(&self) -> bool {
        batch_failed_failure(self.value) is None
    }

    /// Returns the nonzero session UUID bytes.
    pub fn session_id(&self) -> (r: [u8; 16])
        ensures
            r == self.table().session_id,
            !is_nil(r@),
    {
        proof {
            use_type_invariant(self);
        }
        self.value.session_id
    }

    /// Returns the nonzero batch UUID bytes.
    pub fn batch_id(&self) -> (r: [u8; 16])
        ensures
            r == self.table().batch_id,
            !is_nil(r@),
    {
        proof {
            use_type_invariant(self);
        }
        self.value.batch_id
    }

    /// Returns the optional, nonzero command UUID bytes.
    pub fn command_id(&self) -> (r: Option<[u8; 16]>)
        ensures
            r == self.table().command_id,
            r is Some ==> !is_nil(r->Some_0@),
    {
        proof {
            use_type_invariant(self);
        }
        self.value.command_id
    }

    /// Returns the stable core error-code ordinal, one the schema names.
    pub fn error_code(&self) -> (r: u8)
        ensures
            r == self.table().error_code,
    {
        self.value.error_code
    }

    /// Returns the diagnostic text.
    pub fn message(&self) -> (r: &str)
        ensures
            r@ == self.table().message@,
    {
        self.value.message.as_str()
    }
}

/// A checked late operation-failure report.
pub struct OperationFailedView {
    value: OperationFailedTable,
}

impl OperationFailedView {
    /// The viewed table.
    pub closed spec fn table(&self) -> OperationFailedTable {
        self.value
    }

    #[verifier::type_invariant]
    closed spec fn checked(&self) -> bool {
        operation_failed_failure(self.value) is None
    }

    /// Returns the nonzero session UUID bytes.
    pub fn session_id(&self) -> (r: [u8; 16])
        ensures
            r == self.table().session_id,
            !is_nil(r@),
    {
        proof {
            use_type_invariant(self);
        }
        self.value.session_id
    }

    /// Returns the nonzero batch UUID bytes.
    pub fn batch_id(&self) -> (r: [u8; 16])
        ensures
            r == self.table().batch_id,
            !is_nil(r@),
    {
        proof {
            use_type_invariant(self);
        }
        self.value.batch_id
    }

    /// Returns the nonzero command UUID bytes.
    pub fn command_id(&self) -> (r: [u8; 16])
        ensures
            r == self.table().command_id,
            !is_nil(r@),
    {
        proof {
            use_type_invariant(self);
        }
        self.value.command_id
    }

    /// Returns the stable core error-code ordinal, one the schema names.
    pub fn error_code(&self) -> (r: u8)
        ensures
            r == self.table().error_code,
    {
        self.value.error_code
    }

    /// Returns the diagnostic text.
    pub fn message(&self) -> (r: &str)
        ensures
            r@ == self.table().message@,
    {
        self.value.message.as_str()
    }
}

// ---------------------------------------------------------------------------
// Reading

/// One structurally verified and semantically checked core client submission.
pub enum CoreClientMessageView {
    /// A discrete built-in input action.
    Action(CoreActionView),
    /// Successful completion of a scoped batch.
    BatchCompleted(BatchCompleted),
    /// A batch validation or execution failure.
    BatchFailed(BatchFailedView),
    /// A late failure from a nonblocking operation.
    OperationFailed(OperationFailedView),
}

/// The checked submission `v` stands for the decoded body `t`.
pub open spec fn message_view_of(v: CoreClientMessageView, t: CoreClientBodyTable) -> bool {
    match v {
        CoreClientMessageView::Action(a) => {
            &&& t is CoreAction
            &&& t->CoreAction_0 is Some
            &&& action_view_of(a, t->CoreAction_0->Some_0)
        },
        CoreClientMessageView::BatchCompleted(b) => t == CoreClientBodyTable::BatchCompleted(
            Some(BatchCompletedTable { session_id: b.session_id, batch_id: b.batch_id }),
        ),
        CoreClientMessageView::BatchFailed(f) => t == CoreClientBodyTable::BatchFailed(
            Some(f.table()),
        ),
        CoreClientMessageView::OperationFailed(f) => t == CoreClientBodyTable::OperationFailed(
            Some(f.table()),
        ),
    }
}

/// The text of a framing failure of a core client submission.
pub open spec fn framing_text(f: FramingFailure) -> Seq<char> {
    match f {
        FramingFailure::TooLarge => "core client message exceeds 16 MiB"@,
        FramingFailure::SizePrefixMismatch => "core client message size prefix does not match its finished range"@,
        FramingFailure::WrongIdentifier => "core client message has the wrong file identifier"@,
    }
}

/// The verdict of reading a core client submission from `bytes`, whose root
/// body the FlatBuffers verifier decoded as `decoded` (or refused with that
/// text).
pub open spec fn spec_read(
    bytes: Seq<u8>,
    ident: Seq<u8>,
    decoded: Result<CoreClientBodyTable, String>,
) -> Result<(), Seq<char>> {
    match spec_framing(bytes, ident) {
        Err(f) => Err(framing_text(f)),
        Ok(()) => match decoded {
            Err(detail) => Err("invalid core client FlatBuffer: "@ + detail@),
            Ok(t) => match client_failure(t) {
                Some(m) => Err(m),
                None => Ok(()),
            },
        },
    }
}

impl CoreClientMessageView {
    /// Verifies and validates one complete size-prefixed core submission: its
    /// framing under the file identifier `ident`, the FlatBuffers verifier's
    /// verdict `decoded` on its root body, and the submission rules.
    pub fn read(bytes: &[u8], ident: &str, decoded: Result<CoreClientBodyTable, String>) -> (r: Result<
        Self,
        ProtocolError,
    >)
        requires
            ident.spec_bytes().len() == 4,
        ensures
            match r {
                Ok(view) => spec_read(bytes@, ident.spec_bytes(), decoded) is Ok && decoded is Ok
                    && message_view_of(view, decoded->Ok_0),
                Err(e) => spec_read(bytes@, ident.spec_bytes(), decoded) == Err::<(), Seq<char>>(
                    e@,
                ),
            },
    {
        match check_framing(bytes, ident) {
            Err(FramingFailure::TooLarge) => {
                return Err(ProtocolError::new("core client message exceeds 16 MiB"));
            },
            Err(FramingFailure::SizePrefixMismatch) => {
                return Err(
                    ProtocolError::new(
                        "core client message size prefix does not match its finished range",
                    ),
                );
            },
            Err(FramingFailure::WrongIdentifier) => {
                return Err(ProtocolError::new("core client message has the wrong file identifier"));
            },
            Ok(()) => {},
        }
        let body = match decoded {
            Ok(body) => body,
            Err(detail) => {
                return Err(
                    ProtocolError::from_message(
                        "invalid core client FlatBuffer: ".to_owned().concat(detail.as_str()),
                    ),
                );
            },
        };
        match body {
            CoreClientBodyTable::CoreAction(Some(a)) => Ok(
                CoreClientMessageView::Action(validate_action(a)?),
            ),
            CoreClientBodyTable::CoreAction(None) => Err(
                ProtocolError::new("core action payload is missing"),
            ),
            CoreClientBodyTable::BatchCompleted(Some(b)) => {
                if nil(&b.session_id) {
                    return Err(ProtocolError::new("batch-completed session is zero"));
                }
                if nil(&b.batch_id) {
                    return Err(ProtocolError::new("batch-completed batch is zero"));
                }
                Ok(
                    CoreClientMessageView::BatchCompleted(
                        BatchCompleted { session_id: b.session_id, batch_id: b.batch_id },
                    ),
                )
            },
            CoreClientBodyTable::BatchCompleted(None) => Err(
                ProtocolError::new("batch-completed payload is missing"),
            ),
            CoreClientBodyTable::BatchFailed(Some(value)) => {
                let invalid_command = match &value.command_id {
                    Some(id) => nil(id),
                    None => false,
                };
                if nil(&value.session_id) || nil(&value.batch_id) || invalid_command
                    || !value.error_code_named {
                    return Err(ProtocolError::new("invalid batch-failure identity or error code"));
                }
                Ok(CoreClientMessageView::BatchFailed(BatchFailedView { value }))
            },
            CoreClientBodyTable::BatchFailed(None) => Err(
                ProtocolError::new("batch-failure payload is missing"),
            ),
            CoreClientBodyTable::OperationFailed(Some(value)) => {
                if nil(&value.session_id) || nil(&value.batch_id) || nil(&value.command_id)
                    || !value.error_code_named {
                    return Err(
                        ProtocolError::new("invalid operation-failure identity or error code"),
                    );
                }
                Ok(CoreClientMessageView::OperationFailed(OperationFailedView { value }))
            },
            CoreClientBodyTable::OperationFailed(None) => Err(
                ProtocolError::new("operation-failure payload is missing"),
            ),
            CoreClientBodyTable::Unknown => Err(
                ProtocolError::new("unknown core client message union tag"),
            ),
        }
    }
}

} // verus!
