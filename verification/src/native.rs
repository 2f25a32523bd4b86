//! Plain values that direct message construction writes into FlatBuffers.
use vstd::prelude::*;

verus! {

/// Start dependency for a directly constructed command batch.
#[derive(Clone, Copy, Debug, Default, PartialEq, Eq, Structural)]
pub enum NativeBatchStart {
    /// The batch may begin immediately.
    #[default]
    Now,
    /// Wait through all earlier blocking work.
    AfterEarlierBlockingWork,
    /// Wait through earlier asset preparation.
    AfterEarlierAssetPreparation,
}

/// Asset kind used by direct snapshot construction.
#[derive(Clone, Copy, Debug, PartialEq, Eq, Structural)]
pub enum NativePreparedAssetKind {
    /// Loadable scene.
    Scene,
    /// Prefab asset.
    Prefab,
    /// Particle-system prefab asset.
    ParticleEffect,
    /// Renderer or UI material.
    Material,
    /// Texture asset.
    Texture,
    /// Audio clip asset.
    AudioClip,
    /// TextMesh Pro font asset.
    TextMeshProFont,
}

/// Image scaling mode used by direct snapshot image objects.
#[derive(Clone, Copy, Debug, Default, PartialEq, Eq, Structural)]
pub enum NativeImageFit {
    /// Stretch to the authored dimensions.
    #[default]
    Stretch,
    /// Preserve aspect ratio inside the authored dimensions.
    Contain,
}

/// Scene ownership used by a directly constructed game object.
#[derive(Clone, Copy, Debug, PartialEq, Eq)]
pub enum NativeParentScene {
    /// The snapshot's primary scene.
    Primary,
    /// One explicitly identified scene.
    Scene([u8; 16]),
    /// Unity's persistent scene.
    Persistent,
}

/// Pointer subscription used by a directly constructed game object.
#[derive(Clone, Copy, Debug, PartialEq, Eq, Structural)]
pub enum NativePointerEvent {
    /// Pointer-enter events.
    Enter,
    /// Pointer-exit events.
    Exit,
    /// Pointer-down events.
    Down,
    /// Pointer-up events.
    Up,
    /// Pointer-click events.
    Click,
}

/// A schema-stable physical-key ordinal used by direct snapshot input setup.
#[derive(Clone, Copy, Debug, PartialEq, Eq, Structural)]
pub struct NativePhysicalKey(pub u16);

/// Named physical-key ordinals; `NativePhysicalKey(NativePhysicalKey::SPACE)`
/// is the space bar.
impl NativePhysicalKey {
    pub const ESCAPE: u16 = 0;
    pub const MINUS: u16 = 24;
    pub const EQUAL: u16 = 25;
    pub const KEY_L: u16 = 39;
    pub const KEY_R: u16 = 45;
    pub const ENTER: u16 = 60;
    pub const SHIFT_LEFT: u16 = 61;
    pub const SHIFT_RIGHT: u16 = 62;
    pub const CONTROL_LEFT: u16 = 63;
    pub const CONTROL_RIGHT: u16 = 64;
    pub const META_LEFT: u16 = 67;
    pub const META_RIGHT: u16 = 68;
    pub const SPACE: u16 = 72;
    pub const ARROW_LEFT: u16 = 80;
    pub const ARROW_RIGHT: u16 = 81;
    pub const ARROW_UP: u16 = 82;
    pub const ARROW_DOWN: u16 = 83;
    pub const NUMPAD_ENTER: u16 = 103;
}

/// A schema-stable controller-button ordinal used by direct snapshots.
#[derive(Clone, Copy, Debug, PartialEq, Eq, Structural)]
pub struct NativeControllerButton(pub u8);

/// Named controller-button ordinals; `NativeControllerButton(NativeControllerButton::SOUTH)`
/// is the south face button.
impl NativeControllerButton {
    pub const SOUTH: u8 = 0;
    pub const EAST: u8 = 1;
    pub const LEFT_SHOULDER: u8 = 4;
    pub const RIGHT_SHOULDER: u8 = 5;
    pub const START: u8 = 8;
}

/// Drag behavior used by a directly constructed game object.
#[derive(Clone, Copy, Debug, Default, PartialEq, Eq, Structural)]
pub enum NativeDragMode {
    /// Dragging is disabled.
    #[default]
    Disabled,
    /// Snap the object origin to the pointer.
    SnapToPointer,
    /// Preserve the initial pointer offset.
    PreserveOffset,
}

/// Easing supported by direct finite position tweens.
#[derive(Clone, Copy, Debug, PartialEq, Eq, Structural)]
pub enum NativeEasing {
    /// Symmetric sinusoidal ease-in/ease-out.
    InOutSine,
}

/// The binary64 pattern of `1.0`.
pub const ONE_BITS: u64 = 0x3ff0_0000_0000_0000;

/// Dense transform values written directly into a snapshot, each a binary64
/// bit pattern.
#[derive(Clone, Copy, Debug, PartialEq, Eq)]
pub struct NativeTransform {
    /// Local XYZ position.
    pub position: [u64; 3],
    /// Local XYZW rotation.
    pub rotation: [u64; 4],
    /// Local XYZ scale.
    pub scale: [u64; 3],
}

impl Default for NativeTransform {
    /// The identity transform: zero position, identity rotation, unit scale.
    fn default() -> (r: Self)
        ensures
            r.position@ == seq![0u64, 0u64, 0u64],
            r.rotation@ == seq![0u64, 0u64, 0u64, ONE_BITS],
            r.scale@ == seq![ONE_BITS, ONE_BITS, ONE_BITS],
    {
        let r = NativeTransform {
            position: [0, 0, 0],
            rotation: [0, 0, 0, ONE_BITS],
            scale: [ONE_BITS, ONE_BITS, ONE_BITS],
        };
        assert(r.position@ =~= seq![0u64, 0u64, 0u64]);
        assert(r.rotation@ =~= seq![0u64, 0u64, 0u64, ONE_BITS]);
        assert(r.scale@ =~= seq![ONE_BITS, ONE_BITS, ONE_BITS]);
        r
    }
}

/// Shared placement fields for direct snapshot objects.
#[derive(Clone, Copy, Debug)]
pub struct NativeObjectPlacement<'a> {
    /// Scene containing the object.
    pub parent_scene: NativeParentScene,
    /// Optional parent game-object UUID.
    pub parent_id: Option<[u8; 16]>,
    /// Initial active state.
    pub active: bool,
    /// Initial local transform.
    pub transform: NativeTransform,
    /// Subscribed pointer events.
    pub pointer_events: &'a [NativePointerEvent],
    /// Initial dragging policy.
    pub drag_mode: NativeDragMode,
}

impl<'a> Default for NativeObjectPlacement<'a> {
    /// An active, unparented object of the primary scene with the identity
    /// transform, no pointer events and dragging disabled.
    fn default() -> (r: Self)
        ensures
            r.parent_scene == NativeParentScene::Primary,
            r.parent_id is None,
            r.active,
            r.transform.position@ == seq![0u64, 0u64, 0u64],
            r.transform.rotation@ == seq![0u64, 0u64, 0u64, ONE_BITS],
            r.transform.scale@ == seq![ONE_BITS, ONE_BITS, ONE_BITS],
            r.pointer_events@.len() == 0,
            r.drag_mode == NativeDragMode::Disabled,
    {
        NativeObjectPlacement {
            parent_scene: NativeParentScene::Primary,
            parent_id: None,
            active: true,
            transform: NativeTransform::default(),
            pointer_events: &[],
            drag_mode: NativeDragMode::Disabled,
        }
    }
}

} // verus!
