//! The core commands a response batch may carry, and the payload table each
//! command kind must arrive with.
use vstd::prelude::*;

verus! {

/// A core command kind admitted by this schema revision.
#[derive(Clone, Copy, Debug, PartialEq, Eq, Structural)]
pub enum CoreCommandKind {
    /// The `ApplicationOpenUrl` command.
    ApplicationOpenUrl,
    /// The `Diagnostics` command.
    Diagnostics,
    /// The `AssetsReplaceSet` command.
    AssetsReplaceSet,
    /// The `SceneLoad` command.
    SceneLoad,
    /// The `SceneUnload` command.
    SceneUnload,
    /// The `SceneSetPrimary` command.
    SceneSetPrimary,
    /// The `ObjectCreate` command.
    ObjectCreate,
    /// The `ObjectDestroy` command.
    ObjectDestroy,
    /// The `InputSetCamera` command.
    InputSetCamera,
    /// The `ObjectSetActive` command.
    ObjectSetActive,
    /// The `ObjectReparent` command.
    ObjectReparent,
    /// The `TransformSetLocalPosition` command.
    TransformSetLocalPosition,
    /// The `TransformSetWorldPosition` command.
    TransformSetWorldPosition,
    /// The `TransformTweenLocalPosition` command.
    TransformTweenLocalPosition,
    /// The `TransformTweenWorldPosition` command.
    TransformTweenWorldPosition,
    /// The `TransformSetLocalRotation` command.
    TransformSetLocalRotation,
    /// The `TransformSetWorldRotation` command.
    TransformSetWorldRotation,
    /// The `TransformTweenLocalRotation` command.
    TransformTweenLocalRotation,
    /// The `TransformTweenWorldRotation` command.
    TransformTweenWorldRotation,
    /// The `TransformSetLocalScale` command.
    TransformSetLocalScale,
    /// The `TransformTweenLocalScale` command.
    TransformTweenLocalScale,
    /// The `RendererSetMaterial` command.
    RendererSetMaterial,
    /// The `CameraSetEnabled` command.
    CameraSetEnabled,
    /// The `LightSetEnabled` command.
    LightSetEnabled,
    /// The `ImageSetFaceCamera` command.
    ImageSetFaceCamera,
    /// The `TextSetRichText` command.
    TextSetRichText,
    /// The `TextSetFaceCamera` command.
    TextSetFaceCamera,
    /// The `CameraSetPerspective` command.
    CameraSetPerspective,
    /// The `CameraTweenFieldOfView` command.
    CameraTweenFieldOfView,
    /// The `CameraSetOrthographic` command.
    CameraSetOrthographic,
    /// The `CameraTweenOrthographicSize` command.
    CameraTweenOrthographicSize,
    /// The `CameraSetClipping` command.
    CameraSetClipping,
    /// The `CameraSetClear` command.
    CameraSetClear,
    /// The `LightSetType` command.
    LightSetType,
    /// The `LightSetColor` command.
    LightSetColor,
    /// The `TextSetColor` command.
    TextSetColor,
    /// The `LightTweenColor` command.
    LightTweenColor,
    /// The `TextTweenColor` command.
    TextTweenColor,
    /// The `LightSetIntensity` command.
    LightSetIntensity,
    /// The `LightTweenIntensity` command.
    LightTweenIntensity,
    /// The `LightSetRange` command.
    LightSetRange,
    /// The `LightSetSpotAngle` command.
    LightSetSpotAngle,
    /// The `LightSetShadows` command.
    LightSetShadows,
    /// The `ImageSetTexture` command.
    ImageSetTexture,
    /// The `TextSetFont` command.
    TextSetFont,
    /// The `ImageSetSize` command.
    ImageSetSize,
    /// The `ImageSetFit` command.
    ImageSetFit,
    /// The `ImageSetTint` command.
    ImageSetTint,
    /// The `ImageTweenTint` command.
    ImageTweenTint,
    /// The `ImageSetOpacity` command.
    ImageSetOpacity,
    /// The `ImageTweenOpacity` command.
    ImageTweenOpacity,
    /// The `TextSetContent` command.
    TextSetContent,
    /// The `TextSetSize` command.
    TextSetSize,
    /// The `TextTweenSize` command.
    TextTweenSize,
    /// The `TextSetAlignment` command.
    TextSetAlignment,
    /// The `TextSetWrapping` command.
    TextSetWrapping,
    /// The `AnimatorPlay` command.
    AnimatorPlay,
    /// The `AnimatorCrossFade` command.
    AnimatorCrossFade,
    /// The `AnimatorSetBool` command.
    AnimatorSetBool,
    /// The `AnimatorSetInt` command.
    AnimatorSetInt,
    /// The `AnimatorSetFloat` command.
    AnimatorSetFloat,
    /// The `AnimatorSetTrigger` command.
    AnimatorSetTrigger,
    /// The `AnimatorSetSpeed` command.
    AnimatorSetSpeed,
    /// The `ParticlePlay` command.
    ParticlePlay,
    /// The `ParticleStop` command.
    ParticleStop,
    /// The `ParticleSpawn` command.
    ParticleSpawn,
    /// The `AudioPlay` command.
    AudioPlay,
    /// The `AudioStop` command.
    AudioStop,
    /// The `AudioPause` command.
    AudioPause,
    /// The `AudioResume` command.
    AudioResume,
    /// The `AudioSeek` command.
    AudioSeek,
    /// The `AudioSetBuffering` command.
    AudioSetBuffering,
    /// The `AudioReplace` command.
    AudioReplace,
    /// The `AudioSetVolume` command.
    AudioSetVolume,
    /// The `AudioTweenVolume` command.
    AudioTweenVolume,
    /// The `TimeWait` command.
    TimeWait,
    /// The `OperationCancel` command.
    OperationCancel,
    /// The `InputSetEnabled` command.
    InputSetEnabled,
    /// The `InputSetPointerEvents` command.
    InputSetPointerEvents,
    /// The `InputSetGlobalKeys` command.
    InputSetGlobalKeys,
    /// The `InputSetController` command.
    InputSetController,
    /// The `ControllerVibrate` command.
    ControllerVibrate,
    /// The `DebugUi` command.
    DebugUi,
    /// The `VisualElementCreate` command.
    VisualElementCreate,
    /// The `VisualElementUpdate` command.
    VisualElementUpdate,
    /// The `VisualElementDestroy` command.
    VisualElementDestroy,
    /// The `VisualElementPerformAction` command.
    VisualElementPerformAction,
    /// The `MotionValue` command.
    MotionValue,
    /// The `MotionValuePlayback` command.
    MotionValuePlayback,
    /// The `MotionPlayback` command.
    MotionPlayback,
    /// The `MotionControlledClock` command.
    MotionControlledClock,
    /// The `MotionControl` command.
    MotionControl,
    /// The `MotionScope` command.
    MotionScope,
    /// The `MotionDragControl` command.
    MotionDragControl,
    /// The `GeometryObservationUpdate` command.
    GeometryObservationUpdate,
    /// The `AccessibilityUpdate` command.
    AccessibilityUpdate,
}

/// The payload table carried in a core command's union.
#[derive(Clone, Copy, Debug, PartialEq, Eq, Structural)]
pub enum CoreCommandPayload {
    /// The `ExternalUrlPayload` table.
    ExternalUrlPayload,
    /// The `DiagnosticsPayload` table.
    DiagnosticsPayload,
    /// The `ReplaceAssetSetPayload` table.
    ReplaceAssetSetPayload,
    /// The `SceneLoadPayload` table.
    SceneLoadPayload,
    /// The `SceneIdPayload` table.
    SceneIdPayload,
    /// The `ObjectCreatePayload` table.
    ObjectCreatePayload,
    /// The `ObjectIdPayload` table.
    ObjectIdPayload,
    /// The `ObjectSetActivePayload` table.
    ObjectSetActivePayload,
    /// The `ObjectReparentPayload` table.
    ObjectReparentPayload,
    /// The `PositionPayload` table.
    PositionPayload,
    /// The `TweenPositionPayload` table.
    TweenPositionPayload,
    /// The `RotationPayload` table.
    RotationPayload,
    /// The `TweenRotationPayload` table.
    TweenRotationPayload,
    /// The `ScalePayload` table.
    ScalePayload,
    /// The `TweenScalePayload` table.
    TweenScalePayload,
    /// The `SetMaterialPayload` table.
    SetMaterialPayload,
    /// The `ObjectEnabledPayload` table.
    ObjectEnabledPayload,
    /// The `PerspectivePayload` table.
    PerspectivePayload,
    /// The `TweenFieldOfViewPayload` table.
    TweenFieldOfViewPayload,
    /// The `OrthographicPayload` table.
    OrthographicPayload,
    /// The `TweenOrthographicSizePayload` table.
    TweenOrthographicSizePayload,
    /// The `CameraClippingPayload` table.
    CameraClippingPayload,
    /// The `CameraClearPayload` table.
    CameraClearPayload,
    /// The `LightTypePayload` table.
    LightTypePayload,
    /// The `ColorPayload` table.
    ColorPayload,
    /// The `TweenColorPayload` table.
    TweenColorPayload,
    /// The `IntensityPayload` table.
    IntensityPayload,
    /// The `TweenIntensityPayload` table.
    TweenIntensityPayload,
    /// The `LightRangePayload` table.
    LightRangePayload,
    /// The `SpotAnglePayload` table.
    SpotAnglePayload,
    /// The `LightShadowsPayload` table.
    LightShadowsPayload,
    /// The `SetTexturePayload` table.
    SetTexturePayload,
    /// The `SetFontPayload` table.
    SetFontPayload,
    /// The `ImageSizePayload` table.
    ImageSizePayload,
    /// The `ImageFitPayload` table.
    ImageFitPayload,
    /// The `TintPayload` table.
    TintPayload,
    /// The `TweenTintPayload` table.
    TweenTintPayload,
    /// The `OpacityPayload` table.
    OpacityPayload,
    /// The `TweenOpacityPayload` table.
    TweenOpacityPayload,
    /// The `TextContentPayload` table.
    TextContentPayload,
    /// The `TextSizePayload` table.
    TextSizePayload,
    /// The `TweenTextSizePayload` table.
    TweenTextSizePayload,
    /// The `TextAlignmentPayload` table.
    TextAlignmentPayload,
    /// The `TextWrappingPayload` table.
    TextWrappingPayload,
    /// The `AnimatorPlayPayload` table.
    AnimatorPlayPayload,
    /// The `AnimatorCrossFadePayload` table.
    AnimatorCrossFadePayload,
    /// The `AnimatorBoolPayload` table.
    AnimatorBoolPayload,
    /// The `AnimatorIntPayload` table.
    AnimatorIntPayload,
    /// The `AnimatorFloatPayload` table.
    AnimatorFloatPayload,
    /// The `AnimatorParameterPayload` table.
    AnimatorParameterPayload,
    /// The `AnimatorSpeedPayload` table.
    AnimatorSpeedPayload,
    /// The `ParticlePlayPayload` table.
    ParticlePlayPayload,
    /// The `ParticleStopPayload` table.
    ParticleStopPayload,
    /// The `ParticleSpawnPayload` table.
    ParticleSpawnPayload,
    /// The `AudioPlayPayload` table.
    AudioPlayPayload,
    /// The `AudioStopPayload` table.
    AudioStopPayload,
    /// The `AudioPlaybackPayload` table.
    AudioPlaybackPayload,
    /// The `AudioSeekPayload` table.
    AudioSeekPayload,
    /// The `AudioBufferingPayload` table.
    AudioBufferingPayload,
    /// The `AudioReplacePayload` table.
    AudioReplacePayload,
    /// The `AudioVolumePayload` table.
    AudioVolumePayload,
    /// The `TweenAudioVolumePayload` table.
    TweenAudioVolumePayload,
    /// The `WaitPayload` table.
    WaitPayload,
    /// The `CancelOperationPayload` table.
    CancelOperationPayload,
    /// The `SetInputEnabledPayload` table.
    SetInputEnabledPayload,
    /// The `PointerEventsPayload` table.
    PointerEventsPayload,
    /// The `GlobalKeysPayload` table.
    GlobalKeysPayload,
    /// The `ControllerInputSettings` table.
    ControllerInputSettings,
    /// The `ControllerVibrationPayload` table.
    ControllerVibrationPayload,
    /// The `DebugUiPayload` table.
    DebugUiPayload,
    /// The `VisualElementCreatePayload` table.
    VisualElementCreatePayload,
    /// The `VisualElementUpdatePayload` table.
    VisualElementUpdatePayload,
    /// The `VisualElementDestroyPayload` table.
    VisualElementDestroyPayload,
    /// The `VisualElementActionPayload` table.
    VisualElementActionPayload,
    /// The `MotionValueOperation` table.
    MotionValueOperation,
    /// The `MotionValuePlaybackOperation` table.
    MotionValuePlaybackOperation,
    /// The `MotionPlaybackOperation` table.
    MotionPlaybackOperation,
    /// The `MotionControlledClockOperation` table.
    MotionControlledClockOperation,
    /// The `MotionControlOperation` table.
    MotionControlOperation,
    /// The `MotionScopeOperation` table.
    MotionScopeOperation,
    /// The `MotionDragControlOperation` table.
    MotionDragControlOperation,
    /// The `GeometryObservationUpdate` table.
    GeometryObservationUpdate,
    /// The `AccessibilityUpdate` table.
    AccessibilityUpdate,
}

/// The payload table that a command of kind `k` must carry.
pub open spec fn payload_for(k: CoreCommandKind) -> CoreCommandPayload {
    match k {
        CoreCommandKind::ApplicationOpenUrl => CoreCommandPayload::ExternalUrlPayload,
        CoreCommandKind::Diagnostics => CoreCommandPayload::DiagnosticsPayload,
        CoreCommandKind::AssetsReplaceSet => CoreCommandPayload::ReplaceAssetSetPayload,
        CoreCommandKind::SceneLoad => CoreCommandPayload::SceneLoadPayload,
        CoreCommandKind::SceneUnload => CoreCommandPayload::SceneIdPayload,
        CoreCommandKind::SceneSetPrimary => CoreCommandPayload::SceneIdPayload,
        CoreCommandKind::ObjectCreate => CoreCommandPayload::ObjectCreatePayload,
        CoreCommandKind::ObjectDestroy => CoreCommandPayload::ObjectIdPayload,
        CoreCommandKind::InputSetCamera => CoreCommandPayload::ObjectIdPayload,
        CoreCommandKind::ObjectSetActive => CoreCommandPayload::ObjectSetActivePayload,
        CoreCommandKind::ObjectReparent => CoreCommandPayload::ObjectReparentPayload,
        CoreCommandKind::TransformSetLocalPosition => CoreCommandPayload::PositionPayload,
        CoreCommandKind::TransformSetWorldPosition => CoreCommandPayload::PositionPayload,
        CoreCommandKind::TransformTweenLocalPosition => CoreCommandPayload::TweenPositionPayload,
        CoreCommandKind::TransformTweenWorldPosition => CoreCommandPayload::TweenPositionPayload,
        CoreCommandKind::TransformSetLocalRotation => CoreCommandPayload::RotationPayload,
        CoreCommandKind::TransformSetWorldRotation => CoreCommandPayload::RotationPayload,
        CoreCommandKind::TransformTweenLocalRotation => CoreCommandPayload::TweenRotationPayload,
        CoreCommandKind::TransformTweenWorldRotation => CoreCommandPayload::TweenRotationPayload,
        CoreCommandKind::TransformSetLocalScale => CoreCommandPayload::ScalePayload,
        CoreCommandKind::TransformTweenLocalScale => CoreCommandPayload::TweenScalePayload,
        CoreCommandKind::RendererSetMaterial => CoreCommandPayload::SetMaterialPayload,
        CoreCommandKind::CameraSetEnabled => CoreCommandPayload::ObjectEnabledPayload,
        CoreCommandKind::LightSetEnabled => CoreCommandPayload::ObjectEnabledPayload,
        CoreCommandKind::ImageSetFaceCamera => CoreCommandPayload::ObjectEnabledPayload,
        CoreCommandKind::TextSetRichText => CoreCommandPayload::ObjectEnabledPayload,
        CoreCommandKind::TextSetFaceCamera => CoreCommandPayload::ObjectEnabledPayload,
        CoreCommandKind::CameraSetPerspective => CoreCommandPayload::PerspectivePayload,
        CoreCommandKind::CameraTweenFieldOfView => CoreCommandPayload::TweenFieldOfViewPayload,
        CoreCommandKind::CameraSetOrthographic => CoreCommandPayload::OrthographicPayload,
        CoreCommandKind::CameraTweenOrthographicSize => CoreCommandPayload::TweenOrthographicSizePayload,
        CoreCommandKind::CameraSetClipping => CoreCommandPayload::CameraClippingPayload,
        CoreCommandKind::CameraSetClear => CoreCommandPayload::CameraClearPayload,
        CoreCommandKind::LightSetType => CoreCommandPayload::LightTypePayload,
        CoreCommandKind::LightSetColor => CoreCommandPayload::ColorPayload,
        CoreCommandKind::TextSetColor => CoreCommandPayload::ColorPayload,
        CoreCommandKind::LightTweenColor => CoreCommandPayload::TweenColorPayload,
        CoreCommandKind::TextTweenColor => CoreCommandPayload::TweenColorPayload,
        CoreCommandKind::LightSetIntensity => CoreCommandPayload::IntensityPayload,
        CoreCommandKind::LightTweenIntensity => CoreCommandPayload::TweenIntensityPayload,
        CoreCommandKind::LightSetRange => CoreCommandPayload::LightRangePayload,
        CoreCommandKind::LightSetSpotAngle => CoreCommandPayload::SpotAnglePayload,
        CoreCommandKind::LightSetShadows => CoreCommandPayload::LightShadowsPayload,
        CoreCommandKind::ImageSetTexture => CoreCommandPayload::SetTexturePayload,
        CoreCommandKind::TextSetFont => CoreCommandPayload::SetFontPayload,
        CoreCommandKind::ImageSetSize => CoreCommandPayload::ImageSizePayload,
        CoreCommandKind::ImageSetFit => CoreCommandPayload::ImageFitPayload,
        CoreCommandKind::ImageSetTint => CoreCommandPayload::TintPayload,
        CoreCommandKind::ImageTweenTint => CoreCommandPayload::TweenTintPayload,
        CoreCommandKind::ImageSetOpacity => CoreCommandPayload::OpacityPayload,
        CoreCommandKind::ImageTweenOpacity => CoreCommandPayload::TweenOpacityPayload,
        CoreCommandKind::TextSetContent => CoreCommandPayload::TextContentPayload,
        CoreCommandKind::TextSetSize => CoreCommandPayload::TextSizePayload,
        CoreCommandKind::TextTweenSize => CoreCommandPayload::TweenTextSizePayload,
        CoreCommandKind::TextSetAlignment => CoreCommandPayload::TextAlignmentPayload,
        CoreCommandKind::TextSetWrapping => CoreCommandPayload::TextWrappingPayload,
        CoreCommandKind::AnimatorPlay => CoreCommandPayload::AnimatorPlayPayload,
        CoreCommandKind::AnimatorCrossFade => CoreCommandPayload::AnimatorCrossFadePayload,
        CoreCommandKind::AnimatorSetBool => CoreCommandPayload::AnimatorBoolPayload,
        CoreCommandKind::AnimatorSetInt => CoreCommandPayload::AnimatorIntPayload,
        CoreCommandKind::AnimatorSetFloat => CoreCommandPayload::AnimatorFloatPayload,
        CoreCommandKind::AnimatorSetTrigger => CoreCommandPayload::AnimatorParameterPayload,
        CoreCommandKind::AnimatorSetSpeed => CoreCommandPayload::AnimatorSpeedPayload,
        CoreCommandKind::ParticlePlay => CoreCommandPayload::ParticlePlayPayload,
        CoreCommandKind::ParticleStop => CoreCommandPayload::ParticleStopPayload,
        CoreCommandKind::ParticleSpawn => CoreCommandPayload::ParticleSpawnPayload,
        CoreCommandKind::AudioPlay => CoreCommandPayload::AudioPlayPayload,
        CoreCommandKind::AudioStop => CoreCommandPayload::AudioStopPayload,
        CoreCommandKind::AudioPause => CoreCommandPayload::AudioPlaybackPayload,
        CoreCommandKind::AudioResume => CoreCommandPayload::AudioPlaybackPayload,
        CoreCommandKind::AudioSeek => CoreCommandPayload::AudioSeekPayload,
        CoreCommandKind::AudioSetBuffering => CoreCommandPayload::AudioBufferingPayload,
        CoreCommandKind::AudioReplace => CoreCommandPayload::AudioReplacePayload,
        CoreCommandKind::AudioSetVolume => CoreCommandPayload::AudioVolumePayload,
        CoreCommandKind::AudioTweenVolume => CoreCommandPayload::TweenAudioVolumePayload,
        CoreCommandKind::TimeWait => CoreCommandPayload::WaitPayload,
        CoreCommandKind::OperationCancel => CoreCommandPayload::CancelOperationPayload,
        CoreCommandKind::InputSetEnabled => CoreCommandPayload::SetInputEnabledPayload,
        CoreCommandKind::InputSetPointerEvents => CoreCommandPayload::PointerEventsPayload,
        CoreCommandKind::InputSetGlobalKeys => CoreCommandPayload::GlobalKeysPayload,
        CoreCommandKind::InputSetController => CoreCommandPayload::ControllerInputSettings,
        CoreCommandKind::ControllerVibrate => CoreCommandPayload::ControllerVibrationPayload,
        CoreCommandKind::DebugUi => CoreCommandPayload::DebugUiPayload,
        CoreCommandKind::VisualElementCreate => CoreCommandPayload::VisualElementCreatePayload,
        CoreCommandKind::VisualElementUpdate => CoreCommandPayload::VisualElementUpdatePayload,
        CoreCommandKind::VisualElementDestroy => CoreCommandPayload::VisualElementDestroyPayload,
        CoreCommandKind::VisualElementPerformAction => CoreCommandPayload::VisualElementActionPayload,
        CoreCommandKind::MotionValue => CoreCommandPayload::MotionValueOperation,
        CoreCommandKind::MotionValuePlayback => CoreCommandPayload::MotionValuePlaybackOperation,
        CoreCommandKind::MotionPlayback => CoreCommandPayload::MotionPlaybackOperation,
        CoreCommandKind::MotionControlledClock => CoreCommandPayload::MotionControlledClockOperation,
        CoreCommandKind::MotionControl => CoreCommandPayload::MotionControlOperation,
        CoreCommandKind::MotionScope => CoreCommandPayload::MotionScopeOperation,
        CoreCommandKind::MotionDragControl => CoreCommandPayload::MotionDragControlOperation,
        CoreCommandKind::GeometryObservationUpdate => CoreCommandPayload::GeometryObservationUpdate,
        CoreCommandKind::AccessibilityUpdate => CoreCommandPayload::AccessibilityUpdate,
    }
}

/// Returns the payload table that a command of kind `k` must carry.
pub fn expected_payload(k: CoreCommandKind) -> (r: CoreCommandPayload)
    ensures
        r == payload_for(k),
{
    match k {
        CoreCommandKind::ApplicationOpenUrl => CoreCommandPayload::ExternalUrlPayload,
        CoreCommandKind::Diagnostics => CoreCommandPayload::DiagnosticsPayload,
        CoreCommandKind::AssetsReplaceSet => CoreCommandPayload::ReplaceAssetSetPayload,
        CoreCommandKind::SceneLoad => CoreCommandPayload::SceneLoadPayload,
        CoreCommandKind::SceneUnload => CoreCommandPayload::SceneIdPayload,
        CoreCommandKind::SceneSetPrimary => CoreCommandPayload::SceneIdPayload,
        CoreCommandKind::ObjectCreate => CoreCommandPayload::ObjectCreatePayload,
        CoreCommandKind::ObjectDestroy => CoreCommandPayload::ObjectIdPayload,
        CoreCommandKind::InputSetCamera => CoreCommandPayload::ObjectIdPayload,
        CoreCommandKind::ObjectSetActive => CoreCommandPayload::ObjectSetActivePayload,
        CoreCommandKind::ObjectReparent => CoreCommandPayload::ObjectReparentPayload,
        CoreCommandKind::TransformSetLocalPosition => CoreCommandPayload::PositionPayload,
        CoreCommandKind::TransformSetWorldPosition => CoreCommandPayload::PositionPayload,
        CoreCommandKind::TransformTweenLocalPosition => CoreCommandPayload::TweenPositionPayload,
        CoreCommandKind::TransformTweenWorldPosition => CoreCommandPayload::TweenPositionPayload,
        CoreCommandKind::TransformSetLocalRotation => CoreCommandPayload::RotationPayload,
        CoreCommandKind::TransformSetWorldRotation => CoreCommandPayload::RotationPayload,
        CoreCommandKind::TransformTweenLocalRotation => CoreCommandPayload::TweenRotationPayload,
        CoreCommandKind::TransformTweenWorldRotation => CoreCommandPayload::TweenRotationPayload,
        CoreCommandKind::TransformSetLocalScale => CoreCommandPayload::ScalePayload,
        CoreCommandKind::TransformTweenLocalScale => CoreCommandPayload::TweenScalePayload,
        CoreCommandKind::RendererSetMaterial => CoreCommandPayload::SetMaterialPayload,
        CoreCommandKind::CameraSetEnabled => CoreCommandPayload::ObjectEnabledPayload,
        CoreCommandKind::LightSetEnabled => CoreCommandPayload::ObjectEnabledPayload,
        CoreCommandKind::ImageSetFaceCamera => CoreCommandPayload::ObjectEnabledPayload,
        CoreCommandKind::TextSetRichText => CoreCommandPayload::ObjectEnabledPayload,
        CoreCommandKind::TextSetFaceCamera => CoreCommandPayload::ObjectEnabledPayload,
        CoreCommandKind::CameraSetPerspective => CoreCommandPayload::PerspectivePayload,
        CoreCommandKind::CameraTweenFieldOfView => CoreCommandPayload::TweenFieldOfViewPayload,
        CoreCommandKind::CameraSetOrthographic => CoreCommandPayload::OrthographicPayload,
        CoreCommandKind::CameraTweenOrthographicSize => CoreCommandPayload::TweenOrthographicSizePayload,
        CoreCommandKind::CameraSetClipping => CoreCommandPayload::CameraClippingPayload,
        CoreCommandKind::CameraSetClear => CoreCommandPayload::CameraClearPayload,
        CoreCommandKind::LightSetType => CoreCommandPayload::LightTypePayload,
        CoreCommandKind::LightSetColor => CoreCommandPayload::ColorPayload,
        CoreCommandKind::TextSetColor => CoreCommandPayload::ColorPayload,
        CoreCommandKind::LightTweenColor => CoreCommandPayload::TweenColorPayload,
        CoreCommandKind::TextTweenColor => CoreCommandPayload::TweenColorPayload,
        CoreCommandKind::LightSetIntensity => CoreCommandPayload::IntensityPayload,
        CoreCommandKind::LightTweenIntensity => CoreCommandPayload::TweenIntensityPayload,
        CoreCommandKind::LightSetRange => CoreCommandPayload::LightRangePayload,
        CoreCommandKind::LightSetSpotAngle => CoreCommandPayload::SpotAnglePayload,
        CoreCommandKind::LightSetShadows => CoreCommandPayload::LightShadowsPayload,
        CoreCommandKind::ImageSetTexture => CoreCommandPayload::SetTexturePayload,
        CoreCommandKind::TextSetFont => CoreCommandPayload::SetFontPayload,
        CoreCommandKind::ImageSetSize => CoreCommandPayload::ImageSizePayload,
        CoreCommandKind::ImageSetFit => CoreCommandPayload::ImageFitPayload,
        CoreCommandKind::ImageSetTint => CoreCommandPayload::TintPayload,
        CoreCommandKind::ImageTweenTint => CoreCommandPayload::TweenTintPayload,
        CoreCommandKind::ImageSetOpacity => CoreCommandPayload::OpacityPayload,
        CoreCommandKind::ImageTweenOpacity => CoreCommandPayload::TweenOpacityPayload,
        CoreCommandKind::TextSetContent => CoreCommandPayload::TextContentPayload,
        CoreCommandKind::TextSetSize => CoreCommandPayload::TextSizePayload,
        CoreCommandKind::TextTweenSize => CoreCommandPayload::TweenTextSizePayload,
        CoreCommandKind::TextSetAlignment => CoreCommandPayload::TextAlignmentPayload,
        CoreCommandKind::TextSetWrapping => CoreCommandPayload::TextWrappingPayload,
        CoreCommandKind::AnimatorPlay => CoreCommandPayload::AnimatorPlayPayload,
        CoreCommandKind::AnimatorCrossFade => CoreCommandPayload::AnimatorCrossFadePayload,
        CoreCommandKind::AnimatorSetBool => CoreCommandPayload::AnimatorBoolPayload,
        CoreCommandKind::AnimatorSetInt => CoreCommandPayload::AnimatorIntPayload,
        CoreCommandKind::AnimatorSetFloat => CoreCommandPayload::AnimatorFloatPayload,
        CoreCommandKind::AnimatorSetTrigger => CoreCommandPayload::AnimatorParameterPayload,
        CoreCommandKind::AnimatorSetSpeed => CoreCommandPayload::AnimatorSpeedPayload,
        CoreCommandKind::ParticlePlay => CoreCommandPayload::ParticlePlayPayload,
        CoreCommandKind::ParticleStop => CoreCommandPayload::ParticleStopPayload,
        CoreCommandKind::ParticleSpawn => CoreCommandPayload::ParticleSpawnPayload,
        CoreCommandKind::AudioPlay => CoreCommandPayload::AudioPlayPayload,
        CoreCommandKind::AudioStop => CoreCommandPayload::AudioStopPayload,
        CoreCommandKind::AudioPause => CoreCommandPayload::AudioPlaybackPayload,
        CoreCommandKind::AudioResume => CoreCommandPayload::AudioPlaybackPayload,
        CoreCommandKind::AudioSeek => CoreCommandPayload::AudioSeekPayload,
        CoreCommandKind::AudioSetBuffering => CoreCommandPayload::AudioBufferingPayload,
        CoreCommandKind::AudioReplace => CoreCommandPayload::AudioReplacePayload,
        CoreCommandKind::AudioSetVolume => CoreCommandPayload::AudioVolumePayload,
        CoreCommandKind::AudioTweenVolume => CoreCommandPayload::TweenAudioVolumePayload,
        CoreCommandKind::TimeWait => CoreCommandPayload::WaitPayload,
        CoreCommandKind::OperationCancel => CoreCommandPayload::CancelOperationPayload,
        CoreCommandKind::InputSetEnabled => CoreCommandPayload::SetInputEnabledPayload,
        CoreCommandKind::InputSetPointerEvents => CoreCommandPayload::PointerEventsPayload,
        CoreCommandKind::InputSetGlobalKeys => CoreCommandPayload::GlobalKeysPayload,
        CoreCommandKind::InputSetController => CoreCommandPayload::ControllerInputSettings,
        CoreCommandKind::ControllerVibrate => CoreCommandPayload::ControllerVibrationPayload,
        CoreCommandKind::DebugUi => CoreCommandPayload::DebugUiPayload,
        CoreCommandKind::VisualElementCreate => CoreCommandPayload::VisualElementCreatePayload,
        CoreCommandKind::VisualElementUpdate => CoreCommandPayload::VisualElementUpdatePayload,
        CoreCommandKind::VisualElementDestroy => CoreCommandPayload::VisualElementDestroyPayload,
        CoreCommandKind::VisualElementPerformAction => CoreCommandPayload::VisualElementActionPayload,
        CoreCommandKind::MotionValue => CoreCommandPayload::MotionValueOperation,
        CoreCommandKind::MotionValuePlayback => CoreCommandPayload::MotionValuePlaybackOperation,
        CoreCommandKind::MotionPlayback => CoreCommandPayload::MotionPlaybackOperation,
        CoreCommandKind::MotionControlledClock => CoreCommandPayload::MotionControlledClockOperation,
        CoreCommandKind::MotionControl => CoreCommandPayload::MotionControlOperation,
        CoreCommandKind::MotionScope => CoreCommandPayload::MotionScopeOperation,
        CoreCommandKind::MotionDragControl => CoreCommandPayload::MotionDragControlOperation,
        CoreCommandKind::GeometryObservationUpdate => CoreCommandPayload::GeometryObservationUpdate,
        CoreCommandKind::AccessibilityUpdate => CoreCommandPayload::AccessibilityUpdate,
    }
}

/// Whether commands of kind `k` carry payload table `p`, listed by table: the
/// kinds each payload table serves.
pub open spec fn serves(p: CoreCommandPayload, k: CoreCommandKind) -> bool {
    match p {
        CoreCommandPayload::ExternalUrlPayload => k == CoreCommandKind::ApplicationOpenUrl,
        CoreCommandPayload::DiagnosticsPayload => k == CoreCommandKind::Diagnostics,
        CoreCommandPayload::ReplaceAssetSetPayload => k == CoreCommandKind::AssetsReplaceSet,
        CoreCommandPayload::SceneLoadPayload => k == CoreCommandKind::SceneLoad,
        CoreCommandPayload::SceneIdPayload => k == CoreCommandKind::SceneUnload || k == CoreCommandKind::SceneSetPrimary,
        CoreCommandPayload::ObjectCreatePayload => k == CoreCommandKind::ObjectCreate,
        CoreCommandPayload::ObjectIdPayload => k == CoreCommandKind::ObjectDestroy || k == CoreCommandKind::InputSetCamera,
        CoreCommandPayload::ObjectSetActivePayload => k == CoreCommandKind::ObjectSetActive,
        CoreCommandPayload::ObjectReparentPayload => k == CoreCommandKind::ObjectReparent,
        CoreCommandPayload::PositionPayload => k == CoreCommandKind::TransformSetLocalPosition || k == CoreCommandKind::TransformSetWorldPosition,
        CoreCommandPayload::TweenPositionPayload => k == CoreCommandKind::TransformTweenLocalPosition || k == CoreCommandKind::TransformTweenWorldPosition,
        CoreCommandPayload::RotationPayload => k == CoreCommandKind::TransformSetLocalRotation || k == CoreCommandKind::TransformSetWorldRotation,
        CoreCommandPayload::TweenRotationPayload => k == CoreCommandKind::TransformTweenLocalRotation || k == CoreCommandKind::TransformTweenWorldRotation,
        CoreCommandPayload::ScalePayload => k == CoreCommandKind::TransformSetLocalScale,
        CoreCommandPayload::TweenScalePayload => k == CoreCommandKind::TransformTweenLocalScale,
        CoreCommandPayload::SetMaterialPayload => k == CoreCommandKind::RendererSetMaterial,
        CoreCommandPayload::ObjectEnabledPayload => k == CoreCommandKind::CameraSetEnabled || k == CoreCommandKind::LightSetEnabled || k == CoreCommandKind::ImageSetFaceCamera || k == CoreCommandKind::TextSetRichText || k == CoreCommandKind::TextSetFaceCamera,
        CoreCommandPayload::PerspectivePayload => k == CoreCommandKind::CameraSetPerspective,
        CoreCommandPayload::TweenFieldOfViewPayload => k == CoreCommandKind::CameraTweenFieldOfView,
        CoreCommandPayload::OrthographicPayload => k == CoreCommandKind::CameraSetOrthographic,
        CoreCommandPayload::TweenOrthographicSizePayload => k == CoreCommandKind::CameraTweenOrthographicSize,
        CoreCommandPayload::CameraClippingPayload => k == CoreCommandKind::CameraSetClipping,
        CoreCommandPayload::CameraClearPayload => k == CoreCommandKind::CameraSetClear,
        CoreCommandPayload::LightTypePayload => k == CoreCommandKind::LightSetType,
        CoreCommandPayload::ColorPayload => k == CoreCommandKind::LightSetColor || k == CoreCommandKind::TextSetColor,
        CoreCommandPayload::TweenColorPayload => k == CoreCommandKind::LightTweenColor || k == CoreCommandKind::TextTweenColor,
        CoreCommandPayload::IntensityPayload => k == CoreCommandKind::LightSetIntensity,
        CoreCommandPayload::TweenIntensityPayload => k == CoreCommandKind::LightTweenIntensity,
        CoreCommandPayload::LightRangePayload => k == CoreCommandKind::LightSetRange,
        CoreCommandPayload::SpotAnglePayload => k == CoreCommandKind::LightSetSpotAngle,
        CoreCommandPayload::LightShadowsPayload => k == CoreCommandKind::LightSetShadows,
        CoreCommandPayload::SetTexturePayload => k == CoreCommandKind::ImageSetTexture,
        CoreCommandPayload::SetFontPayload => k == CoreCommandKind::TextSetFont,
        CoreCommandPayload::ImageSizePayload => k == CoreCommandKind::ImageSetSize,
        CoreCommandPayload::ImageFitPayload => k == CoreCommandKind::ImageSetFit,
        CoreCommandPayload::TintPayload => k == CoreCommandKind::ImageSetTint,
        CoreCommandPayload::TweenTintPayload => k == CoreCommandKind::ImageTweenTint,
        CoreCommandPayload::OpacityPayload => k == CoreCommandKind::ImageSetOpacity,
        CoreCommandPayload::TweenOpacityPayload => k == CoreCommandKind::ImageTweenOpacity,
        CoreCommandPayload::TextContentPayload => k == CoreCommandKind::TextSetContent,
        CoreCommandPayload::TextSizePayload => k == CoreCommandKind::TextSetSize,
        CoreCommandPayload::TweenTextSizePayload => k == CoreCommandKind::TextTweenSize,
        CoreCommandPayload::TextAlignmentPayload => k == CoreCommandKind::TextSetAlignment,
        CoreCommandPayload::TextWrappingPayload => k == CoreCommandKind::TextSetWrapping,
        CoreCommandPayload::AnimatorPlayPayload => k == CoreCommandKind::AnimatorPlay,
        CoreCommandPayload::AnimatorCrossFadePayload => k == CoreCommandKind::AnimatorCrossFade,
        CoreCommandPayload::AnimatorBoolPayload => k == CoreCommandKind::AnimatorSetBool,
        CoreCommandPayload::AnimatorIntPayload => k == CoreCommandKind::AnimatorSetInt,
        CoreCommandPayload::AnimatorFloatPayload => k == CoreCommandKind::AnimatorSetFloat,
        CoreCommandPayload::AnimatorParameterPayload => k == CoreCommandKind::AnimatorSetTrigger,
        CoreCommandPayload::AnimatorSpeedPayload => k == CoreCommandKind::AnimatorSetSpeed,
        CoreCommandPayload::ParticlePlayPayload => k == CoreCommandKind::ParticlePlay,
        CoreCommandPayload::ParticleStopPayload => k == CoreCommandKind::ParticleStop,
        CoreCommandPayload::ParticleSpawnPayload => k == CoreCommandKind::ParticleSpawn,
        CoreCommandPayload::AudioPlayPayload => k == CoreCommandKind::AudioPlay,
        CoreCommandPayload::AudioStopPayload => k == CoreCommandKind::AudioStop,
        CoreCommandPayload::AudioPlaybackPayload => k == CoreCommandKind::AudioPause || k == CoreCommandKind::AudioResume,
        CoreCommandPayload::AudioSeekPayload => k == CoreCommandKind::AudioSeek,
        CoreCommandPayload::AudioBufferingPayload => k == CoreCommandKind::AudioSetBuffering,
        CoreCommandPayload::AudioReplacePayload => k == CoreCommandKind::AudioReplace,
        CoreCommandPayload::AudioVolumePayload => k == CoreCommandKind::AudioSetVolume,
        CoreCommandPayload::TweenAudioVolumePayload => k == CoreCommandKind::AudioTweenVolume,
        CoreCommandPayload::WaitPayload => k == CoreCommandKind::TimeWait,
        CoreCommandPayload::CancelOperationPayload => k == CoreCommandKind::OperationCancel,
        CoreCommandPayload::SetInputEnabledPayload => k == CoreCommandKind::InputSetEnabled,
        CoreCommandPayload::PointerEventsPayload => k == CoreCommandKind::InputSetPointerEvents,
        CoreCommandPayload::GlobalKeysPayload => k == CoreCommandKind::InputSetGlobalKeys,
        CoreCommandPayload::ControllerInputSettings => k == CoreCommandKind::InputSetController,
        CoreCommandPayload::ControllerVibrationPayload => k == CoreCommandKind::ControllerVibrate,
        CoreCommandPayload::DebugUiPayload => k == CoreCommandKind::DebugUi,
        CoreCommandPayload::VisualElementCreatePayload => k == CoreCommandKind::VisualElementCreate,
        CoreCommandPayload::VisualElementUpdatePayload => k == CoreCommandKind::VisualElementUpdate,
        CoreCommandPayload::VisualElementDestroyPayload => k == CoreCommandKind::VisualElementDestroy,
        CoreCommandPayload::VisualElementActionPayload => k == CoreCommandKind::VisualElementPerformAction,
        CoreCommandPayload::MotionValueOperation => k == CoreCommandKind::MotionValue,
        CoreCommandPayload::MotionValuePlaybackOperation => k == CoreCommandKind::MotionValuePlayback,
        CoreCommandPayload::MotionPlaybackOperation => k == CoreCommandKind::MotionPlayback,
        CoreCommandPayload::MotionControlledClockOperation => k == CoreCommandKind::MotionControlledClock,
        CoreCommandPayload::MotionControlOperation => k == CoreCommandKind::MotionControl,
        CoreCommandPayload::MotionScopeOperation => k == CoreCommandKind::MotionScope,
        CoreCommandPayload::MotionDragControlOperation => k == CoreCommandKind::MotionDragControl,
        CoreCommandPayload::GeometryObservationUpdate => k == CoreCommandKind::GeometryObservationUpdate,
        CoreCommandPayload::AccessibilityUpdate => k == CoreCommandKind::AccessibilityUpdate,
    }
}

/// The payload a command kind must carry is exactly the table that serves
/// that kind: each kind has one table, and a table is required of exactly the
/// kinds listed for it.
pub proof fn lemma_payload_pairing(k: CoreCommandKind, p: CoreCommandPayload)
    ensures
        (payload_for(k) == p) <==> serves(p, k),
        serves(payload_for(k), k),
{
    match k {
        CoreCommandKind::ApplicationOpenUrl => {},
        CoreCommandKind::Diagnostics => {},
        CoreCommandKind::AssetsReplaceSet => {},
        CoreCommandKind::SceneLoad => {},
        CoreCommandKind::SceneUnload => {},
        CoreCommandKind::SceneSetPrimary => {},
        CoreCommandKind::ObjectCreate => {},
        CoreCommandKind::ObjectDestroy => {},
        CoreCommandKind::InputSetCamera => {},
        CoreCommandKind::ObjectSetActive => {},
        CoreCommandKind::ObjectReparent => {},
        CoreCommandKind::TransformSetLocalPosition => {},
        CoreCommandKind::TransformSetWorldPosition => {},
        CoreCommandKind::TransformTweenLocalPosition => {},
        CoreCommandKind::TransformTweenWorldPosition => {},
        CoreCommandKind::TransformSetLocalRotation => {},
        CoreCommandKind::TransformSetWorldRotation => {},
        CoreCommandKind::TransformTweenLocalRotation => {},
        CoreCommandKind::TransformTweenWorldRotation => {},
        CoreCommandKind::TransformSetLocalScale => {},
        CoreCommandKind::TransformTweenLocalScale => {},
        CoreCommandKind::RendererSetMaterial => {},
        CoreCommandKind::CameraSetEnabled => {},
        CoreCommandKind::LightSetEnabled => {},
        CoreCommandKind::ImageSetFaceCamera => {},
        CoreCommandKind::TextSetRichText => {},
        CoreCommandKind::TextSetFaceCamera => {},
        CoreCommandKind::CameraSetPerspective => {},
        CoreCommandKind::CameraTweenFieldOfView => {},
        CoreCommandKind::CameraSetOrthographic => {},
        CoreCommandKind::CameraTweenOrthographicSize => {},
        CoreCommandKind::CameraSetClipping => {},
        CoreCommandKind::CameraSetClear => {},
        CoreCommandKind::LightSetType => {},
        CoreCommandKind::LightSetColor => {},
        CoreCommandKind::TextSetColor => {},
        CoreCommandKind::LightTweenColor => {},
        CoreCommandKind::TextTweenColor => {},
        CoreCommandKind::LightSetIntensity => {},
        CoreCommandKind::LightTweenIntensity => {},
        CoreCommandKind::LightSetRange => {},
        CoreCommandKind::LightSetSpotAngle => {},
        CoreCommandKind::LightSetShadows => {},
        CoreCommandKind::ImageSetTexture => {},
        CoreCommandKind::TextSetFont => {},
        CoreCommandKind::ImageSetSize => {},
        CoreCommandKind::ImageSetFit => {},
        CoreCommandKind::ImageSetTint => {},
        CoreCommandKind::ImageTweenTint => {},
        CoreCommandKind::ImageSetOpacity => {},
        CoreCommandKind::ImageTweenOpacity => {},
        CoreCommandKind::TextSetContent => {},
        CoreCommandKind::TextSetSize => {},
        CoreCommandKind::TextTweenSize => {},
        CoreCommandKind::TextSetAlignment => {},
        CoreCommandKind::TextSetWrapping => {},
        CoreCommandKind::AnimatorPlay => {},
        CoreCommandKind::AnimatorCrossFade => {},
        CoreCommandKind::AnimatorSetBool => {},
        CoreCommandKind::AnimatorSetInt => {},
        CoreCommandKind::AnimatorSetFloat => {},
        CoreCommandKind::AnimatorSetTrigger => {},
        CoreCommandKind::AnimatorSetSpeed => {},
        CoreCommandKind::ParticlePlay => {},
        CoreCommandKind::ParticleStop => {},
        CoreCommandKind::ParticleSpawn => {},
        CoreCommandKind::AudioPlay => {},
        CoreCommandKind::AudioStop => {},
        CoreCommandKind::AudioPause => {},
        CoreCommandKind::AudioResume => {},
        CoreCommandKind::AudioSeek => {},
        CoreCommandKind::AudioSetBuffering => {},
        CoreCommandKind::AudioReplace => {},
        CoreCommandKind::AudioSetVolume => {},
        CoreCommandKind::AudioTweenVolume => {},
        CoreCommandKind::TimeWait => {},
        CoreCommandKind::OperationCancel => {},
        CoreCommandKind::InputSetEnabled => {},
        CoreCommandKind::InputSetPointerEvents => {},
        CoreCommandKind::InputSetGlobalKeys => {},
        CoreCommandKind::InputSetController => {},
        CoreCommandKind::ControllerVibrate => {},
        CoreCommandKind::DebugUi => {},
        CoreCommandKind::VisualElementCreate => {},
        CoreCommandKind::VisualElementUpdate => {},
        CoreCommandKind::VisualElementDestroy => {},
        CoreCommandKind::VisualElementPerformAction => {},
        CoreCommandKind::MotionValue => {},
        CoreCommandKind::MotionValuePlayback => {},
        CoreCommandKind::MotionPlayback => {},
        CoreCommandKind::MotionControlledClock => {},
        CoreCommandKind::MotionControl => {},
        CoreCommandKind::MotionScope => {},
        CoreCommandKind::MotionDragControl => {},
        CoreCommandKind::GeometryObservationUpdate => {},
        CoreCommandKind::AccessibilityUpdate => {},
    }
}

} // verus!
