//! Verified readers, validators and storage accounting for Battlement's
//! size-prefixed FlatBuffers transport messages.
//!
//! Each reader takes the finished bytes, the schema's file identifier, and the
//! tables that the FlatBuffers verifier decoded from them; it checks the
//! framing, then the protocol rules, and keeps only what passed.

pub mod audio;
pub mod command_kinds;
pub mod connect;
pub mod core_client;
pub mod error;
pub mod finished;
pub mod float_bits;
pub mod framing;
pub mod geometry;
pub mod host_settings;
pub mod limits;
pub mod material;
pub mod message_writer;
pub mod motion;
pub mod names;
pub mod native;
pub mod response;
pub mod uuid;

pub use connect::{ConnectView, ReducedMotionPreference};
pub use error::ProtocolError;
pub use finished::FinishedMessage;
pub use framing::{has_file_identifier, size_prefix_matches, FramingFailure};
pub use geometry::{
    ElementGeometryView, GeometryObservationBatchView, GeometryObservationResultView,
    GeometryObservationValueView, GeometryValueView, PresentationWorkGeometryView,
    ViewportGeometryView, WorldBoundsGeometryView, WorldPointGeometryView,
    WorldRestBoundsGeometryView,
};
pub use host_settings::HostSettingsView;
pub use limits::{
    MAXIMUM_APPARENT_BYTES, MAXIMUM_MESSAGE_BYTES, MAXIMUM_TABLE_DEPTH, MAXIMUM_TABLE_VISITS,
};
pub use message_writer::{message_writer_diagnostics, recycle_message_storage, MessageWriterDiagnostics};
pub use motion::MotionEventBatchView;
pub use native::{
    NativeBatchStart, NativeControllerButton, NativeDragMode, NativeEasing, NativeImageFit,
    NativeParentScene, NativePhysicalKey, NativePointerEvent, NativePreparedAssetKind,
};
pub use response::ResponseView;
