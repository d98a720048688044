//! DigiMesh radio session logic: frame codec, identity cache, text-mode
//! commands and neighbour discovery, written without I/O so that a caller
//! drives the serial port and hands the results back.

mod buffer;
pub mod discovery;
pub mod error;
pub mod frame;
pub mod peer;
pub mod session;

pub use discovery::{discovery_request, Discovery, ScheduledScan, CYCLE_PAUSE_MS, CYCLE_TIMEOUT_MS};
pub use error::Error;
pub use frame::{
    decode_frame, decode_response, encode_frame, remaining_after_header, ApiError, AtCommandFrame,
    AtCommandResponse, FrameId, Response, ResponseKind,
};
pub use peer::{parse_remote_device, RemoteDigiMeshDevice};
pub use session::{
    local_command, AtCommand, DigiMeshDevice, IdentityField, ModeStep, PendingExchange, DEFAULT_TIMEOUT_MS,
    GUARD_TIME_MS,
};
