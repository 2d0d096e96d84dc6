//! A verified model of a session-oriented hardware video encoder API.
//!
//! The library centres on the encoder session lifecycle protocol: how input
//! frame buffers, output bitstream buffers, and externally registered memory
//! resources are created, locked, submitted for encoding, drained, and torn
//! down, under an asynchronous batching pipeline that may delay or reject
//! work.
//!
//! The hardware device itself is an external collaborator: the library
//! verifies the protocol against a deterministic model of the device, built
//! from a capability table and equipped with fault-injection knobs (budgeted
//! busy answers, budgeted mapping failures, a diagnostic text), so every
//! protocol rule — submission ordering, buffer reuse, lock exclusivity,
//! teardown ordering, end-of-stream flushing — is both proved and testable
//! without an encoder present. The raw function-pointer table of a real
//! driver and its bindings stay outside this crate.
//!
//! Usage follows this structure:
//! 1. Build an [`Encoder`](encoder::Encoder) from a capability table.
//! 2. Configure the encoder and start a [`Session`](session::Session).
//! 3. Create input [`Buffer`](session::Buffer)s (or register external
//!    resources) and output [`Bitstream`](session::Bitstream)s.
//! 4. Encode frames with `Session::encode_picture`, draining output
//!    bitstreams in submission order.
//! 5. Flush with `Session::end_of_stream` and close the session.

pub mod encoder;
pub mod guid;
pub mod laws;
pub mod params;
pub mod result;
pub mod session;
pub mod version;

pub use encoder::{Capabilities, Encoder, ResourceEvent};
pub use guid::Guid;
pub use params::{BufferFormat, CodecPictureParams, EncodeConfig, EncodePictureParams, EncoderInitParams, InputResourceType, PictureType, PresetConfig, TuningInfo};
pub use result::{EncodeError, ErrorKind, NVENCSTATUS};
pub use session::{Bitstream, BitstreamLock, Buffer, BufferLock, EncoderInput, EncoderOutput, RegisteredResource, Session};
pub use version::{assert_versions_match, NVENCAPI_STRUCT_VERSION};
