//! Normalizes save files of several strategy titles into plaintext ("melting")
//! and exposes the operation through single-use result handles.

pub mod archive;
pub mod encoding;
pub mod errors;
pub mod file;
pub mod games;
pub mod melter;

pub use encoding::{Encoding, Game};
pub use errors::{LibError, PdsError};
pub use file::{PdsFile, PdsFileResult, PdsMeta};
pub use melter::{MeltedBuffer, MeltedBufferResult};
