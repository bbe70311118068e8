pub mod error;
pub mod message;
pub mod topics;

pub use error::{ErrorCode, IpcError, Result};
pub use message::{Message, PROTOCOL_VERSION};
pub use topics::Topic;
pub use crate::infrastructure::eventbus::message::MessageType;
