pub mod buffer;
pub mod byte_buffers;
pub mod connection;
pub mod error;
pub mod manager;
pub mod message;
pub mod topics;
pub mod transport;

pub use buffer::FrameBuffer;
pub use connection::BrowserConnection;
pub use error::{ErrorCode, EventBusError, Result};
pub use manager::{
    AccountConfig, AuthInfo, BrowserMessageRoute, CookieGroup, EnvConnectionPayload,
    EventBusState, UserInfo,
};
pub use message::{next_msg_id, HandshakeData, Message, MessageIds, MessageType};
pub use topics::Topic;
pub use transport::{get_pipe_path, PipeServer};
