pub mod eventbus;
pub mod ipc;
