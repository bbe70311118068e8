use vstd::prelude::*;
use crate::infrastructure::eventbus::AuthInfo;

verus! {

/// Commands the client sends to the sign-in module.
#[derive(Debug)]
pub enum AuthCommandRequest {
    SetAuthState { auth_info: AuthInfo },
    ClearAuthState,
    GetAuthState,
}

/// Answers of the sign-in module.
#[derive(Debug)]
pub enum AuthCommandResponse {
    Ack,
    State { auth_info: AuthInfo },
}

impl AuthCommandRequest {
    /// Whether the command changes the sign-in state, so that browsers are
    /// to be told of it.
    pub fn changes_auth_state(&self) -> (b: bool)
        ensures
            b == !(self is GetAuthState),
    {
        match self {
            AuthCommandRequest::GetAuthState => false,
            _ => true,
        }
    }
}

} // verus!
