use vstd::prelude::*;

verus! {

/// Topics of the stdio protocol between the client and this runtime.
#[derive(Debug, Clone, Copy, PartialEq, Eq, Structural)]
pub enum Topic {
    Handshake,
    Ping,
    QueryState,
    QueryHealth,
    InitializeContext,
    DestroyContext,
    Shutdown,
    EnvironmentCommand,
    SyncCommand,
    AuthCommand,
    RuntimeEvent,
    Unknown(u16),
}

impl Topic {
    /// The wire code of a topic; an unknown topic keeps the code it came with.
    pub open spec fn spec_code(self) -> u16 {
        match self {
            Topic::Handshake => 0x0001,
            Topic::Ping => 0x0002,
            Topic::QueryState => 0x0003,
            Topic::QueryHealth => 0x0004,
            Topic::InitializeContext => 0x0010,
            Topic::DestroyContext => 0x0011,
            Topic::Shutdown => 0x0012,
            Topic::EnvironmentCommand => 0x0020,
            Topic::SyncCommand => 0x0021,
            Topic::AuthCommand => 0x0022,
            Topic::RuntimeEvent => 0x0030,
            Topic::Unknown(v) => v,
        }
    }

    /// The topic a wire code reads as.
    pub open spec fn spec_from_code(code: u16) -> Topic {
        if code == 0x0001 { Topic::Handshake }
        else if code == 0x0002 { Topic::Ping }
        else if code == 0x0003 { Topic::QueryState }
        else if code == 0x0004 { Topic::QueryHealth }
        else if code == 0x0010 { Topic::InitializeContext }
        else if code == 0x0011 { Topic::DestroyContext }
        else if code == 0x0012 { Topic::Shutdown }
        else if code == 0x0020 { Topic::EnvironmentCommand }
        else if code == 0x0021 { Topic::SyncCommand }
        else if code == 0x0022 { Topic::AuthCommand }
        else if code == 0x0030 { Topic::RuntimeEvent }
        else { Topic::Unknown(code) }
    }

    /// The wire code of this topic.
    pub fn code(&self) -> (c: u16)
        ensures
            c == self.spec_code(),
    {
        match self {
            Topic::Handshake => 0x0001,
            Topic::Ping => 0x0002,
            Topic::QueryState => 0x0003,
            Topic::QueryHealth => 0x0004,
            Topic::InitializeContext => 0x0010,
            Topic::DestroyContext => 0x0011,
            Topic::Shutdown => 0x0012,
            Topic::EnvironmentCommand => 0x0020,
            Topic::SyncCommand => 0x0021,
            Topic::AuthCommand => 0x0022,
            Topic::RuntimeEvent => 0x0030,
            Topic::Unknown(v) => *v,
        }
    }

    /// The topic a wire code reads as.
    pub fn from_code(code: u16) -> (t: Topic)
        ensures
            t == Topic::spec_from_code(code),
    {
        match code {
            0x0001 => Topic::Handshake,
            0x0002 => Topic::Ping,
            0x0003 => Topic::QueryState,
            0x0004 => Topic::QueryHealth,
            0x0010 => Topic::InitializeContext,
            0x0011 => Topic::DestroyContext,
            0x0012 => Topic::Shutdown,
            0x0020 => Topic::EnvironmentCommand,
            0x0021 => Topic::SyncCommand,
            0x0022 => Topic::AuthCommand,
            0x0030 => Topic::RuntimeEvent,
            _ => Topic::Unknown(code),
        }
    }
}

/// Every wire code reads back as a topic with that same code.
pub proof fn lemma_ipc_topic_code_of_from(code: u16)
    ensures
        Topic::spec_from_code(code).spec_code() == code,
{
}

/// A named topic survives a trip through its wire code.
pub proof fn lemma_ipc_topic_roundtrip(t: Topic)
    requires
        !(t is Unknown),
    ensures
        Topic::spec_from_code(t.spec_code()) == t,
{
}


/// The table of request and event topics of the stdio protocol: each
/// named topic travels as its fixed code, and each of those codes reads
/// back as that topic.
pub proof fn lemma_ipc_topic_wire_codes()
    ensures
        Topic::Handshake.spec_code() == 0x0001,
        Topic::Ping.spec_code() == 0x0002,
        Topic::QueryState.spec_code() == 0x0003,
        Topic::QueryHealth.spec_code() == 0x0004,
        Topic::InitializeContext.spec_code() == 0x0010,
        Topic::DestroyContext.spec_code() == 0x0011,
        Topic::Shutdown.spec_code() == 0x0012,
        Topic::EnvironmentCommand.spec_code() == 0x0020,
        Topic::SyncCommand.spec_code() == 0x0021,
        Topic::AuthCommand.spec_code() == 0x0022,
        Topic::RuntimeEvent.spec_code() == 0x0030,
        Topic::spec_from_code(0x0001) == Topic::Handshake,
        Topic::spec_from_code(0x0002) == Topic::Ping,
        Topic::spec_from_code(0x0003) == Topic::QueryState,
        Topic::spec_from_code(0x0004) == Topic::QueryHealth,
        Topic::spec_from_code(0x0010) == Topic::InitializeContext,
        Topic::spec_from_code(0x0011) == Topic::DestroyContext,
        Topic::spec_from_code(0x0012) == Topic::Shutdown,
        Topic::spec_from_code(0x0020) == Topic::EnvironmentCommand,
        Topic::spec_from_code(0x0021) == Topic::SyncCommand,
        Topic::spec_from_code(0x0022) == Topic::AuthCommand,
        Topic::spec_from_code(0x0030) == Topic::RuntimeEvent,
{
}

} // verus!
