use vstd::prelude::*;
use vstd::std_specs::convert::FromSpecImpl;

verus! {

/// Topics of the browser event bus; each travels on the wire as a 16-bit code.
#[derive(Debug, Clone, Copy, PartialEq, Eq, Structural)]
pub enum Topic {
    Handshake,
    Heartbeat,
    Disconnect,
    ConfigInit,
    ConfigUpdate,
    FingerprintApply,
    FingerprintQuery,
    ProxySet,
    ProxyBypass,
    RpaCommand,
    RpaResult,
    RpaEvent,
    PageLoad,
    PageClose,
    NavigationStart,
    AuthRequest,
    AuthResponse,
    WindowSetBounds,
    SyncInputEvent,
    SyncRole,
    SyncInputDebug,
    SyncPaste,
    LaunchConfig,
}

impl Topic {
    /// The wire code of a topic.
    pub open spec fn spec_code(self) -> u16 {
        match self {
            Topic::Handshake => 0x0001,
            Topic::Heartbeat => 0x0002,
            Topic::Disconnect => 0x0003,
            Topic::ConfigInit => 0x0100,
            Topic::ConfigUpdate => 0x0101,
            Topic::FingerprintApply => 0x0200,
            Topic::FingerprintQuery => 0x0201,
            Topic::ProxySet => 0x0300,
            Topic::ProxyBypass => 0x0301,
            Topic::RpaCommand => 0x0400,
            Topic::RpaResult => 0x0401,
            Topic::RpaEvent => 0x0402,
            Topic::PageLoad => 0x0500,
            Topic::PageClose => 0x0501,
            Topic::NavigationStart => 0x0502,
            Topic::AuthRequest => 0x0600,
            Topic::AuthResponse => 0x0601,
            Topic::WindowSetBounds => 0x0700,
            Topic::SyncInputEvent => 0x0800,
            Topic::SyncRole => 0x0801,
            Topic::SyncInputDebug => 0x0802,
            Topic::SyncPaste => 0x0803,
            Topic::LaunchConfig => 0x0900,
        }
    }

    /// Whether a wire code names a topic.
    pub open spec fn is_known_code(code: u16) -> bool {
        exists|t: Topic| t.spec_code() == code
    }

    /// The topic a wire code decodes to: the topic with that code, and
    /// `Handshake` for a code that names none.
    pub open spec fn spec_from_code(code: u16) -> Topic {
        if code == 0x0001 { Topic::Handshake }
        else if code == 0x0002 { Topic::Heartbeat }
        else if code == 0x0003 { Topic::Disconnect }
        else if code == 0x0100 { Topic::ConfigInit }
        else if code == 0x0101 { Topic::ConfigUpdate }
        else if code == 0x0200 { Topic::FingerprintApply }
        else if code == 0x0201 { Topic::FingerprintQuery }
        else if code == 0x0300 { Topic::ProxySet }
        else if code == 0x0301 { Topic::ProxyBypass }
        else if code == 0x0400 { Topic::RpaCommand }
        else if code == 0x0401 { Topic::RpaResult }
        else if code == 0x0402 { Topic::RpaEvent }
        else if code == 0x0500 { Topic::PageLoad }
        else if code == 0x0501 { Topic::PageClose }
        else if code == 0x0502 { Topic::NavigationStart }
        else if code == 0x0600 { Topic::AuthRequest }
        else if code == 0x0601 { Topic::AuthResponse }
        else if code == 0x0700 { Topic::WindowSetBounds }
        else if code == 0x0800 { Topic::SyncInputEvent }
        else if code == 0x0801 { Topic::SyncRole }
        else if code == 0x0802 { Topic::SyncInputDebug }
        else if code == 0x0803 { Topic::SyncPaste }
        else if code == 0x0900 { Topic::LaunchConfig }
        else { Topic::Handshake }
    }

    /// The name of a topic as its debug form prints it.
    pub open spec fn spec_debug_name(self) -> Seq<char> {
        match self {
            Topic::Handshake => "Handshake"@,
            Topic::Heartbeat => "Heartbeat"@,
            Topic::Disconnect => "Disconnect"@,
            Topic::ConfigInit => "ConfigInit"@,
            Topic::ConfigUpdate => "ConfigUpdate"@,
            Topic::FingerprintApply => "FingerprintApply"@,
            Topic::FingerprintQuery => "FingerprintQuery"@,
            Topic::ProxySet => "ProxySet"@,
            Topic::ProxyBypass => "ProxyBypass"@,
            Topic::RpaCommand => "RpaCommand"@,
            Topic::RpaResult => "RpaResult"@,
            Topic::RpaEvent => "RpaEvent"@,
            Topic::PageLoad => "PageLoad"@,
            Topic::PageClose => "PageClose"@,
            Topic::NavigationStart => "NavigationStart"@,
            Topic::AuthRequest => "AuthRequest"@,
            Topic::AuthResponse => "AuthResponse"@,
            Topic::WindowSetBounds => "WindowSetBounds"@,
            Topic::SyncInputEvent => "SyncInputEvent"@,
            Topic::SyncRole => "SyncRole"@,
            Topic::SyncInputDebug => "SyncInputDebug"@,
            Topic::SyncPaste => "SyncPaste"@,
            Topic::LaunchConfig => "LaunchConfig"@,
        }
    }

    /// The name of this topic as its debug form prints it.
    pub fn debug_name(&self) -> (s: &'static str)
        ensures
            s@ == self.spec_debug_name(),
    {
        match self {
            Topic::Handshake => "Handshake",
            Topic::Heartbeat => "Heartbeat",
            Topic::Disconnect => "Disconnect",
            Topic::ConfigInit => "ConfigInit",
            Topic::ConfigUpdate => "ConfigUpdate",
            Topic::FingerprintApply => "FingerprintApply",
            Topic::FingerprintQuery => "FingerprintQuery",
            Topic::ProxySet => "ProxySet",
            Topic::ProxyBypass => "ProxyBypass",
            Topic::RpaCommand => "RpaCommand",
            Topic::RpaResult => "RpaResult",
            Topic::RpaEvent => "RpaEvent",
            Topic::PageLoad => "PageLoad",
            Topic::PageClose => "PageClose",
            Topic::NavigationStart => "NavigationStart",
            Topic::AuthRequest => "AuthRequest",
            Topic::AuthResponse => "AuthResponse",
            Topic::WindowSetBounds => "WindowSetBounds",
            Topic::SyncInputEvent => "SyncInputEvent",
            Topic::SyncRole => "SyncRole",
            Topic::SyncInputDebug => "SyncInputDebug",
            Topic::SyncPaste => "SyncPaste",
            Topic::LaunchConfig => "LaunchConfig",
        }
    }

    /// The wire code of this topic.
    pub fn code(&self) -> (c: u16)
        ensures
            c == self.spec_code(),
    {
        match self {
            Topic::Handshake => 0x0001,
            Topic::Heartbeat => 0x0002,
            Topic::Disconnect => 0x0003,
            Topic::ConfigInit => 0x0100,
            Topic::ConfigUpdate => 0x0101,
            Topic::FingerprintApply => 0x0200,
            Topic::FingerprintQuery => 0x0201,
            Topic::ProxySet => 0x0300,
            Topic::ProxyBypass => 0x0301,
            Topic::RpaCommand => 0x0400,
            Topic::RpaResult => 0x0401,
            Topic::RpaEvent => 0x0402,
            Topic::PageLoad => 0x0500,
            Topic::PageClose => 0x0501,
            Topic::NavigationStart => 0x0502,
            Topic::AuthRequest => 0x0600,
            Topic::AuthResponse => 0x0601,
            Topic::WindowSetBounds => 0x0700,
            Topic::SyncInputEvent => 0x0800,
            Topic::SyncRole => 0x0801,
            Topic::SyncInputDebug => 0x0802,
            Topic::SyncPaste => 0x0803,
            Topic::LaunchConfig => 0x0900,
        }
    }

    /// The topic that a wire code decodes to.
    pub fn from_code(value: u16) -> (t: Topic)
        ensures
            t == Topic::spec_from_code(value),
    {
        match value {
            0x0001 => Topic::Handshake,
            0x0002 => Topic::Heartbeat,
            0x0003 => Topic::Disconnect,
            0x0100 => Topic::ConfigInit,
            0x0101 => Topic::ConfigUpdate,
            0x0200 => Topic::FingerprintApply,
            0x0201 => Topic::FingerprintQuery,
            0x0300 => Topic::ProxySet,
            0x0301 => Topic::ProxyBypass,
            0x0400 => Topic::RpaCommand,
            0x0401 => Topic::RpaResult,
            0x0402 => Topic::RpaEvent,
            0x0500 => Topic::PageLoad,
            0x0501 => Topic::PageClose,
            0x0502 => Topic::NavigationStart,
            0x0600 => Topic::AuthRequest,
            0x0601 => Topic::AuthResponse,
            0x0700 => Topic::WindowSetBounds,
            0x0800 => Topic::SyncInputEvent,
            0x0801 => Topic::SyncRole,
            0x0802 => Topic::SyncInputDebug,
            0x0803 => Topic::SyncPaste,
            0x0900 => Topic::LaunchConfig,
            _ => Topic::Handshake,
        }
    }
}

impl From<u16> for Topic {
    fn from(value: u16) -> (t: Topic) {
        Topic::from_code(value)
    }
}

impl FromSpecImpl<u16> for Topic {
    open spec fn obeys_from_spec() -> bool {
        true
    }

    open spec fn from_spec(v: u16) -> Topic {
        Topic::spec_from_code(v)
    }
}

/// Decoding the code of a topic gives the topic back.
pub proof fn lemma_topic_code_roundtrip(t: Topic)
    ensures
        Topic::spec_from_code(t.spec_code()) == t,
{
}

/// Distinct topics have distinct wire codes.
pub proof fn lemma_topic_code_injective(a: Topic, b: Topic)
    ensures
        a.spec_code() == b.spec_code() ==> a == b,
{
    lemma_topic_code_roundtrip(a);
    lemma_topic_code_roundtrip(b);
}

/// A code that names a topic decodes to the topic with that code; any other
/// code decodes to `Handshake`.
pub proof fn lemma_topic_from_code(code: u16)
    ensures
        Topic::is_known_code(code) ==> Topic::spec_from_code(code).spec_code() == code,
        !Topic::is_known_code(code) ==> Topic::spec_from_code(code) == Topic::Handshake,
{
    if Topic::is_known_code(code) {
        let t = choose|t: Topic| t.spec_code() == code;
        lemma_topic_code_roundtrip(t);
    } else {
        assert(Topic::spec_from_code(code) == Topic::Handshake) by {
            assert(Topic::Handshake.spec_code() != code);
            assert(Topic::Heartbeat.spec_code() != code);
            assert(Topic::Disconnect.spec_code() != code);
            assert(Topic::ConfigInit.spec_code() != code);
            assert(Topic::ConfigUpdate.spec_code() != code);
            assert(Topic::FingerprintApply.spec_code() != code);
            assert(Topic::FingerprintQuery.spec_code() != code);
            assert(Topic::ProxySet.spec_code() != code);
            assert(Topic::ProxyBypass.spec_code() != code);
            assert(Topic::RpaCommand.spec_code() != code);
            assert(Topic::RpaResult.spec_code() != code);
            assert(Topic::RpaEvent.spec_code() != code);
            assert(Topic::PageLoad.spec_code() != code);
            assert(Topic::PageClose.spec_code() != code);
            assert(Topic::NavigationStart.spec_code() != code);
            assert(Topic::AuthRequest.spec_code() != code);
            assert(Topic::AuthResponse.spec_code() != code);
            assert(Topic::WindowSetBounds.spec_code() != code);
            assert(Topic::SyncInputEvent.spec_code() != code);
            assert(Topic::SyncRole.spec_code() != code);
            assert(Topic::SyncInputDebug.spec_code() != code);
            assert(Topic::SyncPaste.spec_code() != code);
            assert(Topic::LaunchConfig.spec_code() != code);
        }
    }
}


/// The protocol's table of topic codes: each topic travels as its fixed
/// code, and each of those codes reads back as that topic.
pub proof fn lemma_topic_wire_codes()
    ensures
        Topic::Handshake.spec_code() == 0x0001,
        Topic::Heartbeat.spec_code() == 0x0002,
        Topic::Disconnect.spec_code() == 0x0003,
        Topic::ConfigInit.spec_code() == 0x0100,
        Topic::ConfigUpdate.spec_code() == 0x0101,
        Topic::FingerprintApply.spec_code() == 0x0200,
        Topic::FingerprintQuery.spec_code() == 0x0201,
        Topic::ProxySet.spec_code() == 0x0300,
        Topic::ProxyBypass.spec_code() == 0x0301,
        Topic::RpaCommand.spec_code() == 0x0400,
        Topic::RpaResult.spec_code() == 0x0401,
        Topic::RpaEvent.spec_code() == 0x0402,
        Topic::PageLoad.spec_code() == 0x0500,
        Topic::PageClose.spec_code() == 0x0501,
        Topic::NavigationStart.spec_code() == 0x0502,
        Topic::AuthRequest.spec_code() == 0x0600,
        Topic::AuthResponse.spec_code() == 0x0601,
        Topic::WindowSetBounds.spec_code() == 0x0700,
        Topic::SyncInputEvent.spec_code() == 0x0800,
        Topic::SyncRole.spec_code() == 0x0801,
        Topic::SyncInputDebug.spec_code() == 0x0802,
        Topic::SyncPaste.spec_code() == 0x0803,
        Topic::LaunchConfig.spec_code() == 0x0900,
        Topic::spec_from_code(0x0001) == Topic::Handshake,
        Topic::spec_from_code(0x0002) == Topic::Heartbeat,
        Topic::spec_from_code(0x0003) == Topic::Disconnect,
        Topic::spec_from_code(0x0100) == Topic::ConfigInit,
        Topic::spec_from_code(0x0101) == Topic::ConfigUpdate,
        Topic::spec_from_code(0x0200) == Topic::FingerprintApply,
        Topic::spec_from_code(0x0201) == Topic::FingerprintQuery,
        Topic::spec_from_code(0x0300) == Topic::ProxySet,
        Topic::spec_from_code(0x0301) == Topic::ProxyBypass,
        Topic::spec_from_code(0x0400) == Topic::RpaCommand,
        Topic::spec_from_code(0x0401) == Topic::RpaResult,
        Topic::spec_from_code(0x0402) == Topic::RpaEvent,
        Topic::spec_from_code(0x0500) == Topic::PageLoad,
        Topic::spec_from_code(0x0501) == Topic::PageClose,
        Topic::spec_from_code(0x0502) == Topic::NavigationStart,
        Topic::spec_from_code(0x0600) == Topic::AuthRequest,
        Topic::spec_from_code(0x0601) == Topic::AuthResponse,
        Topic::spec_from_code(0x0700) == Topic::WindowSetBounds,
        Topic::spec_from_code(0x0800) == Topic::SyncInputEvent,
        Topic::spec_from_code(0x0801) == Topic::SyncRole,
        Topic::spec_from_code(0x0802) == Topic::SyncInputDebug,
        Topic::spec_from_code(0x0803) == Topic::SyncPaste,
        Topic::spec_from_code(0x0900) == Topic::LaunchConfig,
{
}

} // verus!
