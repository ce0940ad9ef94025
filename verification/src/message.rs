//! Reply-line classification for the control protocol of a routing daemon.
//!
//! Every reply line carries a 1-4 digit numeric status code followed by free
//! text. Codes fall into bands: informational replies (0-25), table-entry
//! rows (1000-1025), table headers (2000-2999), server-side errors
//! (8000-8999) and client-side errors (9000-9999). Some codes inside a band
//! are individually documented and get a dedicated variant; the rest of a
//! band is carried by a banded variant that keeps the raw code. Codes outside
//! every band are kept faithfully by a fallback variant, so classification is
//! total and loses no information.

use vstd::prelude::*;

verus! {

/// One classified reply line: the closed, exhaustive set of reply kinds.
///
/// Each variant carries the free-text payload of the line; the variant for
/// code 0 carries none. The banded variants (`TableHeader`, `RuntimeError`,
/// `ClientError`) and the fallback (`Unknown`) also carry the numeric code
/// they were decoded from, so that encoding reproduces it exactly.
#[derive(Debug, Clone)]
pub enum Message {
    // informational replies (codes 0-25)
    Success,
    Welcome(String),
    ReadingConfiguration(String),
    Reconfigured(String),
    ReconfigurationInProgress(String),
    ReconfigurationQueued(String),
    ReconfigurationIgnoredShutdown(String),
    ShutdownOrdered(String),
    AlreadyDisable(String),
    Disabled(String),
    AlreadyEnabled(String),
    Enabled(String),
    Restarted(String),
    StatusReport(String),
    RouteCount(String),
    Reloading(String),
    AccessRestricted(String),
    ReconfigurationUnQueued(String),
    ReconfigurationConfirmed(String),
    NothingToDo(String),
    ConfigurationOk(String),
    UndoRequested(String),
    UndoScheduled(String),
    EvaluatingExpression(String),
    GracefulRestartStatus(String),
    GracefulRestartOrdered(String),
    // table-entry rows (codes 1000-1025)
    BirdVersion(String),
    InterfaceList(String),
    ProtocolList(String),
    InterfaceAddress(String),
    InterfaceFlags(String),
    InterfaceSummary(String),
    ProtocolDetails(String),
    RouteList(String),
    RouteDetails(String),
    StaticRouteList(String),
    SymbolList(String),
    Uptime(String),
    RouteExtendedAttributeList(String),
    OspfNeighbors(String),
    Ospf(String),
    OspfInterface(String),
    OspfState(String),
    OspfLsadb(String),
    Memory(String),
    RoaList(String),
    BfdSessions(String),
    RipInterfaces(String),
    RipNeighbors(String),
    BabelInterfaces(String),
    BabelNeighbors(String),
    BabelEntries(String),
    // individually documented table headers (codes 2002 and 2005)
    ProtocolListHeader(String),
    InterfaceSummaryHeader(String),
    // any other table header in the 2000-2999 band, keeping its code
    TableHeader(u32, String),
    // individually documented server-side errors (codes 8000-8007)
    ReplyTooLong(String),
    RouteNotFound(String),
    ConfigurationFileError(String),
    NoProtocolsMatch(String),
    StoppedDueToReconfiguration(String),
    ProtocolDown(String),
    ReloadFailed(String),
    AccessDenied(String),
    // any other server-side error in the 8008-8999 band, keeping its code
    RuntimeError(u32, String),
    // individually documented client-side errors (codes 9000-9002)
    CommandTooLong(String),
    ParseError(String),
    InvalidSymbol(String),
    // any other client-side error in the 9003-9999 band, keeping its code
    ClientError(u32, String),
    // fallback for a code outside every documented band, keeping its code
    Unknown(u32, String),
}

/// A code with a variant of its own: the individually documented codes that
/// the exact-match step of classification recognizes before any band rule.
pub open spec fn is_enumerated(code: u32) -> bool {
    ||| code <= 25
    ||| (1000 <= code && code <= 1025)
    ||| code == 2002
    ||| code == 2005
    ||| (8000 <= code && code <= 8007)
    ||| (9000 <= code && code <= 9002)
}

/// The table-header band.
pub open spec fn in_header_band(code: u32) -> bool {
    2000 <= code && code <= 2999
}

/// The part of the server-side error band not individually documented.
pub open spec fn in_runtime_error_band(code: u32) -> bool {
    8008 <= code && code <= 8999
}

/// The part of the client-side error band not individually documented.
pub open spec fn in_client_error_band(code: u32) -> bool {
    9003 <= code && code <= 9999
}

impl Message {
    /// The numeric code of this message: the protocol's code table. Each
    /// dedicated variant has its one documented code; the banded and fallback
    /// variants return the code they carry.
    pub open spec fn spec_code(self) -> u32 {
        match self {
            Message::Success => 0,
            Message::Welcome(_) => 1,
            Message::ReadingConfiguration(_) => 2,
            Message::Reconfigured(_) => 3,
            Message::ReconfigurationInProgress(_) => 4,
            Message::ReconfigurationQueued(_) => 5,
            Message::ReconfigurationIgnoredShutdown(_) => 6,
            Message::ShutdownOrdered(_) => 7,
            Message::AlreadyDisable(_) => 8,
            Message::Disabled(_) => 9,
            Message::AlreadyEnabled(_) => 10,
            Message::Enabled(_) => 11,
            Message::Restarted(_) => 12,
            Message::StatusReport(_) => 13,
            Message::RouteCount(_) => 14,
            Message::Reloading(_) => 15,
            Message::AccessRestricted(_) => 16,
            Message::ReconfigurationUnQueued(_) => 17,
            Message::ReconfigurationConfirmed(_) => 18,
            Message::NothingToDo(_) => 19,
            Message::ConfigurationOk(_) => 20,
            Message::UndoRequested(_) => 21,
            Message::UndoScheduled(_) => 22,
            Message::EvaluatingExpression(_) => 23,
            Message::GracefulRestartStatus(_) => 24,
            Message::GracefulRestartOrdered(_) => 25,
            Message::BirdVersion(_) => 1000,
            Message::InterfaceList(_) => 1001,
            Message::ProtocolList(_) => 1002,
            Message::InterfaceAddress(_) => 1003,
            Message::InterfaceFlags(_) => 1004,
            Message::InterfaceSummary(_) => 1005,
            Message::ProtocolDetails(_) => 1006,
            Message::RouteList(_) => 1007,
            Message::RouteDetails(_) => 1008,
            Message::StaticRouteList(_) => 1009,
            Message::SymbolList(_) => 1010,
            Message::Uptime(_) => 1011,
            Message::RouteExtendedAttributeList(_) => 1012,
            Message::OspfNeighbors(_) => 1013,
            Message::Ospf(_) => 1014,
            Message::OspfInterface(_) => 1015,
            Message::OspfState(_) => 1016,
            Message::OspfLsadb(_) => 1017,
            Message::Memory(_) => 1018,
            Message::RoaList(_) => 1019,
            Message::BfdSessions(_) => 1020,
            Message::RipInterfaces(_) => 1021,
            Message::RipNeighbors(_) => 1022,
            Message::BabelInterfaces(_) => 1023,
            Message::BabelNeighbors(_) => 1024,
            Message::BabelEntries(_) => 1025,
            Message::ProtocolListHeader(_) => 2002,
            Message::InterfaceSummaryHeader(_) => 2005,
            Message::TableHeader(c, _) => c,
            Message::ReplyTooLong(_) => 8000,
            Message::RouteNotFound(_) => 8001,
            Message::ConfigurationFileError(_) => 8002,
            Message::NoProtocolsMatch(_) => 8003,
            Message::StoppedDueToReconfiguration(_) => 8004,
            Message::ProtocolDown(_) => 8005,
            Message::ReloadFailed(_) => 8006,
            Message::AccessDenied(_) => 8007,
            Message::RuntimeError(c, _) => c,
            Message::CommandTooLong(_) => 9000,
            Message::ParseError(_) => 9001,
            Message::InvalidSymbol(_) => 9002,
            Message::ClientError(c, _) => c,
            Message::Unknown(c, _) => c,
        }
    }

    /// The text payload this message carries, as a sequence of characters;
    /// the variant for code 0 carries none.
    pub open spec fn spec_payload(self) -> Option<Seq<char>> {
        match self {
            Message::Success => None,
            Message::Welcome(s) => Some(s@),
            Message::ReadingConfiguration(s) => Some(s@),
            Message::Reconfigured(s) => Some(s@),
            Message::ReconfigurationInProgress(s) => Some(s@),
            Message::ReconfigurationQueued(s) => Some(s@),
            Message::ReconfigurationIgnoredShutdown(s) => Some(s@),
            Message::ShutdownOrdered(s) => Some(s@),
            Message::AlreadyDisable(s) => Some(s@),
            Message::Disabled(s) => Some(s@),
            Message::AlreadyEnabled(s) => Some(s@),
            Message::Enabled(s) => Some(s@),
            Message::Restarted(s) => Some(s@),
            Message::StatusReport(s) => Some(s@),
            Message::RouteCount(s) => Some(s@),
            Message::Reloading(s) => Some(s@),
            Message::AccessRestricted(s) => Some(s@),
            Message::ReconfigurationUnQueued(s) => Some(s@),
            Message::ReconfigurationConfirmed(s) => Some(s@),
            Message::NothingToDo(s) => Some(s@),
            Message::ConfigurationOk(s) => Some(s@),
            Message::UndoRequested(s) => Some(s@),
            Message::UndoScheduled(s) => Some(s@),
            Message::EvaluatingExpression(s) => Some(s@),
            Message::GracefulRestartStatus(s) => Some(s@),
            Message::GracefulRestartOrdered(s) => Some(s@),
            Message::BirdVersion(s) => Some(s@),
            Message::InterfaceList(s) => Some(s@),
            Message::ProtocolList(s) => Some(s@),
            Message::InterfaceAddress(s) => Some(s@),
            Message::InterfaceFlags(s) => Some(s@),
            Message::InterfaceSummary(s) => Some(s@),
            Message::ProtocolDetails(s) => Some(s@),
            Message::RouteList(s) => Some(s@),
            Message::RouteDetails(s) => Some(s@),
            Message::StaticRouteList(s) => Some(s@),
            Message::SymbolList(s) => Some(s@),
            Message::Uptime(s) => Some(s@),
            Message::RouteExtendedAttributeList(s) => Some(s@),
            Message::OspfNeighbors(s) => Some(s@),
            Message::Ospf(s) => Some(s@),
            Message::OspfInterface(s) => Some(s@),
            Message::OspfState(s) => Some(s@),
            Message::OspfLsadb(s) => Some(s@),
            Message::Memory(s) => Some(s@),
            Message::RoaList(s) => Some(s@),
            Message::BfdSessions(s) => Some(s@),
            Message::RipInterfaces(s) => Some(s@),
            Message::RipNeighbors(s) => Some(s@),
            Message::BabelInterfaces(s) => Some(s@),
            Message::BabelNeighbors(s) => Some(s@),
            Message::BabelEntries(s) => Some(s@),
            Message::ProtocolListHeader(s) => Some(s@),
            Message::InterfaceSummaryHeader(s) => Some(s@),
            Message::TableHeader(_, s) => Some(s@),
            Message::ReplyTooLong(s) => Some(s@),
            Message::RouteNotFound(s) => Some(s@),
            Message::ConfigurationFileError(s) => Some(s@),
            Message::NoProtocolsMatch(s) => Some(s@),
            Message::StoppedDueToReconfiguration(s) => Some(s@),
            Message::ProtocolDown(s) => Some(s@),
            Message::ReloadFailed(s) => Some(s@),
            Message::AccessDenied(s) => Some(s@),
            Message::RuntimeError(_, s) => Some(s@),
            Message::CommandTooLong(s) => Some(s@),
            Message::ParseError(s) => Some(s@),
            Message::InvalidSymbol(s) => Some(s@),
            Message::ClientError(_, s) => Some(s@),
            Message::Unknown(_, s) => Some(s@),
        }
    }
}

/// What classifying `(code, text)` must produce: `m` carries `code` back,
/// carries `text` as payload (none for code 0), and is a banded or fallback
/// variant exactly when the code is in the matching band and has no dedicated
/// variant. Together with `spec_code`, whose dedicated codes are pairwise
/// distinct, this determines the variant and its contents completely.
pub open spec fn decodes_to(code: u32, text: Seq<char>, m: Message) -> bool {
    &&& m.spec_code() == code
    &&& (if code == 0 {
        m is Success
    } else {
        m.spec_payload() == Some(text)
    })
    &&& (m is TableHeader <==> (in_header_band(code) && !is_enumerated(code)))
    &&& (m is RuntimeError <==> in_runtime_error_band(code))
    &&& (m is ClientError <==> in_client_error_band(code))
    &&& (m is Unknown <==> (!is_enumerated(code) && !in_header_band(code)
        && !in_runtime_error_band(code) && !in_client_error_band(code)))
}

impl Message {
    /// Classify one reply line. Total: every code yields a message, the
    /// dedicated variants first, then the band rules, then the fallback.
    pub fn from_code(code: u32, message: &str) -> (m: Message)
        ensures
            decodes_to(code, message@, m),
    {
        let msg = message.to_owned();

        if code == 0 {
            Message::Success
        } else if code == 1 {
            Message::Welcome(msg)
        } else if code == 2 {
            Message::ReadingConfiguration(msg)
        } else if code == 3 {
            Message::Reconfigured(msg)
        } else if code == 4 {
            Message::ReconfigurationInProgress(msg)
        } else if code == 5 {
            Message::ReconfigurationQueued(msg)
        } else if code == 6 {
            Message::ReconfigurationIgnoredShutdown(msg)
        } else if code == 7 {
            Message::ShutdownOrdered(msg)
        } else if code == 8 {
            Message::AlreadyDisable(msg)
        } else if code == 9 {
            Message::Disabled(msg)
        } else if code == 10 {
            Message::AlreadyEnabled(msg)
        } else if code == 11 {
            Message::Enabled(msg)
        } else if code == 12 {
            Message::Restarted(msg)
        } else if code == 13 {
            Message::StatusReport(msg)
        } else if code == 14 {
            Message::RouteCount(msg)
        } else if code == 15 {
            Message::Reloading(msg)
        } else if code == 16 {
            Message::AccessRestricted(msg)
        } else if code == 17 {
            Message::ReconfigurationUnQueued(msg)
        } else if code == 18 {
            Message::ReconfigurationConfirmed(msg)
        } else if code == 19 {
            Message::NothingToDo(msg)
        } else if code == 20 {
            Message::ConfigurationOk(msg)
        } else if code == 21 {
            Message::UndoRequested(msg)
        } else if code == 22 {
            Message::UndoScheduled(msg)
        } else if code == 23 {
            Message::EvaluatingExpression(msg)
        } else if code == 24 {
            Message::GracefulRestartStatus(msg)
        } else if code == 25 {
            Message::GracefulRestartOrdered(msg)
        } else if code == 1000 {
            Message::BirdVersion(msg)
        } else if code == 1001 {
            Message::InterfaceList(msg)
        } else if code == 1002 {
            Message::ProtocolList(msg)
        } else if code == 1003 {
            Message::InterfaceAddress(msg)
        } else if code == 1004 {
            Message::InterfaceFlags(msg)
        } else if code == 1005 {
            Message::InterfaceSummary(msg)
        } else if code == 1006 {
            Message::ProtocolDetails(msg)
        } else if code == 1007 {
            Message::RouteList(msg)
        } else if code == 1008 {
            Message::RouteDetails(msg)
        } else if code == 1009 {
            Message::StaticRouteList(msg)
        } else if code == 1010 {
            Message::SymbolList(msg)
        } else if code == 1011 {
            Message::Uptime(msg)
        } else if code == 1012 {
            Message::RouteExtendedAttributeList(msg)
        } else if code == 1013 {
            Message::OspfNeighbors(msg)
        } else if code == 1014 {
            Message::Ospf(msg)
        } else if code == 1015 {
            Message::OspfInterface(msg)
        } else if code == 1016 {
            Message::OspfState(msg)
        } else if code == 1017 {
            Message::OspfLsadb(msg)
        } else if code == 1018 {
            Message::Memory(msg)
        } else if code == 1019 {
            Message::RoaList(msg)
        } else if code == 1020 {
            Message::BfdSessions(msg)
        } else if code == 1021 {
            Message::RipInterfaces(msg)
        } else if code == 1022 {
            Message::RipNeighbors(msg)
        } else if code == 1023 {
            Message::BabelInterfaces(msg)
        } else if code == 1024 {
            Message::BabelNeighbors(msg)
        } else if code == 1025 {
            Message::BabelEntries(msg)
        } else if code == 2002 {
            Message::ProtocolListHeader(msg)
        } else if code == 2005 {
            Message::InterfaceSummaryHeader(msg)
        } else if 2000 <= code && code <= 2999 {
            Message::TableHeader(code, msg)
        } else if code == 8000 {
            Message::ReplyTooLong(msg)
        } else if code == 8001 {
            Message::RouteNotFound(msg)
        } else if code == 8002 {
            Message::ConfigurationFileError(msg)
        } else if code == 8003 {
            Message::NoProtocolsMatch(msg)
        } else if code == 8004 {
            Message::StoppedDueToReconfiguration(msg)
        } else if code == 8005 {
            Message::ProtocolDown(msg)
        } else if code == 8006 {
            Message::ReloadFailed(msg)
        } else if code == 8007 {
            Message::AccessDenied(msg)
        } else if 8008 <= code && code <= 8999 {
            Message::RuntimeError(code, msg)
        } else if code == 9000 {
            Message::CommandTooLong(msg)
        } else if code == 9001 {
            Message::ParseError(msg)
        } else if code == 9002 {
            Message::InvalidSymbol(msg)
        } else if 9003 <= code && code <= 9999 {
            Message::ClientError(code, msg)
        } else {
            Message::Unknown(code, msg)
        }
    }

    /// The numeric code of this message, for re-emission on the wire: the
    /// exact inverse table of classification, plus pass-through for the
    /// variants that carry their code.
    pub fn code(&self) -> (c: u32)
        ensures
            c == self.spec_code(),
    {
        match self {
            Message::Success => 0,
            Message::Welcome(_) => 1,
            Message::ReadingConfiguration(_) => 2,
            Message::Reconfigured(_) => 3,
            Message::ReconfigurationInProgress(_) => 4,
            Message::ReconfigurationQueued(_) => 5,
            Message::ReconfigurationIgnoredShutdown(_) => 6,
            Message::ShutdownOrdered(_) => 7,
            Message::AlreadyDisable(_) => 8,
            Message::Disabled(_) => 9,
            Message::AlreadyEnabled(_) => 10,
            Message::Enabled(_) => 11,
            Message::Restarted(_) => 12,
            Message::StatusReport(_) => 13,
            Message::RouteCount(_) => 14,
            Message::Reloading(_) => 15,
            Message::AccessRestricted(_) => 16,
            Message::ReconfigurationUnQueued(_) => 17,
            Message::ReconfigurationConfirmed(_) => 18,
            Message::NothingToDo(_) => 19,
            Message::ConfigurationOk(_) => 20,
            Message::UndoRequested(_) => 21,
            Message::UndoScheduled(_) => 22,
            Message::EvaluatingExpression(_) => 23,
            Message::GracefulRestartStatus(_) => 24,
            Message::GracefulRestartOrdered(_) => 25,
            Message::BirdVersion(_) => 1000,
            Message::InterfaceList(_) => 1001,
            Message::ProtocolList(_) => 1002,
            Message::InterfaceAddress(_) => 1003,
            Message::InterfaceFlags(_) => 1004,
            Message::InterfaceSummary(_) => 1005,
            Message::ProtocolDetails(_) => 1006,
            Message::RouteList(_) => 1007,
            Message::RouteDetails(_) => 1008,
            Message::StaticRouteList(_) => 1009,
            Message::SymbolList(_) => 1010,
            Message::Uptime(_) => 1011,
            Message::RouteExtendedAttributeList(_) => 1012,
            Message::OspfNeighbors(_) => 1013,
            Message::Ospf(_) => 1014,
            Message::OspfInterface(_) => 1015,
            Message::OspfState(_) => 1016,
            Message::OspfLsadb(_) => 1017,
            Message::Memory(_) => 1018,
            Message::RoaList(_) => 1019,
            Message::BfdSessions(_) => 1020,
            Message::RipInterfaces(_) => 1021,
            Message::RipNeighbors(_) => 1022,
            Message::BabelInterfaces(_) => 1023,
            Message::BabelNeighbors(_) => 1024,
            Message::BabelEntries(_) => 1025,
            Message::ProtocolListHeader(_) => 2002,
            Message::InterfaceSummaryHeader(_) => 2005,
            Message::TableHeader(c, _) => *c,
            Message::ReplyTooLong(_) => 8000,
            Message::RouteNotFound(_) => 8001,
            Message::ConfigurationFileError(_) => 8002,
            Message::NoProtocolsMatch(_) => 8003,
            Message::StoppedDueToReconfiguration(_) => 8004,
            Message::ProtocolDown(_) => 8005,
            Message::ReloadFailed(_) => 8006,
            Message::AccessDenied(_) => 8007,
            Message::RuntimeError(c, _) => *c,
            Message::CommandTooLong(_) => 9000,
            Message::ParseError(_) => 9001,
            Message::InvalidSymbol(_) => 9002,
            Message::ClientError(c, _) => *c,
            Message::Unknown(c, _) => *c,
        }
    }
}

/// Law: encoding a decoded reply reproduces the original code, whatever the
/// code and the text. Holds for every code: dedicated variants return their
/// one documented code, and the banded and fallback variants return the code
/// they carry.
pub proof fn lemma_round_trip(code: u32, text: Seq<char>, m: Message)
    requires
        decodes_to(code, text, m),
    ensures
        m.spec_code() == code,
{
}

/// Law: a code of the table-header band with no dedicated variant decodes to
/// the banded table-header variant carrying that code and text.
pub proof fn lemma_header_band_classification(code: u32, text: Seq<char>, m: Message)
    requires
        in_header_band(code),
        code != 2002,
        code != 2005,
        decodes_to(code, text, m),
    ensures
        (m matches Message::TableHeader(c, s) && c == code && s@ == text),
{
}

/// Law: a code of the server-side error band with no dedicated variant
/// decodes to the banded runtime-error variant carrying that code and text.
pub proof fn lemma_runtime_error_band_classification(code: u32, text: Seq<char>, m: Message)
    requires
        in_runtime_error_band(code),
        decodes_to(code, text, m),
    ensures
        (m matches Message::RuntimeError(c, s) && c == code && s@ == text),
{
}

/// Law: a code of the client-side error band with no dedicated variant
/// decodes to the banded client-error variant carrying that code and text.
pub proof fn lemma_client_error_band_classification(code: u32, text: Seq<char>, m: Message)
    requires
        in_client_error_band(code),
        decodes_to(code, text, m),
    ensures
        (m matches Message::ClientError(c, s) && c == code && s@ == text),
{
}

/// Law: a code outside every documented band decodes to the fallback variant
/// carrying that code and text, and encodes back to that code.
pub proof fn lemma_fallback_classification(code: u32, text: Seq<char>, m: Message)
    requires
        !is_enumerated(code),
        !in_header_band(code),
        !in_runtime_error_band(code),
        !in_client_error_band(code),
        decodes_to(code, text, m),
    ensures
        (m matches Message::Unknown(c, s) && c == code && s@ == text),
        m.spec_code() == code,
{
}

/// Law: the text handed to classification is recovered exactly from the
/// resulting message, for every code but 0, whose message carries no payload.
pub proof fn lemma_payload_preservation(code: u32, text: Seq<char>, m: Message)
    requires
        code != 0,
        decodes_to(code, text, m),
    ensures
        m.spec_payload() == Some(text),
{
}

} // verus!
