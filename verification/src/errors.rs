use vstd::prelude::*;

verus! {

/// The errors this library surfaces. Each kind carries the underlying
/// message verbatim; callers discriminate by kind.
#[derive(Debug, Clone, PartialEq, Eq)]
pub enum Error {
    /// A failure originating in the anonymity-network client
    /// (bootstrap, connect, launch).
    ArtiClient(String),
    /// A failure to assemble a client or onion-service configuration.
    ConfigBuilder(String),
    /// A failure to assemble the reverse-proxy configuration.
    ProxyConfig(String),
    /// A supplied nickname string failed validation.
    InvalidNickname(String),
}

impl Error {
    /// The message carried by this error, whatever its kind.
    pub open spec fn message_spec(&self) -> Seq<char> {
        match self {
            Error::ArtiClient(m) => m@,
            Error::ConfigBuilder(m) => m@,
            Error::ProxyConfig(m) => m@,
            Error::InvalidNickname(m) => m@,
        }
    }

    /// The user-visible text of this error: the underlying message, verbatim.
    pub fn message(&self) -> (r: &str)
        ensures
            r@ == self.message_spec(),
    {
        match self {
            Error::ArtiClient(m) => m.as_str(),
            Error::ConfigBuilder(m) => m.as_str(),
            Error::ProxyConfig(m) => m.as_str(),
            Error::InvalidNickname(m) => m.as_str(),
        }
    }
}

/// The message text carried by the distinguished nickname error.
pub open spec fn invalid_nickname_text() -> Seq<char> {
    "Invalid syntax for hidden service nickname"@
}

/// The message text carried by the error for an invalid port pattern.
pub open spec fn bad_port_pattern_text() -> Seq<char> {
    "port pattern may not be zero"@
}

impl Error {
    /// The distinguished error for a nickname that failed validation.
    pub fn invalid_nickname_error() -> (r: Error)
        ensures
            r is InvalidNickname,
            r.message_spec() == invalid_nickname_text(),
    {
        Error::InvalidNickname(String::from_str("Invalid syntax for hidden service nickname"))
    }

    /// The distinguished error for a reverse-proxy port pattern that cannot
    /// be assembled.
    pub fn bad_port_pattern_error() -> (r: Error)
        ensures
            r is ProxyConfig,
            r.message_spec() == bad_port_pattern_text(),
    {
        Error::ProxyConfig(String::from_str("port pattern may not be zero"))
    }
}

} // verus!
