use vstd::prelude::*;

verus! {

/// Failures surfaced by the engine boundary and the configuration layer.
#[derive(Debug, PartialEq)]
pub enum Error {
    /// The engine reported a non-zero status; carries the diagnostic fetched
    /// right after it, which is never empty.
    TSNet(String),
    /// A non-zero status arrived but no usable diagnostic could be fetched:
    /// the fetch itself failed, or it produced an empty message.
    FetchingErrorFromTSNet,
    /// The engine's diagnostic or address buffer held bytes that are not
    /// valid UTF-8.
    TSNetSentBadUTF8,
    /// A caller-supplied string holds an interior NUL byte and cannot cross
    /// the boundary as a NUL-terminated string.
    NullInString,
    /// The engine filled a text buffer without a NUL terminator; the text
    /// would be truncated, so it is rejected instead.
    Truncated,
    /// An operation was attempted on a handle that was already closed.
    Closed,
}

impl Error {
    /// The user-visible description of this error; for an engine report it
    /// includes the engine's own diagnostic text.
    pub open spec fn spec_message(&self) -> Seq<char> {
        match self {
            Error::TSNet(m) => "tsnet: "@ + m@,
            Error::FetchingErrorFromTSNet => "error fetching error from tsnet"@,
            Error::TSNetSentBadUTF8 => "string from tsnet has invalid UTF-8"@,
            Error::NullInString => "your string has NULL in it"@,
            Error::Truncated => "string from tsnet has no NUL terminator"@,
            Error::Closed => "handle is already closed"@,
        }
    }

    pub fn message(&self) -> (r: String)
        ensures
            r@ == self.spec_message(),
    {
        match self {
            Error::TSNet(m) => String::from_str("tsnet: ").concat(m.as_str()),
            Error::FetchingErrorFromTSNet => String::from_str("error fetching error from tsnet"),
            Error::TSNetSentBadUTF8 => String::from_str("string from tsnet has invalid UTF-8"),
            Error::NullInString => String::from_str("your string has NULL in it"),
            Error::Truncated => String::from_str("string from tsnet has no NUL terminator"),
            Error::Closed => String::from_str("handle is already closed"),
        }
    }
}

/// Failures of the local descriptor-handoff transport and of stream I/O,
/// distinct from engine-reported statuses.
#[derive(Debug, PartialEq)]
pub enum TailscaleError {
    /// The OS-level receive call on the handoff socket failed.
    Recvmsg,
    /// The received handoff message carried no descriptor rights: a
    /// malformed handoff, never silently retried.
    ControlMessage,
    /// A stream operation on a connection failed; carries the OS errno.
    Io(i32),
    /// An operation was attempted on a descriptor wrapper that was already
    /// closed.
    Closed,
}

} // verus!
