//! The failures of the bridge, and the text under which each one reaches
//! the managed runtime.

use vstd::prelude::*;

verus! {

/// Why a bridge operation failed.
#[derive(Debug, PartialEq, Eq)]
pub enum BridgeError {
    /// A handle was to be attached to an object that already has one.
    AttachFailure,
    /// The object has no handle: none was ever attached, or it was released.
    NotAttached,
    /// A value could not be converted across the boundary.
    MarshalFailure(String),
    /// The engine failed; the text is the engine's own.
    EngineError(String),
}

/// The kind of a failure, without its text.
#[derive(Debug, Clone, Copy, PartialEq, Eq, Structural)]
pub enum ErrorKind {
    AttachFailure,
    NotAttached,
    MarshalFailure,
    EngineError,
}

impl BridgeError {
    pub open spec fn kind_spec(self) -> ErrorKind {
        match self {
            BridgeError::AttachFailure => ErrorKind::AttachFailure,
            BridgeError::NotAttached => ErrorKind::NotAttached,
            BridgeError::MarshalFailure(_) => ErrorKind::MarshalFailure,
            BridgeError::EngineError(_) => ErrorKind::EngineError,
        }
    }

    /// The name of the failure's kind, as it opens the message.
    pub open spec fn label(self) -> Seq<char> {
        match self {
            BridgeError::AttachFailure => "AttachFailure"@,
            BridgeError::NotAttached => "NotAttached"@,
            BridgeError::MarshalFailure(_) => "MarshalFailure"@,
            BridgeError::EngineError(_) => "EngineError"@,
        }
    }

    /// What the message says after the kind.
    pub open spec fn detail(self) -> Seq<char> {
        match self {
            BridgeError::AttachFailure => "a native handle is already attached to this object"@,
            BridgeError::NotAttached => "no native handle is attached to this object"@,
            BridgeError::MarshalFailure(text) => text@,
            BridgeError::EngineError(text) => text@,
        }
    }

    /// The whole message: the kind, a colon and a space, then the detail.
    pub open spec fn message_spec(self) -> Seq<char> {
        self.label() + ": "@ + self.detail()
    }

    pub fn kind(&self) -> (r: ErrorKind)
        ensures
            r == self.kind_spec(),
    {
        match self {
            BridgeError::AttachFailure => ErrorKind::AttachFailure,
            BridgeError::NotAttached => ErrorKind::NotAttached,
            BridgeError::MarshalFailure(_) => ErrorKind::MarshalFailure,
            BridgeError::EngineError(_) => ErrorKind::EngineError,
        }
    }

    /// The text that the managed runtime sees for this failure. Every
    /// failure reaches it as one error condition; the kind is told from
    /// the opening of this text alone.
    pub fn message(&self) -> (r: String)
        ensures
            r@ == self.message_spec(),
    {
        match self {
            BridgeError::AttachFailure => join(
                "AttachFailure",
                ": ",
                "a native handle is already attached to this object",
            ),
            BridgeError::NotAttached => join(
                "NotAttached",
                ": ",
                "no native handle is attached to this object",
            ),
            BridgeError::MarshalFailure(text) => join("MarshalFailure", ": ", text.as_str()),
            BridgeError::EngineError(text) => join("EngineError", ": ", text.as_str()),
        }
    }
}

/// The three texts, one after the other, in a new string.
fn join(first: &str, second: &str, third: &str) -> (r: String)
    ensures
        r@ == first@ + second@ + third@,
{
    let mut out: String = first.to_owned();
    out.append(second);
    out.append(third);
    out
}

} // verus!
