//! What can go wrong in this layer, and how strictly anomalies are taken.

use vstd::prelude::*;

verus! {

/// How the layer takes an event that does not fit the protocol as it knows it.
///
/// `Strict` reports each such event as an error and keeps it from the
/// handler: the mode for development, where a mismatch with the engine should
/// show at once. `Tolerant` lets an interactive input method go on: an unknown
/// message is passed over, and a field out of range is decoded to what can be
/// kept of it.
#[derive(Debug, Clone, Copy, PartialEq, Eq, Structural, Hash)]
pub enum Strictness {
    Strict,
    Tolerant,
}

/// The protocol fields whose range this layer checks.
#[derive(Debug, Clone, Copy, PartialEq, Eq, Structural, Hash)]
pub enum ProtocolField {
    InputStyle,
    ForwardEventFlag,
    ExtForwardKeyeventFlag,
    TriggerNotifyFlag,
}

/// The errors of this layer.
#[derive(Debug, Clone, Copy, PartialEq, Eq, Structural, Hash)]
pub enum ImError {
    /// A request names an input context that is not alive. Nothing was asked
    /// of the engine.
    DeadInputContext,
    /// The operation codes announce no message that this layer knows.
    UnsupportedMessage { major_opcode: u8, minor_opcode: u8 },
    /// A field holds a value outside the range that the protocol defines.
    ProtocolInvariantViolation { field: ProtocolField, value: u32 },
    /// The engine named no client with a message that is about one.
    MissingClient,
    /// The engine named no input context with a message that is about one.
    MissingInputContext,
    /// The event came from another engine instance than the server's own.
    UnexpectedIm,
    /// The engine could not be created.
    ConstructionFailed,
    /// The engine could not be opened.
    OpenFailed,
}

impl ImError {
    /// Whether the error ends the server under the given strictness.
    ///
    /// An engine that cannot be created or opened is fatal in any case. A
    /// mismatch with the engine or with the protocol (an event of another
    /// engine instance, an unknown message, a field out of range) is fatal
    /// where anomalies are taken strictly. A request for a context that is
    /// not alive and an event without the handle that it needs are never
    /// fatal: the request is dropped and the event is passed over.
    pub open spec fn fatal(self, strictness: Strictness) -> bool {
        match self {
            ImError::ConstructionFailed | ImError::OpenFailed => true,
            ImError::UnexpectedIm
            | ImError::UnsupportedMessage { .. }
            | ImError::ProtocolInvariantViolation { .. } => strictness == Strictness::Strict,
            ImError::DeadInputContext
            | ImError::MissingClient
            | ImError::MissingInputContext => false,
        }
    }

    /// Whether the error ends the server under the given strictness.
    pub fn is_fatal(&self, strictness: Strictness) -> (r: bool)
        ensures
            r == self.fatal(strictness),
    {
        match self {
            ImError::ConstructionFailed | ImError::OpenFailed => true,
            ImError::UnexpectedIm
            | ImError::UnsupportedMessage { .. }
            | ImError::ProtocolInvariantViolation { .. } => match strictness {
                Strictness::Strict => true,
                Strictness::Tolerant => false,
            },
            ImError::DeadInputContext
            | ImError::MissingClient
            | ImError::MissingInputContext => false,
        }
    }
}

} // verus!
