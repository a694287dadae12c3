use std::string::FromUtf8Error;
use vstd::prelude::*;

verus! {

#[verifier::external_type_specification]
#[verifier::external_body]
pub struct ExFromUtf8Error(FromUtf8Error);

/// The two kinds of I/O failure that the packet decoders report.
#[derive(Debug, Clone, Copy, PartialEq, Eq, Structural)]
pub enum IoErrorKind {
    UnexpectedEof,
    InvalidData,
}

/// An I/O-style failure: a kind and a human-readable message.
#[derive(Debug)]
pub struct IoError {
    pub kind: IoErrorKind,
    pub message: String,
}

/// Every failure the codec can report.
#[derive(Debug)]
pub enum ProtocolError {
    /// The packet data ended before a value was complete.
    UnexpectedEof,
    /// A variable-length integer did not end within its maximum length;
    /// carries the number of bytes read.
    VarIntOverflow(usize),
    /// A string was longer than the allowed maximum: (length, maximum).
    StringTooLong(usize, usize),
    /// A string's bytes were not valid UTF-8.
    InvalidUtf8(FromUtf8Error),
    UnknownPacketId { id: u32, state: String, direction: String },
    UnknownNbtTag(u8),
    /// An I/O-style failure reported by a packet decoder.
    Io(IoError),
    /// A packet was larger than the allowed maximum: (size, maximum).
    PacketTooLarge(usize, usize),
}

/// What a `ProtocolError` says, as plain values. `Panic` stands for no error
/// value at all: it marks the inputs on which the decoding would read past the
/// end of the buffer, which the `bytes` crate answers with a panic; the
/// decoders rule those inputs out in their `requires`.
pub enum ErrorView {
    UnexpectedEof,
    VarIntOverflow(usize),
    StringTooLong(usize, usize),
    InvalidUtf8,
    UnknownPacketId { id: u32, state: Seq<char>, direction: Seq<char> },
    UnknownNbtTag(u8),
    Io(IoErrorKind, Seq<char>),
    PacketTooLarge(usize, usize),
    Panic,
}

impl View for ProtocolError {
    type V = ErrorView;

    open spec fn view(&self) -> ErrorView {
        match self {
            ProtocolError::UnexpectedEof => ErrorView::UnexpectedEof,
            ProtocolError::VarIntOverflow(n) => ErrorView::VarIntOverflow(*n),
            ProtocolError::StringTooLong(a, b) => ErrorView::StringTooLong(*a, *b),
            ProtocolError::InvalidUtf8(_) => ErrorView::InvalidUtf8,
            ProtocolError::UnknownPacketId { id, state, direction } => ErrorView::UnknownPacketId {
                id: *id,
                state: state@,
                direction: direction@,
            },
            ProtocolError::UnknownNbtTag(t) => ErrorView::UnknownNbtTag(*t),
            ProtocolError::Io(e) => ErrorView::Io(e.kind, e.message@),
            ProtocolError::PacketTooLarge(a, b) => ErrorView::PacketTooLarge(*a, *b),
        }
    }
}

/// Builds `ProtocolError::Io` with the given kind and message.
pub fn io_error(kind: IoErrorKind, message: &str) -> (r: ProtocolError)
    ensures
        r@ == ErrorView::Io(kind, message@),
{
    ProtocolError::Io(IoError { kind, message: String::from_str(message) })
}

/// Builds `ProtocolError::Io` with the given kind and an owned message.
pub fn io_error_owned(kind: IoErrorKind, message: String) -> (r: ProtocolError)
    ensures
        r@ == ErrorView::Io(kind, message@),
{
    ProtocolError::Io(IoError { kind, message })
}

} // verus!
