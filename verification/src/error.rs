//! The ways in which a request on a buffer fails.
use vstd::prelude::*;

verus! {

/// Why a request on a buffer was not carried out.
#[derive(Copy, Clone, Debug, PartialEq, Eq, Structural)]
pub enum BufferError {
    /// The owner reported a failure of its own: it could not hand out a
    /// descriptor, or its copy routine failed.
    Owner,
    /// The slice does not have as many bytes as the buffer.
    LengthMismatch,
    /// The slice's item type cannot stand for the buffer's items.
    IncompatibleFormat,
    /// A write was asked of a read-only buffer.
    ReadOnly,
}

impl BufferError {
    /// The text that goes with the error. A failure of the owner carries the
    /// owner's own text, so there is none for it here.
    pub fn message(&self) -> (r: Option<&'static str>)
        ensures
            *self == BufferError::Owner <==> r is None,
            *self == BufferError::LengthMismatch ==> r == Some(
                "Slice length does not match buffer length.",
            ),
            *self == BufferError::IncompatibleFormat ==> r == Some(
                "Slice type is incompatible with buffer format.",
            ),
            *self == BufferError::ReadOnly ==> r == Some("Cannot write to read-only buffer."),
    {
        match self {
            BufferError::Owner => None,
            BufferError::LengthMismatch => Some("Slice length does not match buffer length."),
            BufferError::IncompatibleFormat => Some(
                "Slice type is incompatible with buffer format.",
            ),
            BufferError::ReadOnly => Some("Cannot write to read-only buffer."),
        }
    }
}

/// The result of a request that the buffer's format rules out.
pub fn incompatible_format_error() -> (r: Result<(), BufferError>)
    ensures
        r == Err::<(), BufferError>(BufferError::IncompatibleFormat),
{
    Err(BufferError::IncompatibleFormat)
}

/// The result of a write that a read-only buffer rules out.
pub fn buffer_readonly_error() -> (r: Result<(), BufferError>)
    ensures
        r == Err::<(), BufferError>(BufferError::ReadOnly),
{
    Err(BufferError::ReadOnly)
}

/// Reads the status that a routine of the owner returned: `-1` reports a
/// failure, every other value success.
pub fn error_on_minusone(status: i32) -> (r: Result<(), BufferError>)
    ensures
        status == -1 ==> r == Err::<(), BufferError>(BufferError::Owner),
        status != -1 ==> r == Ok::<(), BufferError>(()),
{
    if status != -1 {
        Ok(())
    } else {
        Err(BufferError::Owner)
    }
}

} // verus!
