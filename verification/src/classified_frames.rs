//! Frames that land in [`classified`] containers.
//!
//! A received secret is moved into a [`ClassifiedBuffer`] bounded to its own
//! length, so the only plain copy is the one the reader filled, and that one
//! becomes the container.

use abut::AbutError;
use classified::{ClassifiedBuffer, ClassifiedError};
use vstd::prelude::*;
use vstd::string::*;

use crate::error::{mine_prefix, render_coded, rendered};

verus! {

#[verifier::external_type_specification]
#[verifier::external_body]
pub struct ExAbutError(AbutError);

#[verifier::external_type_specification]
#[verifier::external_body]
pub struct ExClassifiedBuffer(ClassifiedBuffer);

#[verifier::external_type_specification]
#[verifier::external_body]
pub struct ExClassifiedError(ClassifiedError);

/// The bytes a classified buffer holds.
pub uninterp spec fn classified_contents(buffer: ClassifiedBuffer) -> Seq<u8>;

/// The bound a classified buffer was built with.
pub uninterp spec fn classified_limit(buffer: ClassifiedBuffer) -> usize;

/// Calls `classified::ClassifiedBuffer::try_from_vec`, which refuses empty
/// input and input longer than `capacity_limit`, and otherwise holds exactly
/// the bytes, bounded by `capacity_limit`. Which `ClassifiedError` a refusal
/// carries is not stated here.
#[verifier::external_body]
fn classified_try_from_vec(bytes: Vec<u8>, capacity_limit: usize) -> (r: Result<ClassifiedBuffer, ClassifiedError>)
    ensures
        r is Ok <==> (bytes@.len() > 0 && bytes@.len() <= capacity_limit),
        r matches Ok(b) ==> classified_contents(b) == bytes@ && classified_limit(b) == capacity_limit,
{
    ClassifiedBuffer::try_from_vec(bytes, capacity_limit)
}

/// Calls `ToString::to_string` on an `abut::AbutError`, whose `Display`
/// writes the code's rendering `[ABUT<four digits>] <message>` first and, for
/// an I/O failure, a colon and the I/O source after it. The text of an I/O
/// source comes from the OS, so only the leading `[ABUT` is stated.
#[verifier::external_body]
fn abut_error_text(e: &AbutError) -> (s: String)
    ensures
        s@.len() >= 5,
        s@.subrange(0, 5) == "[ABUT"@,
{
    e.to_string()
}

/// The numeric code of an empty frame refused by the container.
pub const EMPTY_FRAME_CODE: u16 = 11;

/// Why a classified receive failed.
#[derive(Debug)]
pub enum RecvError {
    /// The frame could not be read.
    Frame(AbutError),
    /// The frame was empty; a container refuses an empty secret.
    Empty(ClassifiedError),
}

impl RecvError {
    /// How an empty frame's refusal renders.
    pub open spec fn spec_empty_rendered() -> Seq<char> {
        rendered(mine_prefix(), EMPTY_FRAME_CODE as nat, "Empty frame refused by the container"@)
    }

    /// The refusal as text: `[MINE0011] Empty frame refused by the
    /// container` for an empty frame, and the framing error's own rendering
    /// for a frame that could not be read.
    pub fn to_string(&self) -> (s: String)
        ensures
            self is Empty ==> s@ == Self::spec_empty_rendered(),
            self is Frame ==> s@.len() >= 5 && s@.subrange(0, 5) == "[ABUT"@,
    {
        match self {
            RecvError::Frame(e) => abut_error_text(e),
            RecvError::Empty(_) => render_coded(EMPTY_FRAME_CODE, "Empty frame refused by the container"),
        }
    }
}

/// Move a received frame into a zeroizing container bounded to its own
/// length. An empty frame is refused by the container.
pub fn classify_frame(bytes: Vec<u8>) -> (r: Result<ClassifiedBuffer, RecvError>)
    ensures
        r is Ok <==> bytes@.len() > 0,
        r matches Ok(b) ==> classified_contents(b) == bytes@ && classified_limit(b) == bytes@.len(),
        r matches Err(e) ==> e is Empty,
{
    let len = bytes.len();
    match classified_try_from_vec(bytes, len) {
        Ok(b) => Ok(b),
        Err(e) => Err(RecvError::Empty(e)),
    }
}

} // verus!
