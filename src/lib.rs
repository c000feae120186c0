//! Validation and decoding of the report written by the native routine that
//! gives the host's last bootup time.
//!
//! The native routine fills a fixed-size byte buffer, returns a status code
//! and writes how many bytes it produced, a trailing terminator included.
//! This library owns the rules that turn such a report into text or an error.
use vstd::prelude::*;
use vstd::string::StringExecFns;
use vstd::utf8::*;

verus! {

/// Capacity in bytes of the buffer that the native routine fills.
pub const BUFFER_CAPACITY: usize = 512;

/// Why no bootup time could be read.
#[derive(Clone, Copy, Debug, PartialEq, Eq, Structural)]
pub enum BootupTimeError {
    /// The native routine reported failure, or a length outside `(0, BUFFER_CAPACITY)`.
    ExternalCallFailed,
    /// The reported bytes, terminator excluded, are not UTF-8.
    InvalidText,
}

impl BootupTimeError {
    /// A sentence that describes the error.
    pub fn message(&self) -> (r: String)
        ensures
            *self == BootupTimeError::ExternalCallFailed ==> r@ == "Failed to get last bootup time"@,
            *self == BootupTimeError::InvalidText ==> r@ == "Invalid UTF-8 sequence"@,
    {
        match self {
            BootupTimeError::ExternalCallFailed => String::from_str("Failed to get last bootup time"),
            BootupTimeError::InvalidText => String::from_str("Invalid UTF-8 sequence"),
        }
    }
}

/// A zero-filled buffer of `BUFFER_CAPACITY` bytes, to be handed to the native routine.
pub fn new_buffer() -> (r: Vec<u8>)
    ensures
        r@.len() == BUFFER_CAPACITY,
        forall|i: int| 0 <= i < r@.len() ==> #[trigger] r@[i] == 0u8,
{
    vec![0u8; BUFFER_CAPACITY]
}

/// The native routine succeeded and reported a length that leaves room for
/// its terminator inside the buffer.
pub open spec fn report_is_valid(status: i32, reported_length: u32) -> bool {
    status == 0 && 0 < reported_length && reported_length < BUFFER_CAPACITY
}

/// The bytes that carry the text: the reported bytes without the terminator.
pub open spec fn text_bytes(buffer: Seq<u8>, reported_length: u32) -> Seq<u8> {
    buffer.subrange(0, reported_length - 1)
}

/// The outcome that a report (status, buffer contents, reported length) stands for.
pub open spec fn report_outcome(status: i32, buffer: Seq<u8>, reported_length: u32) -> Result<
    Seq<char>,
    BootupTimeError,
> {
    if !report_is_valid(status, reported_length) {
        Err(BootupTimeError::ExternalCallFailed)
    } else if !valid_utf8(text_bytes(buffer, reported_length)) {
        Err(BootupTimeError::InvalidText)
    } else {
        Ok(decode_utf8(text_bytes(buffer, reported_length)))
    }
}

/// A result seen through the view of its text.
pub open spec fn outcome_of(r: Result<String, BootupTimeError>) -> Result<Seq<char>, BootupTimeError> {
    match r {
        Ok(s) => Ok(s@),
        Err(e) => Err(e),
    }
}

/// Relies on `String::from_utf8`: it accepts exactly the valid UTF-8 byte
/// sequences, and the string it returns holds the characters they encode.
#[verifier::external_body]
fn string_from_utf8(bytes: Vec<u8>) -> (r: Option<String>)
    ensures
        r is Some <==> valid_utf8(bytes@),
        r matches Some(s) ==> s@ == decode_utf8(bytes@),
{
    String::from_utf8(bytes).ok()
}

/// Turns a report of the native routine into the bootup time text.
///
/// The report is accepted when `status` is 0 and `0 < reported_length <
/// BUFFER_CAPACITY`; otherwise the result is `ExternalCallFailed`. The first
/// `reported_length - 1` bytes of `buffer` (the last reported byte is the
/// terminator) are then decoded as UTF-8; `InvalidText` when they are not.
pub fn decode_report(status: i32, buffer: &[u8], reported_length: u32) -> (r: Result<
    String,
    BootupTimeError,
>)
    requires
        buffer@.len() == BUFFER_CAPACITY,
    ensures
        outcome_of(r) == report_outcome(status, buffer@, reported_length),
        status != 0 ==> r == Err::<String, BootupTimeError>(BootupTimeError::ExternalCallFailed),
        reported_length == 0 ==> r == Err::<String, BootupTimeError>(
            BootupTimeError::ExternalCallFailed,
        ),
        reported_length >= BUFFER_CAPACITY ==> r == Err::<String, BootupTimeError>(
            BootupTimeError::ExternalCallFailed,
        ),
        report_is_valid(status, reported_length) && !valid_utf8(
            text_bytes(buffer@, reported_length),
        ) ==> r == Err::<String, BootupTimeError>(BootupTimeError::InvalidText),
        report_is_valid(status, reported_length) && valid_utf8(text_bytes(buffer@, reported_length))
            ==> (r matches Ok(s) && s@ == decode_utf8(text_bytes(buffer@, reported_length))),
{
    if status != 0 || reported_length == 0 || reported_length as usize >= BUFFER_CAPACITY {
        return Err(BootupTimeError::ExternalCallFailed);
    }
    let text_len: usize = (reported_length - 1) as usize;
    let mut bytes: Vec<u8> = Vec::new();
    let mut i: usize = 0;
    while i < text_len
        invariant
            text_len < buffer@.len(),
            i <= text_len,
            bytes@ == buffer@.subrange(0, i as int),
        decreases text_len - i,
    {
        bytes.push(buffer[i]);
        i = i + 1;
    }
    match string_from_utf8(bytes) {
        Some(s) => Ok(s),
        None => Err(BootupTimeError::InvalidText),
    }
}

/// Reading one report twice gives one result: two results that both meet the
/// contract of `decode_report` for the same status, buffer contents and
/// reported length hold the same text, or the same error.
pub proof fn lemma_decode_report_deterministic(
    status: i32,
    buffer: Seq<u8>,
    reported_length: u32,
    first: Result<String, BootupTimeError>,
    second: Result<String, BootupTimeError>,
)
    requires
        outcome_of(first) == report_outcome(status, buffer, reported_length),
        outcome_of(second) == report_outcome(status, buffer, reported_length),
    ensures
        outcome_of(first) == outcome_of(second),
        first is Ok <==> second is Ok,
        first is Err ==> first == second,
{
}

} // verus!
