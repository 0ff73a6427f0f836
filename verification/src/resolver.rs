//! Interpretation of replies from the host OS message-formatting facility.
//!
//! The facility expands an error code into localized text. It is asked to
//! ignore printf-style inserts, read from the system's own message tables,
//! and treat arguments as a flat array; it writes UTF-16 units into a
//! caller-supplied buffer and returns how many it wrote (zero on failure).
//! The call is a foreign OS call and cannot be made from verified code, so
//! the caller performs it and hands the reply — the written count, the
//! buffer, and the current last-error value of the execution context — to
//! [`resolve_message`], which decides what description the reply yields.

use vstd::prelude::*;
use vstd::slice::slice_subrange;

verus! {

/// Request flag: printf-style inserts in the message text are ignored.
pub const FORMAT_MESSAGE_IGNORE_INSERTS: u32 = 0x0000_0200;

/// Request flag: the message text comes from the system's own tables.
pub const FORMAT_MESSAGE_FROM_SYSTEM: u32 = 0x0000_1000;

/// Request flag: caller arguments are a flat array, not var-args.
pub const FORMAT_MESSAGE_ARGUMENT_ARRAY: u32 = 0x0000_2000;

/// The fixed flag word every request to the facility carries.
pub const FORMAT_FLAGS: u32 = FORMAT_MESSAGE_IGNORE_INSERTS | FORMAT_MESSAGE_FROM_SYSTEM
    | FORMAT_MESSAGE_ARGUMENT_ARRAY;

/// Capacity, in UTF-16 units, of the reply buffer.
pub const BUFFER_CAPACITY: usize = 512;

/// Secondary last-error value meaning the reply buffer was too small.
pub const ERROR_INSUFFICIENT_BUFFER: u32 = 122;

/// The UTF-16 unit of the line-feed character.
pub const LINE_FEED_UNIT: u16 = 10;

/// What `String::from_utf16_lossy` returns for a sequence of UTF-16 units.
pub uninterp spec fn utf16_lossy_of(units: Seq<u16>) -> Seq<char>;

/// Relies on `String::from_utf16_lossy`: decodes UTF-16, replacing invalid
/// sequences with the replacement character; the result is a function of the
/// units alone.
#[verifier::external_body]
fn decode_utf16_lossy(units: &[u16]) -> (r: String)
    ensures
        r@ == utf16_lossy_of(units@),
{
    String::from_utf16_lossy(units)
}

/// The placeholder description for a reply that yields no trustworthy text.
pub open spec fn unknown_error_text() -> Seq<char> {
    "Unknown Error."@
}

/// Returns the placeholder description.
fn unknown_error() -> (r: String)
    ensures
        r@ == unknown_error_text(),
{
    String::from_str("Unknown Error.")
}

/// The description a failed request (zero units written) yields: when the
/// secondary last-error value says the buffer was too small, the whole buffer
/// decoded best-effort; the placeholder otherwise.
pub open spec fn failure_text(buffer: Seq<u16>, last_error: u32) -> Seq<char> {
    if last_error == ERROR_INSUFFICIENT_BUFFER {
        utf16_lossy_of(buffer)
    } else {
        unknown_error_text()
    }
}

/// Whether a nonzero reply has the shape the facility gives a real message:
/// at least two units written and a line feed as the last of them (the
/// facility appends a carriage-return/line-feed pair to the text).
pub open spec fn well_terminated(written: u32, buffer: Seq<u16>) -> bool {
    &&& 2 <= written
    &&& buffer[written - 1] == LINE_FEED_UNIT
}

/// The description a reply of the facility yields. A nonzero count without
/// the trailing line-feed shape is treated as untrustworthy and degrades to
/// the placeholder.
pub open spec fn resolved_text(written: u32, buffer: Seq<u16>, last_error: u32) -> Seq<char> {
    if written == 0 {
        failure_text(buffer, last_error)
    } else if well_terminated(written, buffer) {
        utf16_lossy_of(buffer.subrange(0, written - 2))
    } else {
        unknown_error_text()
    }
}

/// Decodes a successful reply: the written units, minus the trailing
/// carriage-return/line-feed pair the facility appends.
pub fn format_message_ok(buff: &[u16]) -> (r: String)
    requires
        2 <= buff@.len(),
    ensures
        r@ == utf16_lossy_of(buff@.subrange(0, buff@.len() - 2)),
{
    let n = buff.len();
    decode_utf16_lossy(slice_subrange(buff, 0, n - 2))
}

/// Decodes a failed reply from the secondary last-error value: best-effort
/// decoding of the whole buffer when the buffer was too small, the
/// placeholder for every other cause.
pub fn format_message_error(buff: &[u16], last_error: u32) -> (r: String)
    ensures
        r@ == failure_text(buff@, last_error),
{
    if last_error == ERROR_INSUFFICIENT_BUFFER {
        decode_utf16_lossy(buff)
    } else {
        unknown_error()
    }
}

/// Resolves a reply of the message-formatting facility into a description.
///
/// `written` is the count of UTF-16 units the facility reported, `buffer`
/// the buffer it wrote into, and `last_error` the last-error value of the
/// execution context right after the call. Every reply yields a string:
/// untrustworthy or failed replies degrade to the placeholder text.
pub fn resolve_message(written: u32, buffer: &[u16], last_error: u32) -> (r: String)
    requires
        written <= buffer@.len(),
    ensures
        r@ == resolved_text(written, buffer@, last_error),
{
    if written == 0 {
        format_message_error(buffer, last_error)
    } else {
        let w = written as usize;
        if 2 <= w && buffer[w - 1] == LINE_FEED_UNIT {
            let prefix = slice_subrange(buffer, 0, w);
            let r = format_message_ok(prefix);
            proof {
                assert(prefix@.subrange(0, w - 2) =~= buffer@.subrange(0, written - 2));
            }
            r
        } else {
            unknown_error()
        }
    }
}

/// Law: the description is a pure function of the facility's reply: two
/// equal replies yield one and the same text, so asking twice about one
/// reply cannot give two different descriptions.
pub proof fn lemma_resolution_deterministic(
    written_a: u32,
    buffer_a: Seq<u16>,
    last_error_a: u32,
    written_b: u32,
    buffer_b: Seq<u16>,
    last_error_b: u32,
)
    requires
        written_a == written_b,
        buffer_a == buffer_b,
        last_error_a == last_error_b,
    ensures
        resolved_text(written_a, buffer_a, last_error_a) == resolved_text(
            written_b,
            buffer_b,
            last_error_b,
        ),
{
}

} // verus!
