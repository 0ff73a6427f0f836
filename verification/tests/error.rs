use windows_error::WindowsError;
use windows_error::resolve_message;
use windows_error::format_message_error;
use windows_error::format_message_ok;
use windows_error::resolver::ERROR_INSUFFICIENT_BUFFER;

/// A canned reply of the message-formatting facility for a real message:
/// the text, the trailing CR/LF pair appended, as UTF-16 units.
fn facility_reply(text: &str) -> Vec<u16> {
    let mut units: Vec<u16> = text.encode_utf16().collect();
    units.push(13);
    units.push(10);
    units
}

#[test]
fn win_error_test() {
    //check PartialEq
    assert!(WindowsError::new(0) == 0 as u16);
    assert!(WindowsError::new(0) == WindowsError::from(0));
    assert!(WindowsError::new(1) != WindowsError::from(0));

    // The facility call itself needs a live OS; each reply below is the one
    // a default English system gives for the code.
    let result = WindowsError::new(0);
    let reply = facility_reply("The operation completed successfully.");
    let desc = result.errno_desc(reply.len() as u32, &reply, 0);
    assert!("The operation completed successfully.".to_string() == desc);
    println!("{}={}", result.display_text(), desc);

    let result = WindowsError::new(1);
    let reply = facility_reply("Incorrect function.");
    let desc = result.errno_desc(reply.len() as u32, &reply, 0);
    assert!("Incorrect function.".to_string() == desc);
    println!("{}={}", result.display_text(), desc);

    // An unassigned code: the facility writes nothing and the last-error
    // slot holds a value other than "insufficient buffer".
    let result = WindowsError::new(666);
    let reply: Vec<u16> = vec![0; 512];
    let desc = result.errno_desc(0, &reply, 317);
    assert!("Unknown Error.".to_string() == desc);
    println!("{}={}", result.display_text(), desc);
}

#[test]
fn new_preserves_code() {
    assert_eq!(WindowsError::new(0).errno(), 0);
    assert_eq!(WindowsError::new(1).errno(), 1);
    assert_eq!(WindowsError::new(666).errno(), 666);
    assert_eq!(WindowsError::new(u32::MAX).errno(), u32::MAX);
}

#[test]
fn equality_across_widths() {
    let e = WindowsError::new(5);
    assert!(e == 5u8);
    assert!(e == 5u16);
    assert!(e == 5u32);
    assert!(e == 5u64);
    assert!(e == 5usize);
    assert!(e == 5i8);
    assert!(e == 5i16);
    assert!(e == 5i32);
    assert!(e == 5i64);
    assert!(e == 5isize);
    assert!(e != 6u8);
    assert!(e != 6u16);
    assert!(e != 6u32);
    assert!(e != 6u64);
    assert!(e != 6usize);
    assert!(e != 6i8);
    assert!(e != 6i16);
    assert!(e != 6i32);
    assert!(e != 6i64);
    assert!(e != 6isize);
}

#[test]
fn equality_reinterprets_signed_bits() {
    // A negative integer widens by bit pattern: -1 as u32 is u32::MAX.
    let e = WindowsError::new(u32::MAX);
    assert!(e == -1i8);
    assert!(e == -1i16);
    assert!(e == -1i32);
    assert!(e == -1i64);
    assert!(e == -1isize);
    assert!(WindowsError::new(0xffff_ff85) == -123i8);
}

#[test]
fn inequality_is_negated_equality() {
    assert!(WindowsError::new(0) != WindowsError::new(1));
    assert!(WindowsError::new(1) != WindowsError::new(0));
    assert!(!(WindowsError::new(0) == WindowsError::new(1)));
    assert!(WindowsError::new(7) == WindowsError::new(7));
}

#[test]
fn conversion_round_trip_wide_widths() {
    let e = WindowsError::new(0xdead_beef);
    assert!(WindowsError::from(u32::from(e)) == e);
    assert!(WindowsError::from(u64::from(e)) == e);
    assert!(WindowsError::from(usize::from(e)) == e);
    assert!(WindowsError::from(i32::from(e)) == e);
    assert!(WindowsError::from(i64::from(e)) == e);
    assert!(WindowsError::from(isize::from(e)) == e);
    assert_eq!(u64::from(e), 0xdead_beef_u64);
    assert_eq!(i32::from(e), -559_038_737_i32);
}

#[test]
fn conversion_narrow_widths_truncate() {
    let e = WindowsError::new(0x0001_2345);
    assert_eq!(u16::from(e), 0x2345);
    assert_eq!(u8::from(e), 0x45);
    // The truncation loses the upper bits: the round trip lands elsewhere.
    assert!(WindowsError::from(u16::from(e)) != e);
    assert!(WindowsError::from(u8::from(e)) != e);
    assert!(WindowsError::from(u16::from(e)) == WindowsError::new(0x2345));
    // A code that fits the narrow width survives the round trip.
    let small = WindowsError::new(0x45);
    assert!(WindowsError::from(u8::from(small)) == small);
    assert!(WindowsError::from(u16::from(small)) == small);
    assert!(WindowsError::from(i8::from(small)) == small);
    assert!(WindowsError::from(i16::from(small)) == small);
}

#[test]
fn display_rendering() {
    assert_eq!(WindowsError::new(0).display_text(), "WinAPI Error(0)");
    assert_eq!(WindowsError::new(666).display_text(), "WinAPI Error(666)");
    assert_eq!(WindowsError::new(10).display_text(), "WinAPI Error(10)");
    assert_eq!(
        WindowsError::new(u32::MAX).display_text(),
        "WinAPI Error(4294967295)"
    );
}

#[test]
fn description_idempotent() {
    let e = WindowsError::new(2);
    let reply = facility_reply("The system cannot find the file specified.");
    let first = e.errno_desc(reply.len() as u32, &reply, 0);
    let second = e.errno_desc(reply.len() as u32, &reply, 0);
    assert_eq!(first, second);
    assert_eq!(e.display_text(), e.display_text());
}

#[test]
fn resolve_success_strips_terminator() {
    let reply = facility_reply("X");
    assert_eq!(resolve_message(reply.len() as u32, &reply, 0), "X");
}

#[test]
fn resolve_ignores_trailing_garbage_past_count() {
    // Units beyond the written count are leftovers and must not show up.
    let mut reply = facility_reply("Incorrect function.");
    let written = reply.len() as u32;
    reply.extend_from_slice(&[88u16; 16]);
    assert_eq!(resolve_message(written, &reply, 0), "Incorrect function.");
}

#[test]
fn resolve_rejects_missing_terminator() {
    // Strict policy: a nonzero count whose last unit is not a line feed is
    // untrustworthy and degrades to the placeholder.
    let units: Vec<u16> = "No terminator here".encode_utf16().collect();
    assert_eq!(
        resolve_message(units.len() as u32, &units, 0),
        "Unknown Error."
    );
}

#[test]
fn resolve_rejects_single_unit_reply() {
    let units: Vec<u16> = vec![10];
    assert_eq!(resolve_message(1, &units, 0), "Unknown Error.");
}

#[test]
fn resolve_failure_unknown_cause() {
    let units: Vec<u16> = vec![0; 8];
    assert_eq!(resolve_message(0, &units, 317), "Unknown Error.");
    assert_eq!(resolve_message(0, &units, 0), "Unknown Error.");
}

#[test]
fn resolve_failure_insufficient_buffer_keeps_partial_text() {
    let units: Vec<u16> = "Partial".encode_utf16().collect();
    assert_eq!(
        resolve_message(0, &units, ERROR_INSUFFICIENT_BUFFER),
        "Partial"
    );
}

#[test]
fn resolve_decodes_utf16_lossily() {
    // An unpaired surrogate before the terminator becomes the replacement
    // character rather than failing.
    let units: Vec<u16> = vec![0xd800, 13, 10];
    assert_eq!(resolve_message(3, &units, 0), "\u{fffd}");
}

#[test]
fn format_message_ok_drops_last_two_units() {
    let units = facility_reply("done");
    assert_eq!(format_message_ok(&units), "done");
}

#[test]
fn format_message_error_consults_last_error() {
    let units: Vec<u16> = "text".encode_utf16().collect();
    assert_eq!(
        format_message_error(&units, ERROR_INSUFFICIENT_BUFFER),
        "text"
    );
    assert_eq!(format_message_error(&units, 5), "Unknown Error.");
}
