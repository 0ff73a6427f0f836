//! A typed wrapper around a Windows API error code.
//!
//! [`WindowsError`] carries an unsigned 32-bit code; every value, including
//! zero ("success"), is a legitimate code. It compares equal to other errors
//! and to bare integers of every primitive width by code, converts to and
//! from those widths (widening reinterprets the bit pattern as unsigned,
//! narrowing truncates), and renders as `WinAPI Error(<decimal code>)`.

use vstd::prelude::*;
use vstd::std_specs::cmp::PartialEqSpec;
use vstd::std_specs::convert::FromSpec;
use crate::decimal::{spec_decimal, u32_decimal};
use crate::resolver::{resolve_message, resolved_text};

verus! {

/// A Windows API error code. Code 0 means "success" in OS convention.
#[derive(Clone, Copy)]
pub struct WindowsError {
    code: u32,
}

impl View for WindowsError {
    type V = u32;

    closed spec fn view(&self) -> u32 {
        self.code
    }
}

impl WindowsError {
    /// The error carrying the given code, at the specification level.
    pub closed spec fn spec_new(errno: u32) -> WindowsError {
        WindowsError { code: errno }
    }

    /// Constructs a new error. Every 32-bit value is a valid code.
    pub fn new(errno: u32) -> (r: WindowsError)
        ensures
            r == WindowsError::spec_new(errno),
            r@ == errno,
    {
        WindowsError { code: errno }
    }

    /// Returns the underlying error code.
    pub fn errno(&self) -> (r: u32)
        ensures
            r == self@,
    {
        self.code
    }

    /// Returns the description of the underlying error code, given the reply
    /// of the host message-formatting facility.
    ///
    /// The caller performs the facility call for [`Self::errno`] — with the
    /// fixed flags, language id 0 and the fixed buffer capacity of
    /// [`crate::resolver`] — and hands over the written count, the buffer,
    /// and the last-error value read right after the call. The description
    /// is a pure function of that reply, so asking twice for one reply
    /// yields one string.
    pub fn errno_desc(&self, written: u32, buffer: &[u16], last_error: u32) -> (r: String)
        requires
            written <= buffer@.len(),
        ensures
            r@ == resolved_text(written, buffer@, last_error),
    {
        resolve_message(written, buffer, last_error)
    }

    /// Renders the error for logs and diagnostics: `WinAPI Error(<decimal code>)`.
    pub fn display_text(&self) -> (r: String)
        ensures
            r@ == display_text_of(*self),
    {
        let mut s = String::from_str("WinAPI Error(");
        let num = u32_decimal(self.code);
        s.append(num.as_str());
        s.append(")");
        s
    }
}

/// The textual rendering of an error: `WinAPI Error(<decimal code>)`.
pub open spec fn display_text_of(e: WindowsError) -> Seq<char> {
    "WinAPI Error("@ + spec_decimal(e@ as nat) + ")"@
}

impl PartialEq for WindowsError {
    fn eq(&self, right: &WindowsError) -> (r: bool) {
        self.code == right.code
    }

    fn ne(&self, right: &WindowsError) -> (r: bool) {
        self.code != right.code
    }
}

impl vstd::std_specs::cmp::PartialEqSpecImpl for WindowsError {
    open spec fn obeys_eq_spec() -> bool {
        true
    }

    open spec fn eq_spec(&self, other: &WindowsError) -> bool {
        self@ == other@
    }
}

impl PartialEq<u32> for WindowsError {
    fn eq(&self, right: &u32) -> (r: bool) {
        self.code == *right
    }

    fn ne(&self, right: &u32) -> (r: bool) {
        self.code != *right
    }
}

impl vstd::std_specs::cmp::PartialEqSpecImpl<u32> for WindowsError {
    open spec fn obeys_eq_spec() -> bool {
        true
    }

    open spec fn eq_spec(&self, other: &u32) -> bool {
        self@ == *other
    }
}

impl From<u32> for WindowsError {
    fn from(num: u32) -> (r: WindowsError) {
        WindowsError { code: num }
    }
}

impl vstd::std_specs::convert::FromSpecImpl<u32> for WindowsError {
    open spec fn obeys_from_spec() -> bool {
        true
    }

    open spec fn from_spec(v: u32) -> WindowsError {
        WindowsError::spec_new(v)
    }
}

impl From<WindowsError> for u32 {
    fn from(num: WindowsError) -> (r: u32) {
        num.code
    }
}

impl vstd::std_specs::convert::FromSpecImpl<WindowsError> for u32 {
    open spec fn obeys_from_spec() -> bool {
        true
    }

    open spec fn from_spec(v: WindowsError) -> u32 {
        v@
    }
}

impl PartialEq<u8> for WindowsError {
    fn eq(&self, right: &u8) -> (r: bool) {
        self.code == *right as u32
    }

    fn ne(&self, right: &u8) -> (r: bool) {
        self.code != *right as u32
    }
}

impl vstd::std_specs::cmp::PartialEqSpecImpl<u8> for WindowsError {
    open spec fn obeys_eq_spec() -> bool {
        true
    }

    open spec fn eq_spec(&self, other: &u8) -> bool {
        self@ == *other as u32
    }
}

impl From<u8> for WindowsError {
    fn from(num: u8) -> (r: WindowsError) {
        WindowsError { code: num as u32 }
    }
}

impl vstd::std_specs::convert::FromSpecImpl<u8> for WindowsError {
    open spec fn obeys_from_spec() -> bool {
        true
    }

    open spec fn from_spec(v: u8) -> WindowsError {
        WindowsError::spec_new(v as u32)
    }
}

impl From<WindowsError> for u8 {
    fn from(num: WindowsError) -> (r: u8) {
        num.code as u8
    }
}

impl vstd::std_specs::convert::FromSpecImpl<WindowsError> for u8 {
    open spec fn obeys_from_spec() -> bool {
        true
    }

    open spec fn from_spec(v: WindowsError) -> u8 {
        v@ as u8
    }
}

impl PartialEq<u16> for WindowsError {
    fn eq(&self, right: &u16) -> (r: bool) {
        self.code == *right as u32
    }

    fn ne(&self, right: &u16) -> (r: bool) {
        self.code != *right as u32
    }
}

impl vstd::std_specs::cmp::PartialEqSpecImpl<u16> for WindowsError {
    open spec fn obeys_eq_spec() -> bool {
        true
    }

    open spec fn eq_spec(&self, other: &u16) -> bool {
        self@ == *other as u32
    }
}

impl From<u16> for WindowsError {
    fn from(num: u16) -> (r: WindowsError) {
        WindowsError { code: num as u32 }
    }
}

impl vstd::std_specs::convert::FromSpecImpl<u16> for WindowsError {
    open spec fn obeys_from_spec() -> bool {
        true
    }

    open spec fn from_spec(v: u16) -> WindowsError {
        WindowsError::spec_new(v as u32)
    }
}

impl From<WindowsError> for u16 {
    fn from(num: WindowsError) -> (r: u16) {
        num.code as u16
    }
}

impl vstd::std_specs::convert::FromSpecImpl<WindowsError> for u16 {
    open spec fn obeys_from_spec() -> bool {
        true
    }

    open spec fn from_spec(v: WindowsError) -> u16 {
        v@ as u16
    }
}

impl PartialEq<u64> for WindowsError {
    fn eq(&self, right: &u64) -> (r: bool) {
        self.code == *right as u32
    }

    fn ne(&self, right: &u64) -> (r: bool) {
        self.code != *right as u32
    }
}

impl vstd::std_specs::cmp::PartialEqSpecImpl<u64> for WindowsError {
    open spec fn obeys_eq_spec() -> bool {
        true
    }

    open spec fn eq_spec(&self, other: &u64) -> bool {
        self@ == *other as u32
    }
}

impl From<u64> for WindowsError {
    fn from(num: u64) -> (r: WindowsError) {
        WindowsError { code: num as u32 }
    }
}

impl vstd::std_specs::convert::FromSpecImpl<u64> for WindowsError {
    open spec fn obeys_from_spec() -> bool {
        true
    }

    open spec fn from_spec(v: u64) -> WindowsError {
        WindowsError::spec_new(v as u32)
    }
}

impl From<WindowsError> for u64 {
    fn from(num: WindowsError) -> (r: u64) {
        num.code as u64
    }
}

impl vstd::std_specs::convert::FromSpecImpl<WindowsError> for u64 {
    open spec fn obeys_from_spec() -> bool {
        true
    }

    open spec fn from_spec(v: WindowsError) -> u64 {
        v@ as u64
    }
}

impl PartialEq<usize> for WindowsError {
    fn eq(&self, right: &usize) -> (r: bool) {
        self.code == *right as u32
    }

    fn ne(&self, right: &usize) -> (r: bool) {
        self.code != *right as u32
    }
}

impl vstd::std_specs::cmp::PartialEqSpecImpl<usize> for WindowsError {
    open spec fn obeys_eq_spec() -> bool {
        true
    }

    open spec fn eq_spec(&self, other: &usize) -> bool {
        self@ == *other as u32
    }
}

impl From<usize> for WindowsError {
    fn from(num: usize) -> (r: WindowsError) {
        WindowsError { code: num as u32 }
    }
}

impl vstd::std_specs::convert::FromSpecImpl<usize> for WindowsError {
    open spec fn obeys_from_spec() -> bool {
        true
    }

    open spec fn from_spec(v: usize) -> WindowsError {
        WindowsError::spec_new(v as u32)
    }
}

impl From<WindowsError> for usize {
    fn from(num: WindowsError) -> (r: usize) {
        num.code as usize
    }
}

impl vstd::std_specs::convert::FromSpecImpl<WindowsError> for usize {
    open spec fn obeys_from_spec() -> bool {
        true
    }

    open spec fn from_spec(v: WindowsError) -> usize {
        v@ as usize
    }
}

impl PartialEq<i8> for WindowsError {
    fn eq(&self, right: &i8) -> (r: bool) {
        self.code == *right as u32
    }

    fn ne(&self, right: &i8) -> (r: bool) {
        self.code != *right as u32
    }
}

impl vstd::std_specs::cmp::PartialEqSpecImpl<i8> for WindowsError {
    open spec fn obeys_eq_spec() -> bool {
        true
    }

    open spec fn eq_spec(&self, other: &i8) -> bool {
        self@ == *other as u32
    }
}

impl From<i8> for WindowsError {
    fn from(num: i8) -> (r: WindowsError) {
        WindowsError { code: num as u32 }
    }
}

impl vstd::std_specs::convert::FromSpecImpl<i8> for WindowsError {
    open spec fn obeys_from_spec() -> bool {
        true
    }

    open spec fn from_spec(v: i8) -> WindowsError {
        WindowsError::spec_new(v as u32)
    }
}

impl From<WindowsError> for i8 {
    fn from(num: WindowsError) -> (r: i8) {
        num.code as i8
    }
}

impl vstd::std_specs::convert::FromSpecImpl<WindowsError> for i8 {
    open spec fn obeys_from_spec() -> bool {
        true
    }

    open spec fn from_spec(v: WindowsError) -> i8 {
        v@ as i8
    }
}

impl PartialEq<i16> for WindowsError {
    fn eq(&self, right: &i16) -> (r: bool) {
        self.code == *right as u32
    }

    fn ne(&self, right: &i16) -> (r: bool) {
        self.code != *right as u32
    }
}

impl vstd::std_specs::cmp::PartialEqSpecImpl<i16> for WindowsError {
    open spec fn obeys_eq_spec() -> bool {
        true
    }

    open spec fn eq_spec(&self, other: &i16) -> bool {
        self@ == *other as u32
    }
}

impl From<i16> for WindowsError {
    fn from(num: i16) -> (r: WindowsError) {
        WindowsError { code: num as u32 }
    }
}

impl vstd::std_specs::convert::FromSpecImpl<i16> for WindowsError {
    open spec fn obeys_from_spec() -> bool {
        true
    }

    open spec fn from_spec(v: i16) -> WindowsError {
        WindowsError::spec_new(v as u32)
    }
}

impl From<WindowsError> for i16 {
    fn from(num: WindowsError) -> (r: i16) {
        num.code as i16
    }
}

impl vstd::std_specs::convert::FromSpecImpl<WindowsError> for i16 {
    open spec fn obeys_from_spec() -> bool {
        true
    }

    open spec fn from_spec(v: WindowsError) -> i16 {
        v@ as i16
    }
}

impl PartialEq<i32> for WindowsError {
    fn eq(&self, right: &i32) -> (r: bool) {
        self.code == *right as u32
    }

    fn ne(&self, right: &i32) -> (r: bool) {
        self.code != *right as u32
    }
}

impl vstd::std_specs::cmp::PartialEqSpecImpl<i32> for WindowsError {
    open spec fn obeys_eq_spec() -> bool {
        true
    }

    open spec fn eq_spec(&self, other: &i32) -> bool {
        self@ == *other as u32
    }
}

impl From<i32> for WindowsError {
    fn from(num: i32) -> (r: WindowsError) {
        WindowsError { code: num as u32 }
    }
}

impl vstd::std_specs::convert::FromSpecImpl<i32> for WindowsError {
    open spec fn obeys_from_spec() -> bool {
        true
    }

    open spec fn from_spec(v: i32) -> WindowsError {
        WindowsError::spec_new(v as u32)
    }
}

impl From<WindowsError> for i32 {
    fn from(num: WindowsError) -> (r: i32) {
        num.code as i32
    }
}

impl vstd::std_specs::convert::FromSpecImpl<WindowsError> for i32 {
    open spec fn obeys_from_spec() -> bool {
        true
    }

    open spec fn from_spec(v: WindowsError) -> i32 {
        v@ as i32
    }
}

impl PartialEq<i64> for WindowsError {
    fn eq(&self, right: &i64) -> (r: bool) {
        self.code == *right as u32
    }

    fn ne(&self, right: &i64) -> (r: bool) {
        self.code != *right as u32
    }
}

impl vstd::std_specs::cmp::PartialEqSpecImpl<i64> for WindowsError {
    open spec fn obeys_eq_spec() -> bool {
        true
    }

    open spec fn eq_spec(&self, other: &i64) -> bool {
        self@ == *other as u32
    }
}

impl From<i64> for WindowsError {
    fn from(num: i64) -> (r: WindowsError) {
        WindowsError { code: num as u32 }
    }
}

impl vstd::std_specs::convert::FromSpecImpl<i64> for WindowsError {
    open spec fn obeys_from_spec() -> bool {
        true
    }

    open spec fn from_spec(v: i64) -> WindowsError {
        WindowsError::spec_new(v as u32)
    }
}

impl From<WindowsError> for i64 {
    fn from(num: WindowsError) -> (r: i64) {
        num.code as i64
    }
}

impl vstd::std_specs::convert::FromSpecImpl<WindowsError> for i64 {
    open spec fn obeys_from_spec() -> bool {
        true
    }

    open spec fn from_spec(v: WindowsError) -> i64 {
        v@ as i64
    }
}

impl PartialEq<isize> for WindowsError {
    fn eq(&self, right: &isize) -> (r: bool) {
        self.code == *right as u32
    }

    fn ne(&self, right: &isize) -> (r: bool) {
        self.code != *right as u32
    }
}

impl vstd::std_specs::cmp::PartialEqSpecImpl<isize> for WindowsError {
    open spec fn obeys_eq_spec() -> bool {
        true
    }

    open spec fn eq_spec(&self, other: &isize) -> bool {
        self@ == *other as u32
    }
}

impl From<isize> for WindowsError {
    fn from(num: isize) -> (r: WindowsError) {
        WindowsError { code: num as u32 }
    }
}

impl vstd::std_specs::convert::FromSpecImpl<isize> for WindowsError {
    open spec fn obeys_from_spec() -> bool {
        true
    }

    open spec fn from_spec(v: isize) -> WindowsError {
        WindowsError::spec_new(v as u32)
    }
}

impl From<WindowsError> for isize {
    fn from(num: WindowsError) -> (r: isize) {
        num.code as isize
    }
}

impl vstd::std_specs::convert::FromSpecImpl<WindowsError> for isize {
    open spec fn obeys_from_spec() -> bool {
        true
    }

    open spec fn from_spec(v: WindowsError) -> isize {
        v@ as isize
    }
}

/// Law: constructing an error from a code and reading the code back yields
/// the same code, for every 32-bit value.
pub proof fn lemma_new_preserves_code(c: u32)
    ensures
        WindowsError::spec_new(c)@ == c,
{
}

/// Law: distinct codes give unequal errors, in either order; inequality is
/// the negation of equality.
pub proof fn lemma_zero_one_unequal()
    ensures
        !WindowsError::spec_new(0).eq_spec(&WindowsError::spec_new(1)),
        !WindowsError::spec_new(1).eq_spec(&WindowsError::spec_new(0)),
{
}

/// Law: an error built from a `u8` compares equal to that integer under the
/// cross-type equality (the integer's bit pattern, reinterpreted as unsigned
/// and brought to 32 bits, is the code both sides compare).
pub proof fn lemma_eq_code_u8(v: u8)
    ensures
        WindowsError::spec_new(v as u32).eq_spec(&v),
{
}

/// Law: an error built from a `u16` compares equal to that integer under the
/// cross-type equality (the integer's bit pattern, reinterpreted as unsigned
/// and brought to 32 bits, is the code both sides compare).
pub proof fn lemma_eq_code_u16(v: u16)
    ensures
        WindowsError::spec_new(v as u32).eq_spec(&v),
{
}

/// Law: an error built from a `u32` compares equal to that integer under the
/// cross-type equality (the integer's bit pattern, reinterpreted as unsigned
/// and brought to 32 bits, is the code both sides compare).
pub proof fn lemma_eq_code_u32(v: u32)
    ensures
        WindowsError::spec_new(v as u32).eq_spec(&v),
{
}

/// Law: an error built from a `u64` compares equal to that integer under the
/// cross-type equality (the integer's bit pattern, reinterpreted as unsigned
/// and brought to 32 bits, is the code both sides compare).
pub proof fn lemma_eq_code_u64(v: u64)
    ensures
        WindowsError::spec_new(v as u32).eq_spec(&v),
{
}

/// Law: an error built from a `usize` compares equal to that integer under the
/// cross-type equality (the integer's bit pattern, reinterpreted as unsigned
/// and brought to 32 bits, is the code both sides compare).
pub proof fn lemma_eq_code_usize(v: usize)
    ensures
        WindowsError::spec_new(v as u32).eq_spec(&v),
{
}

/// Law: an error built from an `i8` compares equal to that integer under the
/// cross-type equality (the integer's bit pattern, reinterpreted as unsigned
/// and brought to 32 bits, is the code both sides compare).
pub proof fn lemma_eq_code_i8(v: i8)
    ensures
        WindowsError::spec_new(v as u32).eq_spec(&v),
{
}

/// Law: an error built from an `i16` compares equal to that integer under the
/// cross-type equality (the integer's bit pattern, reinterpreted as unsigned
/// and brought to 32 bits, is the code both sides compare).
pub proof fn lemma_eq_code_i16(v: i16)
    ensures
        WindowsError::spec_new(v as u32).eq_spec(&v),
{
}

/// Law: an error built from an `i32` compares equal to that integer under the
/// cross-type equality (the integer's bit pattern, reinterpreted as unsigned
/// and brought to 32 bits, is the code both sides compare).
pub proof fn lemma_eq_code_i32(v: i32)
    ensures
        WindowsError::spec_new(v as u32).eq_spec(&v),
{
}

/// Law: an error built from an `i64` compares equal to that integer under the
/// cross-type equality (the integer's bit pattern, reinterpreted as unsigned
/// and brought to 32 bits, is the code both sides compare).
pub proof fn lemma_eq_code_i64(v: i64)
    ensures
        WindowsError::spec_new(v as u32).eq_spec(&v),
{
}

/// Law: an error built from an `isize` compares equal to that integer under the
/// cross-type equality (the integer's bit pattern, reinterpreted as unsigned
/// and brought to 32 bits, is the code both sides compare).
pub proof fn lemma_eq_code_isize(v: isize)
    ensures
        WindowsError::spec_new(v as u32).eq_spec(&v),
{
}

/// Law: converting an error to `u32` (a width of at least 32 bits) and back
/// preserves the code.
pub proof fn lemma_round_trip_u32(e: WindowsError)
    ensures
        <WindowsError as FromSpec<u32>>::from_spec(<u32 as FromSpec<WindowsError>>::from_spec(e)) == e,
{
}

/// Law: converting an error to `u64` (a width of at least 32 bits) and back
/// preserves the code.
pub proof fn lemma_round_trip_u64(e: WindowsError)
    ensures
        <WindowsError as FromSpec<u64>>::from_spec(<u64 as FromSpec<WindowsError>>::from_spec(e)) == e,
{
}

/// Law: converting an error to `usize` (a width of at least 32 bits) and back
/// preserves the code.
pub proof fn lemma_round_trip_usize(e: WindowsError)
    ensures
        <WindowsError as FromSpec<usize>>::from_spec(<usize as FromSpec<WindowsError>>::from_spec(e)) == e,
{
}

/// Law: converting an error to `i32` (a width of at least 32 bits) and back
/// preserves the code.
pub proof fn lemma_round_trip_i32(e: WindowsError)
    ensures
        <WindowsError as FromSpec<i32>>::from_spec(<i32 as FromSpec<WindowsError>>::from_spec(e)) == e,
{
    let c = e@;
    assert(((c as i32) as u32) == c) by (bit_vector);
}

/// Law: converting an error to `i64` (a width of at least 32 bits) and back
/// preserves the code.
pub proof fn lemma_round_trip_i64(e: WindowsError)
    ensures
        <WindowsError as FromSpec<i64>>::from_spec(<i64 as FromSpec<WindowsError>>::from_spec(e)) == e,
{
}

/// Law: converting an error to `isize` (a width of at least 32 bits) and back
/// preserves the code.
pub proof fn lemma_round_trip_isize(e: WindowsError)
    ensures
        <WindowsError as FromSpec<isize>>::from_spec(<isize as FromSpec<WindowsError>>::from_spec(e)) == e,
{
    let c = e@;
    assert(((c as isize) as u32) == c) by (bit_vector);
}

/// Law: converting an error to the narrower `u8` and back preserves the code
/// only when the code fits; wider codes are truncated.
pub proof fn lemma_round_trip_u8(e: WindowsError)
    requires
        e@ <= 0xff,
    ensures
        <WindowsError as FromSpec<u8>>::from_spec(<u8 as FromSpec<WindowsError>>::from_spec(e)) == e,
{
}

/// Law: converting an error to the narrower `u16` and back preserves the code
/// only when the code fits; wider codes are truncated.
pub proof fn lemma_round_trip_u16(e: WindowsError)
    requires
        e@ <= 0xffff,
    ensures
        <WindowsError as FromSpec<u16>>::from_spec(<u16 as FromSpec<WindowsError>>::from_spec(e)) == e,
{
}

/// Law: converting an error to the narrower `i8` and back preserves the code
/// only when the code fits; wider codes are truncated.
pub proof fn lemma_round_trip_i8(e: WindowsError)
    requires
        e@ <= 0x7f,
    ensures
        <WindowsError as FromSpec<i8>>::from_spec(<i8 as FromSpec<WindowsError>>::from_spec(e)) == e,
{
}

/// Law: converting an error to the narrower `i16` and back preserves the code
/// only when the code fits; wider codes are truncated.
pub proof fn lemma_round_trip_i16(e: WindowsError)
    requires
        e@ <= 0x7fff,
    ensures
        <WindowsError as FromSpec<i16>>::from_spec(<i16 as FromSpec<WindowsError>>::from_spec(e)) == e,
{
}

} // verus!
