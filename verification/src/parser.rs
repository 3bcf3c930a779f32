//! Parsers: how the text typed in a prompt becomes a value.

use crate::strings::{spec_to_lowercase, str_eq, to_lowercase, to_owned_string};
use vstd::prelude::*;
use vstd::string::StrSliceExecFns;

verus! {

/// Turns the typed text into a value, or refuses it.
pub trait CustomTypeParser<T> {
    /// Whether parsing `input` can give `r`; any result, unless the parser
    /// says more.
    open spec fn spec_parses(&self, input: Seq<char>, r: Result<T, ()>) -> bool {
        true
    }

    /// Parses `input`.
    fn parse(&self, input: &str) -> (r: Result<T, ()>)
        ensures
            self.spec_parses(input@, r),
    ;
}

/// Types whose values can be read from text by their `FromStr` implementation.
pub trait ParseFromStr: Sized {
    /// Whether reading `input` can give `r`.
    spec fn spec_parses_from(input: Seq<char>, r: Result<Self, ()>) -> bool;

    /// Parses `input` with the type's `FromStr` implementation.
    fn parse_from(input: &str) -> (r: Result<Self, ()>)
        ensures
            Self::spec_parses_from(input@, r),
    ;
}

/// The value of a text made of decimal digits only, read from left to right;
/// `None` when it is empty or holds any other character.
pub open spec fn spec_decimal_value(s: Seq<char>) -> Option<int>
    decreases s.len(),
{
    if s.len() == 0 || !('0' as int <= s.last() as int <= '9' as int) {
        None
    } else if s.len() == 1 {
        Some(s.last() as int - '0' as int)
    } else {
        match spec_decimal_value(s.drop_last()) {
            Some(v) => Some(10 * v + (s.last() as int - '0' as int)),
            None => None,
        }
    }
}

/// What `str::parse` reads from `input` for an integer type whose values run
/// from `min` to `max`: an optional `+`, or a `-` when the type has negative
/// values, then decimal digits; `None` when the text is not of that form or
/// the value falls outside the range.
pub open spec fn spec_parse_integer(input: Seq<char>, min: int, max: int) -> Option<int> {
    let negative = input.len() > 0 && input[0] == '-' && min < 0;
    let digits = if input.len() > 0 && (input[0] == '+' || negative) { input.drop_first() } else { input };
    match spec_decimal_value(digits) {
        Some(v) => {
            let x = if negative { -v } else { v };
            if min <= x <= max { Some(x) } else { None }
        },
        None => None,
    }
}

/// The value that `str::parse::<i8>` reads from a text; `Err` when it refuses it.
pub open spec fn spec_parse_i8(input: Seq<char>) -> Result<i8, ()> {
    match spec_parse_integer(input, i8::MIN as int, i8::MAX as int) {
        Some(v) => Ok(v as i8),
        None => Err(()),
    }
}

/// Reads a `i8` with `str::parse`.
///
/// Trusted: std documents the text it reads as an optional sign (`-` for
/// signed types only) followed by decimal digits, the value within the type's
/// range, as [spec_parse_i8] states.
#[verifier::external_body]
fn parse_i8(input: &str) -> (r: Result<i8, ()>)
    ensures
        r == spec_parse_i8(input@),
{
    input.parse::<i8>().map_err(|_| ())
}

impl ParseFromStr for i8 {
    open spec fn spec_parses_from(input: Seq<char>, r: Result<Self, ()>) -> bool {
        r == spec_parse_i8(input)
    }

    fn parse_from(input: &str) -> (r: Result<Self, ()>) {
        parse_i8(input)
    }
}

/// The value that `str::parse::<i16>` reads from a text; `Err` when it refuses it.
pub open spec fn spec_parse_i16(input: Seq<char>) -> Result<i16, ()> {
    match spec_parse_integer(input, i16::MIN as int, i16::MAX as int) {
        Some(v) => Ok(v as i16),
        None => Err(()),
    }
}

/// Reads a `i16` with `str::parse`.
///
/// Trusted: std documents the text it reads as an optional sign (`-` for
/// signed types only) followed by decimal digits, the value within the type's
/// range, as [spec_parse_i16] states.
#[verifier::external_body]
fn parse_i16(input: &str) -> (r: Result<i16, ()>)
    ensures
        r == spec_parse_i16(input@),
{
    input.parse::<i16>().map_err(|_| ())
}

impl ParseFromStr for i16 {
    open spec fn spec_parses_from(input: Seq<char>, r: Result<Self, ()>) -> bool {
        r == spec_parse_i16(input)
    }

    fn parse_from(input: &str) -> (r: Result<Self, ()>) {
        parse_i16(input)
    }
}

/// The value that `str::parse::<i32>` reads from a text; `Err` when it refuses it.
pub open spec fn spec_parse_i32(input: Seq<char>) -> Result<i32, ()> {
    match spec_parse_integer(input, i32::MIN as int, i32::MAX as int) {
        Some(v) => Ok(v as i32),
        None => Err(()),
    }
}

/// Reads a `i32` with `str::parse`.
///
/// Trusted: std documents the text it reads as an optional sign (`-` for
/// signed types only) followed by decimal digits, the value within the type's
/// range, as [spec_parse_i32] states.
#[verifier::external_body]
fn parse_i32(input: &str) -> (r: Result<i32, ()>)
    ensures
        r == spec_parse_i32(input@),
{
    input.parse::<i32>().map_err(|_| ())
}

impl ParseFromStr for i32 {
    open spec fn spec_parses_from(input: Seq<char>, r: Result<Self, ()>) -> bool {
        r == spec_parse_i32(input)
    }

    fn parse_from(input: &str) -> (r: Result<Self, ()>) {
        parse_i32(input)
    }
}

/// The value that `str::parse::<i64>` reads from a text; `Err` when it refuses it.
pub open spec fn spec_parse_i64(input: Seq<char>) -> Result<i64, ()> {
    match spec_parse_integer(input, i64::MIN as int, i64::MAX as int) {
        Some(v) => Ok(v as i64),
        None => Err(()),
    }
}

/// Reads a `i64` with `str::parse`.
///
/// Trusted: std documents the text it reads as an optional sign (`-` for
/// signed types only) followed by decimal digits, the value within the type's
/// range, as [spec_parse_i64] states.
#[verifier::external_body]
fn parse_i64(input: &str) -> (r: Result<i64, ()>)
    ensures
        r == spec_parse_i64(input@),
{
    input.parse::<i64>().map_err(|_| ())
}

impl ParseFromStr for i64 {
    open spec fn spec_parses_from(input: Seq<char>, r: Result<Self, ()>) -> bool {
        r == spec_parse_i64(input)
    }

    fn parse_from(input: &str) -> (r: Result<Self, ()>) {
        parse_i64(input)
    }
}

/// The value that `str::parse::<isize>` reads from a text; `Err` when it refuses it.
pub open spec fn spec_parse_isize(input: Seq<char>) -> Result<isize, ()> {
    match spec_parse_integer(input, isize::MIN as int, isize::MAX as int) {
        Some(v) => Ok(v as isize),
        None => Err(()),
    }
}

/// Reads a `isize` with `str::parse`.
///
/// Trusted: std documents the text it reads as an optional sign (`-` for
/// signed types only) followed by decimal digits, the value within the type's
/// range, as [spec_parse_isize] states.
#[verifier::external_body]
fn parse_isize(input: &str) -> (r: Result<isize, ()>)
    ensures
        r == spec_parse_isize(input@),
{
    input.parse::<isize>().map_err(|_| ())
}

impl ParseFromStr for isize {
    open spec fn spec_parses_from(input: Seq<char>, r: Result<Self, ()>) -> bool {
        r == spec_parse_isize(input)
    }

    fn parse_from(input: &str) -> (r: Result<Self, ()>) {
        parse_isize(input)
    }
}

/// The value that `str::parse::<u8>` reads from a text; `Err` when it refuses it.
pub open spec fn spec_parse_u8(input: Seq<char>) -> Result<u8, ()> {
    match spec_parse_integer(input, u8::MIN as int, u8::MAX as int) {
        Some(v) => Ok(v as u8),
        None => Err(()),
    }
}

/// Reads a `u8` with `str::parse`.
///
/// Trusted: std documents the text it reads as an optional sign (`-` for
/// signed types only) followed by decimal digits, the value within the type's
/// range, as [spec_parse_u8] states.
#[verifier::external_body]
fn parse_u8(input: &str) -> (r: Result<u8, ()>)
    ensures
        r == spec_parse_u8(input@),
{
    input.parse::<u8>().map_err(|_| ())
}

impl ParseFromStr for u8 {
    open spec fn spec_parses_from(input: Seq<char>, r: Result<Self, ()>) -> bool {
        r == spec_parse_u8(input)
    }

    fn parse_from(input: &str) -> (r: Result<Self, ()>) {
        parse_u8(input)
    }
}

/// The value that `str::parse::<u16>` reads from a text; `Err` when it refuses it.
pub open spec fn spec_parse_u16(input: Seq<char>) -> Result<u16, ()> {
    match spec_parse_integer(input, u16::MIN as int, u16::MAX as int) {
        Some(v) => Ok(v as u16),
        None => Err(()),
    }
}

/// Reads a `u16` with `str::parse`.
///
/// Trusted: std documents the text it reads as an optional sign (`-` for
/// signed types only) followed by decimal digits, the value within the type's
/// range, as [spec_parse_u16] states.
#[verifier::external_body]
fn parse_u16(input: &str) -> (r: Result<u16, ()>)
    ensures
        r == spec_parse_u16(input@),
{
    input.parse::<u16>().map_err(|_| ())
}

impl ParseFromStr for u16 {
    open spec fn spec_parses_from(input: Seq<char>, r: Result<Self, ()>) -> bool {
        r == spec_parse_u16(input)
    }

    fn parse_from(input: &str) -> (r: Result<Self, ()>) {
        parse_u16(input)
    }
}

/// The value that `str::parse::<u32>` reads from a text; `Err` when it refuses it.
pub open spec fn spec_parse_u32(input: Seq<char>) -> Result<u32, ()> {
    match spec_parse_integer(input, u32::MIN as int, u32::MAX as int) {
        Some(v) => Ok(v as u32),
        None => Err(()),
    }
}

/// Reads a `u32` with `str::parse`.
///
/// Trusted: std documents the text it reads as an optional sign (`-` for
/// signed types only) followed by decimal digits, the value within the type's
/// range, as [spec_parse_u32] states.
#[verifier::external_body]
fn parse_u32(input: &str) -> (r: Result<u32, ()>)
    ensures
        r == spec_parse_u32(input@),
{
    input.parse::<u32>().map_err(|_| ())
}

impl ParseFromStr for u32 {
    open spec fn spec_parses_from(input: Seq<char>, r: Result<Self, ()>) -> bool {
        r == spec_parse_u32(input)
    }

    fn parse_from(input: &str) -> (r: Result<Self, ()>) {
        parse_u32(input)
    }
}

/// The value that `str::parse::<u64>` reads from a text; `Err` when it refuses it.
pub open spec fn spec_parse_u64(input: Seq<char>) -> Result<u64, ()> {
    match spec_parse_integer(input, u64::MIN as int, u64::MAX as int) {
        Some(v) => Ok(v as u64),
        None => Err(()),
    }
}

/// Reads a `u64` with `str::parse`.
///
/// Trusted: std documents the text it reads as an optional sign (`-` for
/// signed types only) followed by decimal digits, the value within the type's
/// range, as [spec_parse_u64] states.
#[verifier::external_body]
fn parse_u64(input: &str) -> (r: Result<u64, ()>)
    ensures
        r == spec_parse_u64(input@),
{
    input.parse::<u64>().map_err(|_| ())
}

impl ParseFromStr for u64 {
    open spec fn spec_parses_from(input: Seq<char>, r: Result<Self, ()>) -> bool {
        r == spec_parse_u64(input)
    }

    fn parse_from(input: &str) -> (r: Result<Self, ()>) {
        parse_u64(input)
    }
}

/// The value that `str::parse::<usize>` reads from a text; `Err` when it refuses it.
pub open spec fn spec_parse_usize(input: Seq<char>) -> Result<usize, ()> {
    match spec_parse_integer(input, usize::MIN as int, usize::MAX as int) {
        Some(v) => Ok(v as usize),
        None => Err(()),
    }
}

/// Reads a `usize` with `str::parse`.
///
/// Trusted: std documents the text it reads as an optional sign (`-` for
/// signed types only) followed by decimal digits, the value within the type's
/// range, as [spec_parse_usize] states.
#[verifier::external_body]
fn parse_usize(input: &str) -> (r: Result<usize, ()>)
    ensures
        r == spec_parse_usize(input@),
{
    input.parse::<usize>().map_err(|_| ())
}

impl ParseFromStr for usize {
    open spec fn spec_parses_from(input: Seq<char>, r: Result<Self, ()>) -> bool {
        r == spec_parse_usize(input)
    }

    fn parse_from(input: &str) -> (r: Result<Self, ()>) {
        parse_usize(input)
    }
}

/// What `str::parse::<bool>` reads: exactly "true" or "false".
pub open spec fn spec_bool_from_str(input: Seq<char>) -> Result<bool, ()> {
    if input == "true"@ {
        Ok(true)
    } else if input == "false"@ {
        Ok(false)
    } else {
        Err(())
    }
}

/// Reads a `bool` with `str::parse`.
///
/// Trusted: as its documentation says, exactly "true" and "false" are read.
#[verifier::external_body]
fn parse_bool_text(input: &str) -> (r: Result<bool, ()>)
    ensures
        r == spec_bool_from_str(input@),
{
    input.parse::<bool>().map_err(|_| ())
}

impl ParseFromStr for bool {
    open spec fn spec_parses_from(input: Seq<char>, r: Result<Self, ()>) -> bool {
        r == spec_bool_from_str(input)
    }

    fn parse_from(input: &str) -> (r: Result<Self, ()>) {
        parse_bool_text(input)
    }
}

/// What `str::parse::<char>` reads: a text of exactly one character.
pub open spec fn spec_char_from_str(input: Seq<char>) -> Result<char, ()> {
    if input.len() == 1 { Ok(input[0]) } else { Err(()) }
}

/// Reads a `char` with `str::parse`.
///
/// Trusted: as its documentation says, a text of exactly one character is read
/// as that character, and any other is refused.
#[verifier::external_body]
fn parse_char_text(input: &str) -> (r: Result<char, ()>)
    ensures
        r == spec_char_from_str(input@),
{
    input.parse::<char>().map_err(|_| ())
}

impl ParseFromStr for char {
    open spec fn spec_parses_from(input: Seq<char>, r: Result<Self, ()>) -> bool {
        r == spec_char_from_str(input)
    }

    fn parse_from(input: &str) -> (r: Result<Self, ()>) {
        parse_char_text(input)
    }
}

impl ParseFromStr for String {
    open spec fn spec_parses_from(input: Seq<char>, r: Result<Self, ()>) -> bool {
        r matches Ok(s) && s@ == input
    }

    /// A `String` reads every text as itself.
    fn parse_from(input: &str) -> (r: Result<Self, ()>) {
        Ok(to_owned_string(input))
    }
}

/// The default parser of custom types: the type's `FromStr` implementation.
#[derive(Copy, Clone, Debug)]
pub struct FromStrParser;

impl<T: ParseFromStr> CustomTypeParser<T> for FromStrParser {
    open spec fn spec_parses(&self, input: Seq<char>, r: Result<T, ()>) -> bool {
        T::spec_parses_from(input, r)
    }

    fn parse(&self, input: &str) -> (r: Result<T, ()>) {
        T::parse_from(input)
    }
}

/// How many bytes the UTF-8 encoding of `c` takes.
pub open spec fn char_utf8_len(c: char) -> nat {
    if (c as u32) < 0x80 {
        1
    } else if (c as u32) < 0x800 {
        2
    } else if (c as u32) < 0x10000 {
        3
    } else {
        4
    }
}

/// How many bytes the UTF-8 encoding of `s` takes, i.e. the `len` of the string.
pub open spec fn utf8_len(s: Seq<char>) -> nat
    decreases s.len(),
{
    if s.len() == 0 { 0 } else { utf8_len(s.drop_last()) + char_utf8_len(s.last()) }
}

/// Whether the UTF-8 encoding of `s` takes more than `limit` bytes.
pub fn utf8_longer_than(s: &str, limit: usize) -> (r: bool)
    ensures
        r == (utf8_len(s@) > limit),
{
    let n = s.unicode_len();
    let mut total: usize = 0;
    let mut i: usize = 0;
    while i < n
        invariant
            n == s@.len(),
            i <= n,
            total == utf8_len(s@.take(i as int)),
            total <= limit,
        decreases n - i,
    {
        let c = s.get_char(i);
        let code = c as u32;
        let width: usize = if code < 0x80 { 1 } else if code < 0x800 { 2 } else if code < 0x10000 { 3 } else { 4 };
        proof {
            assert(s@.take(i as int + 1).drop_last() =~= s@.take(i as int));
        }
        if width > limit - total {
            proof {
                lemma_utf8_len_prefix(s@, i as int + 1);
            }
            return true;
        }
        total = total + width;
        i = i + 1;
    }
    assert(s@.take(n as int) =~= s@);
    false
}

/// A prefix takes no more bytes than the whole.
pub proof fn lemma_utf8_len_prefix(s: Seq<char>, k: int)
    requires
        0 <= k <= s.len(),
    ensures
        utf8_len(s.take(k)) <= utf8_len(s),
    decreases s.len() - k,
{
    if k < s.len() {
        lemma_utf8_len_prefix(s, k + 1);
        assert(s.take(k + 1).drop_last() =~= s.take(k));
    } else {
        assert(s.take(k) =~= s);
    }
}

/// What the default yes-or-no parser makes of `input`: texts longer than three
/// bytes are refused; otherwise "y" and "yes" are `true` and "n" and "no" are
/// `false`, ignoring case, and anything else is refused.
pub open spec fn spec_parse_bool(input: Seq<char>) -> Result<bool, ()> {
    if utf8_len(input) > 3 {
        Err(())
    } else {
        let lower = spec_to_lowercase(input);
        if lower == "y"@ || lower == "yes"@ {
            Ok(true)
        } else if lower == "n"@ || lower == "no"@ {
            Ok(false)
        } else {
            Err(())
        }
    }
}

/// The default yes-or-no parser ignores case: two answers of at most three
/// bytes that are the same once lower-cased are read alike.
pub proof fn law_bool_parser_ignores_case(a: Seq<char>, b: Seq<char>)
    requires
        utf8_len(a) <= 3,
        utf8_len(b) <= 3,
        spec_to_lowercase(a) == spec_to_lowercase(b),
    ensures
        spec_parse_bool(a) == spec_parse_bool(b),
{
}

/// An answer of at most three bytes is read as yes exactly when it is "y" or
/// "yes" once lower-cased, as no exactly when it is "n" or "no" once
/// lower-cased, and is refused otherwise; a longer answer is always refused.
pub proof fn law_bool_parser_reads_lowercased_answers(input: Seq<char>)
    ensures
        utf8_len(input) <= 3 ==> (spec_parse_bool(input) == Ok::<bool, ()>(true)
            <==> (spec_to_lowercase(input) == "y"@ || spec_to_lowercase(input) == "yes"@)),
        utf8_len(input) <= 3 ==> (spec_parse_bool(input) == Ok::<bool, ()>(false)
            <==> (spec_to_lowercase(input) == "n"@ || spec_to_lowercase(input) == "no"@)),
        utf8_len(input) > 3 ==> spec_parse_bool(input) is Err,
{
    reveal_strlit("y");
    reveal_strlit("yes");
    reveal_strlit("n");
    reveal_strlit("no");
    assert("n"@[0] != "y"@[0]);
    assert("no"@[0] != "y"@[0]);
    assert("n"@.len() != "yes"@.len() && "no"@.len() != "yes"@.len());
}

/// The default yes-or-no parser.
#[derive(Copy, Clone, Debug)]
pub struct DefaultBoolParser;

impl DefaultBoolParser {
    /// Parses a yes-or-no answer.
    pub fn parse_bool(&self, input: &str) -> (r: Result<bool, ()>)
        ensures
            r == spec_parse_bool(input@),
    {
        if utf8_longer_than(input, 3) {
            return Err(());
        }
        let ans = to_lowercase(input);
        let ans = ans.as_str();
        if str_eq(ans, "y") || str_eq(ans, "yes") {
            Ok(true)
        } else if str_eq(ans, "n") || str_eq(ans, "no") {
            Ok(false)
        } else {
            Err(())
        }
    }
}

impl CustomTypeParser<bool> for DefaultBoolParser {
    open spec fn spec_parses(&self, input: Seq<char>, r: Result<bool, ()>) -> bool {
        r == spec_parse_bool(input)
    }

    fn parse(&self, input: &str) -> (r: Result<bool, ()>)
        ensures
            r == spec_parse_bool(input@),
    {
        self.parse_bool(input)
    }
}

} // verus!
