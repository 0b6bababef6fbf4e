//! Character classification used by the lexer.
//!
//! Each class has a specification function describing exactly which
//! characters belong to it, and an executable function proved to agree with
//! that specification.

use vstd::prelude::*;

verus! {

/// The Unicode white-space code points, as documented for
/// `char::is_whitespace`.
pub open spec fn spec_is_whitespace(unit: char) -> bool {
    let u = unit as u32;
    (9 <= u && u <= 13) || u == 32 || u == 0x85 || u == 0xA0 || u == 0x1680 || (0x2000 <= u && u
        <= 0x200A) || u == 0x2028 || u == 0x2029 || u == 0x202F || u == 0x205F || u == 0x3000
}

/// True if `unit` is a whitespace character, including newlines.
#[verifier::when_used_as_spec(spec_is_whitespace)]
pub fn is_whitespace(unit: char) -> (b: bool)
    ensures
        b == spec_is_whitespace(unit),
{
    let u = unit as u32;
    (9 <= u && u <= 13) || u == 32 || u == 0x85 || u == 0xA0 || u == 0x1680 || (0x2000 <= u && u
        <= 0x200A) || u == 0x2028 || u == 0x2029 || u == 0x202F || u == 0x205F || u == 0x3000
}

/// The end of a line.
pub open spec fn spec_is_eol(unit: char) -> bool {
    unit == '\n'
}

/// Rudimentary check to see if the end of the line has been reached.
#[verifier::when_used_as_spec(spec_is_eol)]
pub fn is_eol(unit: char) -> (b: bool)
    ensures
        b == spec_is_eol(unit),
{
    unit == '\n'
}

/// A decimal digit.
pub open spec fn spec_is_decimal_digit(unit: char) -> bool {
    '0' <= unit && unit <= '9'
}

/// True if `unit` is within '0' and '9'.
#[verifier::when_used_as_spec(spec_is_decimal_digit)]
pub fn is_decimal_digit(unit: char) -> (b: bool)
    ensures
        b == spec_is_decimal_digit(unit),
{
    '0' <= unit && unit <= '9'
}

/// An ASCII letter.
pub open spec fn spec_is_alpha(unit: char) -> bool {
    ('a' <= unit && unit <= 'z') || ('A' <= unit && unit <= 'Z')
}

/// True if `unit` is an ASCII alphabetical character.
#[verifier::when_used_as_spec(spec_is_alpha)]
pub fn is_alpha(unit: char) -> (b: bool)
    ensures
        b == spec_is_alpha(unit),
{
    ('a' <= unit && unit <= 'z') || ('A' <= unit && unit <= 'Z')
}

/// An ASCII letter or decimal digit.
pub open spec fn spec_is_alphanum(unit: char) -> bool {
    spec_is_alpha(unit) || spec_is_decimal_digit(unit)
}

/// True if `unit` is an ASCII alphabetical character or an ASCII decimal
/// digit.
#[verifier::when_used_as_spec(spec_is_alphanum)]
pub fn is_alphanum(unit: char) -> (b: bool)
    ensures
        b == spec_is_alphanum(unit),
{
    is_alpha(unit) || is_decimal_digit(unit)
}

/// A character that can open a name: an ASCII letter or an underscore.
pub open spec fn spec_is_identifier_start(unit: char) -> bool {
    spec_is_alpha(unit) || unit == '_'
}

/// True if `unit` can act as the first character of a name/identifier.
#[verifier::when_used_as_spec(spec_is_identifier_start)]
pub fn is_identifier_start(unit: char) -> (b: bool)
    ensures
        b == spec_is_identifier_start(unit),
{
    is_alpha(unit) || unit == '_'
}

/// A character that can continue a name.
pub open spec fn spec_is_identifier(unit: char) -> bool {
    spec_is_identifier_start(unit) || spec_is_decimal_digit(unit)
}

/// True if `unit` can potentially be used in an identifier.
#[verifier::when_used_as_spec(spec_is_identifier)]
pub fn is_identifier(unit: char) -> (b: bool)
    ensures
        b == spec_is_identifier(unit),
{
    is_identifier_start(unit) || is_decimal_digit(unit)
}

/// A full stop.
pub open spec fn spec_is_fullstop(unit: char) -> bool {
    unit == '.'
}

/// True if `unit` is '.'.
#[verifier::when_used_as_spec(spec_is_fullstop)]
pub fn is_fullstop(unit: char) -> (b: bool)
    ensures
        b == spec_is_fullstop(unit),
{
    unit == '.'
}

/// A character used in one of the operator symbols.
pub open spec fn spec_is_opchar(unit: char) -> bool {
    unit == '+' || unit == '-' || unit == '*' || unit == '/' || unit == '<' || unit == '>' || unit
        == '='
}

/// True if `unit` is a character used in one of the operator symbols.
#[verifier::when_used_as_spec(spec_is_opchar)]
pub fn is_opchar(unit: char) -> (b: bool)
    ensures
        b == spec_is_opchar(unit),
{
    unit == '+' || unit == '-' || unit == '*' || unit == '/' || unit == '<' || unit == '>' || unit
        == '='
}

/// The character that opens a comment.
pub open spec fn spec_is_comment(unit: char) -> bool {
    unit == '#'
}

/// See if `unit` is the character that denotes the start of a comment.
#[verifier::when_used_as_spec(spec_is_comment)]
pub fn is_comment(unit: char) -> (b: bool)
    ensures
        b == spec_is_comment(unit),
{
    unit == '#'
}

/// A bracket character.
pub open spec fn spec_is_bracket(unit: char) -> bool {
    unit == '(' || unit == '[' || unit == '{' || unit == '<' || unit == ')' || unit == ']' || unit
        == '}' || unit == '>'
}

/// See if `unit` is a bracket character.
#[verifier::when_used_as_spec(spec_is_bracket)]
pub fn is_bracket(unit: char) -> (b: bool)
    ensures
        b == spec_is_bracket(unit),
{
    unit == '(' || unit == '[' || unit == '{' || unit == '<' || unit == ')' || unit == ']' || unit
        == '}' || unit == '>'
}

/// A comma separator.
pub open spec fn spec_is_comma(unit: char) -> bool {
    unit == ','
}

/// See if `unit` is a comma separator.
#[verifier::when_used_as_spec(spec_is_comma)]
pub fn is_comma(unit: char) -> (b: bool)
    ensures
        b == spec_is_comma(unit),
{
    unit == ','
}

/// A full stop, in the role of an attribute accessor.
pub open spec fn spec_is_dot(unit: char) -> bool {
    unit == '.'
}

/// See if `unit` is a fullstop.
#[verifier::when_used_as_spec(spec_is_dot)]
pub fn is_dot(unit: char) -> (b: bool)
    ensures
        b == spec_is_dot(unit),
{
    unit == '.'
}

/// A semicolon.
pub open spec fn spec_is_semicolon(unit: char) -> bool {
    unit == ';'
}

/// See if `unit` is a semicolon.
#[verifier::when_used_as_spec(spec_is_semicolon)]
pub fn is_semicolon(unit: char) -> (b: bool)
    ensures
        b == spec_is_semicolon(unit),
{
    unit == ';'
}

} // verus!
