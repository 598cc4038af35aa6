//! The wording of what a sweep says.

use vstd::prelude::*;

verus! {

broadcast use vstd::string::group_string_axioms;

/// The complaint about a `find` that is no regular expression.
pub open spec fn invalid_pattern_text(find: Seq<char>) -> Seq<char> {
    "\""@ + find + "\" is not a valid regular expression."@
}

/// The complaint about an empty `find` in literal mode.
pub open spec fn empty_find_text() -> Seq<char> {
    "The string to find is empty."@
}

pub fn invalid_pattern(find: &str) -> (m: String)
    ensures
        m@ == invalid_pattern_text(find@),
{
    let mut m = String::from_str("\"");
    m.append(find);
    m.append("\" is not a valid regular expression.");
    m
}

pub fn empty_find() -> (m: String)
    ensures
        m@ == empty_find_text(),
{
    String::from_str("The string to find is empty.")
}

/// The complaint about bytes whose encoding is not known.
pub open spec fn undetected_text(path: Seq<char>) -> Seq<char> {
    "Failed on detecting the encoding of \""@ + path + "\"."@
}

/// The complaint about bytes that their encoding does not accept, with the
/// decoder's reason.
pub open spec fn undecodable_text(path: Seq<char>, why: Seq<char>) -> Seq<char> {
    "Failed on decoding \""@ + path + "\":\n"@ + why
}

/// The complaint about a text that its encoding cannot hold, with the
/// encoder's reason.
pub open spec fn unencodable_text(path: Seq<char>, why: Seq<char>) -> Seq<char> {
    "Failed on re-encoding \""@ + path + "\":\n"@ + why
}

pub fn undetected(path: &str) -> (m: String)
    ensures
        m@ == undetected_text(path@),
{
    let mut m = String::from_str("Failed on detecting the encoding of \"");
    m.append(path);
    m.append("\".");
    m
}

pub fn undecodable(path: &str, why: &str) -> (m: String)
    ensures
        m@ == undecodable_text(path@, why@),
{
    let mut m = String::from_str("Failed on decoding \"");
    m.append(path);
    m.append("\":\n");
    m.append(why);
    m
}

pub fn unencodable(path: &str, why: &str) -> (m: String)
    ensures
        m@ == unencodable_text(path@, why@),
{
    let mut m = String::from_str("Failed on re-encoding \"");
    m.append(path);
    m.append("\":\n");
    m.append(why);
    m
}

/// The decimal digit for a number below ten.
pub open spec fn digit_char(d: nat) -> char {
    if d == 0 {
        '0'
    } else if d == 1 {
        '1'
    } else if d == 2 {
        '2'
    } else if d == 3 {
        '3'
    } else if d == 4 {
        '4'
    } else if d == 5 {
        '5'
    } else if d == 6 {
        '6'
    } else if d == 7 {
        '7'
    } else if d == 8 {
        '8'
    } else {
        '9'
    }
}

/// A number in decimal digits, without leading zeros.
pub open spec fn decimal_text(n: nat) -> Seq<char>
    decreases n,
{
    if n < 10 {
        seq![digit_char(n)]
    } else {
        decimal_text(n / 10).push(digit_char(n % 10))
    }
}

fn digit(d: usize) -> (c: char)
    requires
        d < 10,
    ensures
        c == digit_char(d as nat),
{
    if d == 0 {
        '0'
    } else if d == 1 {
        '1'
    } else if d == 2 {
        '2'
    } else if d == 3 {
        '3'
    } else if d == 4 {
        '4'
    } else if d == 5 {
        '5'
    } else if d == 6 {
        '6'
    } else if d == 7 {
        '7'
    } else if d == 8 {
        '8'
    } else {
        '9'
    }
}

/// A number in decimal digits.
pub fn decimal(n: usize) -> (s: String)
    ensures
        s@ == decimal_text(n as nat),
    decreases n,
{
    if n < 10 {
        let mut s = String::new();
        s.push(digit(n));
        assert(s@ =~= seq![digit_char(n as nat)]);
        s
    } else {
        let mut s = decimal(n / 10);
        s.push(digit(n % 10));
        s
    }
}

/// The first line of what is said about an entry.
pub open spec fn header_text(path: Seq<char>) -> Seq<char> {
    path + ":\n"@
}

/// The line that tells of a new name.
pub open spec fn renamed_text(to: Seq<char>) -> Seq<char> {
    "   ·Renamed to \""@ + to + "\".\n"@
}

/// The line that tells of replaced matches.
pub open spec fn replaced_text(count: nat) -> Seq<char> {
    "   ·Replaced "@ + decimal_text(count) + " matches.\n"@
}

/// The line that tells why an entry was not renamed.
pub open spec fn unnamed_text(why: Seq<char>) -> Seq<char> {
    "   ·"@ + why + "\n"@
}

/// What is said of a file that was left alone, after the reason.
pub open spec fn skipped_text(why: Seq<char>) -> Seq<char> {
    why + "   ·Not a regular text file, skipped.\n"@
}

/// The complaint about a path without a last component.
pub open spec fn no_name_text() -> Seq<char> {
    "Failed to get a file name."@
}

/// The complaint about a rename that the system refused.
pub open spec fn rename_failed_text(from: Seq<char>, to: Seq<char>) -> Seq<char> {
    "Failed on renaming \""@ + from + "\" to \""@ + to + "\""@
}

/// The complaint about a file that could not be opened, with the system's
/// reason.
pub open spec fn open_failed_text(path: Seq<char>, why: Seq<char>) -> Seq<char> {
    "Failed on openning \""@ + path + "\":\n"@ + why
}

/// The complaint about a file that could not be read, with the system's
/// reason.
pub open spec fn read_failed_text(path: Seq<char>, why: Seq<char>) -> Seq<char> {
    "Failed on reading \""@ + path + "\":\n"@ + why
}

/// The complaint about a file that could not be written.
pub open spec fn write_failed_text(path: Seq<char>) -> Seq<char> {
    "Failed on writing \""@ + path + "\"."@
}

/// The complaint about an answer that was not asked for.
pub open spec fn out_of_turn_text() -> Seq<char> {
    "An answer came that no question asked for."@
}

pub fn header(path: &str) -> (m: String)
    ensures
        m@ == header_text(path@),
{
    let mut m = String::from_str(path);
    m.append(":\n");
    m
}

pub fn renamed(to: &str) -> (m: String)
    ensures
        m@ == renamed_text(to@),
{
    let mut m = String::from_str("   ·Renamed to \"");
    m.append(to);
    m.append("\".\n");
    m
}

pub fn replaced(count: usize) -> (m: String)
    ensures
        m@ == replaced_text(count as nat),
{
    let mut m = String::from_str("   ·Replaced ");
    let digits = decimal(count);
    m.append(digits.as_str());
    m.append(" matches.\n");
    m
}

pub fn unnamed(why: &str) -> (m: String)
    ensures
        m@ == unnamed_text(why@),
{
    let mut m = String::from_str("   ·");
    m.append(why);
    m.append("\n");
    m
}

pub fn skipped(why: &str) -> (m: String)
    ensures
        m@ == skipped_text(why@),
{
    let mut m = String::from_str(why);
    m.append("   ·Not a regular text file, skipped.\n");
    m
}

pub fn no_name() -> (m: String)
    ensures
        m@ == no_name_text(),
{
    String::from_str("Failed to get a file name.")
}

pub fn rename_failed(from: &str, to: &str) -> (m: String)
    ensures
        m@ == rename_failed_text(from@, to@),
{
    let mut m = String::from_str("Failed on renaming \"");
    m.append(from);
    m.append("\" to \"");
    m.append(to);
    m.append("\"");
    m
}

pub fn open_failed(path: &str, why: &str) -> (m: String)
    ensures
        m@ == open_failed_text(path@, why@),
{
    let mut m = String::from_str("Failed on openning \"");
    m.append(path);
    m.append("\":\n");
    m.append(why);
    m
}

pub fn read_failed(path: &str, why: &str) -> (m: String)
    ensures
        m@ == read_failed_text(path@, why@),
{
    let mut m = String::from_str("Failed on reading \"");
    m.append(path);
    m.append("\":\n");
    m.append(why);
    m
}

pub fn write_failed(path: &str) -> (m: String)
    ensures
        m@ == write_failed_text(path@),
{
    let mut m = String::from_str("Failed on writing \"");
    m.append(path);
    m.append("\".");
    m
}

pub fn out_of_turn() -> (m: String)
    ensures
        m@ == out_of_turn_text(),
{
    String::from_str("An answer came that no question asked for.")
}

} // verus!
