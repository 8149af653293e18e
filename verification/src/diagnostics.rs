//! The messages that diagnostics are shown with.
use vstd::prelude::*;
use crate::base::{ErrorKind, Expectation, ParseError, push_char, string_from, string_of};

verus! {

/// The text that a diagnostic covers, when its span lies inside the text.
pub open spec fn covered_text(e: ParseError, s: Seq<char>) -> Seq<char> {
    if e.start <= e.end <= s.len() {
        s.subrange(e.start as int, e.end as int)
    } else {
        Seq::empty()
    }
}

/// What stands where a diagnostic starts: the character there, quoted, or
/// the end of the text.
pub open spec fn found_text(e: ParseError, s: Seq<char>) -> Seq<char> {
    if e.start < s.len() {
        "'"@ + seq![s[e.start as int]] + "'"@
    } else {
        "end of input"@
    }
}

/// What was expected, in words.
pub open spec fn expectation_text(x: Expectation) -> Seq<char> {
    match x {
        Expectation::EndOfInput => "end of input"@,
        Expectation::Digit => "digit"@,
        Expectation::JsonKeyValue => "json-key-value"@,
        Expectation::JsonValue => "json-value"@,
        Expectation::CommaOr(c) => "',' or '"@ + seq![c] + "'"@,
    }
}

/// The message of a diagnostic raised on the text `s`; the messages about
/// a multiline string header quote the word they are about.
pub open spec fn error_message(e: ParseError, s: Seq<char>) -> Seq<char> {
    match e.kind {
        ErrorKind::InvalidUnicode => "invalid unicode character"@,
        ErrorKind::InvalidMethodChar(c) => "Invalid character '"@ + seq![c]
            + "'. Method must be ascii uppercase."@,
        ErrorKind::MissingUrl => "missing url"@,
        ErrorKind::UnknownHttpVersion => "Unknown http version"@,
        ErrorKind::StatusTooLarge => "invalid status: too large"@,
        ErrorKind::StatusNotANumber => "invalid status: not a number"@,
        ErrorKind::MissingStatus => "missing status"@,
        ErrorKind::UnexpectedPredicateValue => "Unexpected predicate value"@,
        ErrorKind::IntegerTooLarge =>
            "The integer value is larger than 18446744073709551615 and is not valid for 64bit version of hurl"@,
        ErrorKind::BasicAuthMultipleUsers => "Basic Auth can only be defined for one user."@,
        ErrorKind::UnknownMultilineTypeOrAttribute => "Unknown multiline string type or attribute `"@
            + covered_text(e, s) + "`."@,
        ErrorKind::MultilineTypeAmongAttributes => "Found multiline string type `"@
            + covered_text(e, s) + "` in the multiline string attribute section."@,
        ErrorKind::UnknownMultilineAttribute => "Found unknown multiline string attribute `"@
            + covered_text(e, s) + "`."@,
        ErrorKind::UnexpectedInput => "unexpected input, found "@ + found_text(e, s),
        ErrorKind::Expected(x) => "found "@ + found_text(e, s) + ", expected "@ + expectation_text(
            x,
        ),
    }
}

fn covered_text_exec(e: &ParseError, s: &Vec<char>) -> (r: String)
    ensures
        r@ == covered_text(*e, s@),
{
    if e.start <= e.end && e.end <= s.len() {
        string_of(s, e.start, e.end)
    } else {
        String::new()
    }
}

fn found_text_exec(e: &ParseError, s: &Vec<char>) -> (r: String)
    ensures
        r@ == found_text(*e, s@),
{
    if e.start < s.len() {
        let mut m = String::new();
        push_char(&mut m, s[e.start]);
        concat3("'", m, "'")
    } else {
        string_from("end of input")
    }
}

fn expectation_text_exec(x: Expectation) -> (r: String)
    ensures
        r@ == expectation_text(x),
{
    match x {
        Expectation::EndOfInput => string_from("end of input"),
        Expectation::Digit => string_from("digit"),
        Expectation::JsonKeyValue => string_from("json-key-value"),
        Expectation::JsonValue => string_from("json-value"),
        Expectation::CommaOr(c) => {
            let mut m = String::new();
            push_char(&mut m, c);
            concat3("',' or '", m, "'")
        },
    }
}

/// `a`, then `b`, then `c`.
fn concat3(a: &str, b: String, c: &str) -> (r: String)
    ensures
        r@ == a@ + b@ + c@,
{
    let mut r = string_from(a);
    r.append(b.as_str());
    r.append(c);
    r
}

impl ParseError {
    /// The message of this diagnostic, raised on the characters `s`.
    pub fn message(&self, s: &Vec<char>) -> (r: String)
        ensures
            r@ == error_message(*self, s@),
    {
        match self.kind {
            ErrorKind::InvalidUnicode => string_from("invalid unicode character"),
            ErrorKind::InvalidMethodChar(c) => {
                let mut m = String::new();
                push_char(&mut m, c);
                concat3("Invalid character '", m, "'. Method must be ascii uppercase.")
            },
            ErrorKind::MissingUrl => string_from("missing url"),
            ErrorKind::UnknownHttpVersion => string_from("Unknown http version"),
            ErrorKind::StatusTooLarge => string_from("invalid status: too large"),
            ErrorKind::StatusNotANumber => string_from("invalid status: not a number"),
            ErrorKind::MissingStatus => string_from("missing status"),
            ErrorKind::UnexpectedPredicateValue => string_from("Unexpected predicate value"),
            ErrorKind::IntegerTooLarge => string_from(
                "The integer value is larger than 18446744073709551615 and is not valid for 64bit version of hurl",
            ),
            ErrorKind::BasicAuthMultipleUsers => string_from(
                "Basic Auth can only be defined for one user.",
            ),
            ErrorKind::UnknownMultilineTypeOrAttribute => concat3(
                "Unknown multiline string type or attribute `",
                covered_text_exec(self, s),
                "`.",
            ),
            ErrorKind::MultilineTypeAmongAttributes => concat3(
                "Found multiline string type `",
                covered_text_exec(self, s),
                "` in the multiline string attribute section.",
            ),
            ErrorKind::UnknownMultilineAttribute => concat3(
                "Found unknown multiline string attribute `",
                covered_text_exec(self, s),
                "`.",
            ),
            ErrorKind::UnexpectedInput => {
                let f = found_text_exec(self, s);
                let mut m = string_from("unexpected input, found ");
                m.append(f.as_str());
                m
            },
            ErrorKind::Expected(x) => {
                let f = found_text_exec(self, s);
                let t = expectation_text_exec(x);
                let mut m = concat3("found ", f, ", expected ");
                m.append(t.as_str());
                m
            },
        }
    }
}

} // verus!
