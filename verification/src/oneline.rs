//! File names, regexes, and the one-line forms of bytes: a backtick
//! string, `base64,...;`, `hex,...;` and `file,...;`.
use vstd::prelude::*;
use crate::base::{errs_within, point_error, point_error_exec, string_failure, string_failure_exec,
    
    ParseError, SpecRes, char_at, is_ascii_alphanumeric, is_ascii_alphanumeric_exec, is_hex_digit,
    is_hex_digit_exec, lemma_run_end, lit_end, lit_end_exec, push_char, run_end, run_end_exec,
    skip_sp, skip_sp_exec, string_of,
};
use crate::model::{SpecInterpolatedString, SpecRegex};
use crate::strings::StrKind;
use crate::template::{
    lemma_istr_view, parse_parts, parse_parts1, quoted_string_at, res_istr, sp_parts1,
    sp_parts_from, sp_quoted,
};
use crate::types::{InterpolatedString, Regex};

verus! {

/// A file name: one or more runs of file-name characters or templates.
pub open spec fn sp_filename(s: Seq<char>, p: int) -> SpecRes<SpecInterpolatedString> {
    sp_parts1(StrKind::Filename, s, p)
}

pub fn filename_at(s: &Vec<char>, p: usize) -> (r: Option<
    (InterpolatedString, usize, Vec<ParseError>),
>)
    requires
        p <= s@.len(),
    ensures
        res_istr(r) == sp_filename(s@, p as int),
        r matches Some((_, q, _)) ==> p < q <= s@.len(),
        r matches Some((_, q, e)) ==> errs_within(e@, p as int, q as int),
{
    parse_parts1(StrKind::Filename, s, p)
}

/// One character of a regex literal at `p`: `\/` stands for `/`; a
/// backslash before any other character but a newline stands for itself;
/// any other character but a newline, a backslash or `/` stands for itself.
pub open spec fn regex_char(s: Seq<char>, p: int) -> Option<(char, int)> {
    if !(0 <= p < s.len()) {
        None
    } else if s[p] == '\\' {
        if char_at(s, p + 1) == Some('/') {
            Some(('/', p + 2))
        } else if p + 1 < s.len() && s[p + 1] != '\n' {
            Some(('\\', p + 1))
        } else {
            None
        }
    } else if s[p] != '\n' && s[p] != '/' {
        Some((s[p], p + 1))
    } else {
        None
    }
}

/// The characters of a regex literal from `q`, with `acc` read before.
pub open spec fn regex_chars_from(s: Seq<char>, q: int, acc: Seq<char>) -> (Seq<char>, int)
    decreases s.len() - q,
{
    match regex_char(s, q) {
        Some((c, q2)) => if q < q2 <= s.len() {
            regex_chars_from(s, q2, acc.push(c))
        } else {
            (acc, q)
        },
        None => (acc, q),
    }
}

/// `/`, the characters of a regex, `/`.
pub open spec fn sp_regex_literal(s: Seq<char>, p: int) -> Option<(Seq<char>, int)> {
    if char_at(s, p) == Some('/') {
        let (cs, q) = regex_chars_from(s, p + 1, Seq::empty());
        if char_at(s, q) == Some('/') {
            Some((cs, q + 1))
        } else {
            None
        }
    } else {
        None
    }
}

/// A regex literal, else a quoted string.
pub open spec fn sp_regex(s: Seq<char>, p: int) -> SpecRes<SpecRegex> {
    match sp_regex_literal(s, p) {
        Some((cs, q)) => Some((SpecRegex::Literal(cs), q, Seq::empty())),
        None => match sp_quoted(s, p) {
            Some((v, q, e)) => Some((SpecRegex::Interpolated(v), q, e)),
            None => None,
        },
    }
}

pub fn regex_literal_parser(s: &Vec<char>, p: usize) -> (r: Option<(String, usize)>)
    requires
        p <= s@.len(),
    ensures
        match r {
            Some((cs, q)) => sp_regex_literal(s@, p as int) == Some((cs@, q as int)) && p < q
                <= s@.len(),
            None => sp_regex_literal(s@, p as int) is None,
        },
{
    if !(p < s.len() && s[p] == '/') {
        return None;
    }
    let mut out = String::new();
    let mut q = p + 1;
    loop
        invariant
            p < q <= s@.len(),
            regex_chars_from(s@, q as int, out@) == regex_chars_from(
                s@,
                p + 1,
                Seq::empty(),
            ),
        ensures
            p < q <= s@.len(),
            regex_chars_from(s@, p + 1, Seq::empty()) == (out@, q as int),
        decreases s@.len() - q,
    {
        if q >= s.len() {
            break ;
        }
        if s[q] == '\\' {
            if q + 1 < s.len() && s[q + 1] == '/' {
                push_char(&mut out, '/');
                q = q + 2;
            } else if q + 1 < s.len() && s[q + 1] != '\n' {
                push_char(&mut out, '\\');
                q = q + 1;
            } else {
                break ;
            }
        } else if s[q] != '\n' && s[q] != '/' {
            push_char(&mut out, s[q]);
            q = q + 1;
        } else {
            break ;
        }
    }
    if q < s.len() && s[q] == '/' {
        Some((out, q + 1))
    } else {
        None
    }
}

pub open spec fn res_regex(r: Option<(Regex, usize, Vec<ParseError>)>) -> SpecRes<SpecRegex> {
    match r {
        Some((v, q, e)) => Some((v@, q as int, e@)),
        None => None,
    }
}

pub fn regex_parser(s: &Vec<char>, p: usize) -> (r: Option<(Regex, usize, Vec<ParseError>)>)
    requires
        p <= s@.len(),
    ensures
        res_regex(r) == sp_regex(s@, p as int),
        r matches Some((_, q, _)) ==> p < q <= s@.len(),
        r matches Some((_, q, e)) ==> errs_within(e@, p as int, q as int),
{
    match regex_literal_parser(s, p) {
        Some((cs, q)) => Some((Regex::Literal(cs), q, Vec::new())),
        None => match quoted_string_at(s, p) {
            Some((v, q, e)) => Some((Regex::Interpolated(v), q, e)),
            None => None,
        },
    }
}

/// `` ` ``, zero or more parts of a one-line string, `` ` ``.
pub open spec fn sp_oneline_string(s: Seq<char>, p: int) -> SpecRes<SpecInterpolatedString> {
    if char_at(s, p) == Some('`') {
        let (parts, q, e) = sp_parts_from(StrKind::Oneline, s, p + 1, Seq::empty(), Seq::empty());
        if char_at(s, q) == Some('`') {
            Some((SpecInterpolatedString { parts }, q + 1, e))
        } else {
            None
        }
    } else {
        None
    }
}

/// Where a one-line string at `p` fails to be read: at `p` when no
/// backtick stands there, else where its characters stop (see
/// `string_failure`).
pub open spec fn oneline_failure(s: Seq<char>, p: int) -> ParseError {
    if char_at(s, p) != Some('`') {
        point_error(s, p)
    } else {
        point_error(
            s,
            string_failure(s, sp_parts_from(StrKind::Oneline, s, p + 1, Seq::empty(), Seq::empty()).1),
        )
    }
}

/// A one-line string at `p`; when there is none, the place where reading
/// it failed.
pub fn oneline_string_parser(s: &Vec<char>, p: usize) -> (r: Result<
    (InterpolatedString, usize, Vec<ParseError>),
    ParseError,
>)
    requires
        p <= s@.len(),
    ensures
        match r {
            Ok((v, q, e)) => sp_oneline_string(s@, p as int) == Some((v@, q as int, e@)) && p < q
                <= s@.len() && errs_within(e@, p as int, q as int),
            Err(f) => sp_oneline_string(s@, p as int) is None && f == oneline_failure(s@, p as int),
        },
{
    match oneline_string_at(s, p) {
        Some(x) => Ok(x),
        None => {
            if !(p < s.len() && s[p] == '`') {
                Err(point_error_exec(s, p))
            } else {
                let (_, q, _) = parse_parts(StrKind::Oneline, s, p + 1);
                Err(point_error_exec(s, string_failure_exec(s, q)))
            }
        },
    }
}

pub fn oneline_string_at(s: &Vec<char>, p: usize) -> (r: Option<
    (InterpolatedString, usize, Vec<ParseError>),
>)
    requires
        p <= s@.len(),
    ensures
        res_istr(r) == sp_oneline_string(s@, p as int),
        r matches Some((_, q, _)) ==> p < q <= s@.len(),
        r matches Some((_, q, e)) ==> errs_within(e@, p as int, q as int),
{
    if !(p < s.len() && s[p] == '`') {
        return None;
    }
    let (parts, q, e) = parse_parts(StrKind::Oneline, s, p + 1);
    if q < s.len() && s[q] == '`' {
        proof {
            lemma_istr_view(parts);
        }
        Some((InterpolatedString { parts }, q + 1, e))
    } else {
        None
    }
}

pub open spec fn is_base64_char(c: char) -> bool {
    is_ascii_alphanumeric(c) || c == '+' || c == '-' || c == '=' || c == '\n' || c == ' ' || c
        == '\t'
}

pub open spec fn base64_pred() -> spec_fn(char) -> bool {
    |c: char| is_base64_char(c)
}

/// Spaces, `base64,`, spaces, the encoded text (which keeps any spaces and
/// newlines it holds), `;`.
pub open spec fn sp_oneline_base64(s: Seq<char>, p: int) -> Option<(Seq<char>, int)> {
    match lit_end(s, skip_sp(s, p), "base64,"@) {
        Some(q) => {
            let q1 = skip_sp(s, q);
            let q2 = run_end(s, q1, base64_pred());
            if char_at(s, q2) == Some(';') {
                Some((s.subrange(q1, q2), q2 + 1))
            } else {
                None
            }
        },
        None => None,
    }
}

pub fn oneline_base64_parser(s: &Vec<char>, p: usize) -> (r: Option<(String, usize)>)
    requires
        p <= s@.len(),
    ensures
        match r {
            Some((v, q)) => sp_oneline_base64(s@, p as int) == Some((v@, q as int)) && p < q
                <= s@.len(),
            None => sp_oneline_base64(s@, p as int) is None,
        },
{
    let p0 = skip_sp_exec(s, p);
    match lit_end_exec(s, p0, "base64,") {
        Some(q) => {
            let q1 = skip_sp_exec(s, q);
            let q2 = run_end_exec(
                s,
                q1,
                (|c: char| -> (b: bool)
                    ensures
                        b == is_base64_char(c),
                    {
                        is_ascii_alphanumeric_exec(c) || c == '+' || c == '-' || c == '=' || c
                            == '\n' || c == ' ' || c == '\t'
                    }),
                Ghost(base64_pred()),
            );
            if q2 < s.len() && s[q2] == ';' {
                Some((string_of(s, q1, q2), q2 + 1))
            } else {
                None
            }
        },
        None => None,
    }
}

pub open spec fn hex_pred() -> spec_fn(char) -> bool {
    |c: char| is_hex_digit(c)
}

/// `hex,`, spaces, one or more hex digits, spaces, `;`.
pub open spec fn sp_oneline_hex(s: Seq<char>, p: int) -> Option<(Seq<char>, int)> {
    match lit_end(s, p, "hex,"@) {
        Some(q) => {
            let q1 = skip_sp(s, q);
            let q2 = run_end(s, q1, hex_pred());
            let q3 = skip_sp(s, q2);
            if q2 > q1 && char_at(s, q3) == Some(';') {
                Some((s.subrange(q1, q2), q3 + 1))
            } else {
                None
            }
        },
        None => None,
    }
}

pub fn oneline_hex_parser(s: &Vec<char>, p: usize) -> (r: Option<(String, usize)>)
    requires
        p <= s@.len(),
    ensures
        match r {
            Some((v, q)) => sp_oneline_hex(s@, p as int) == Some((v@, q as int)) && p < q
                <= s@.len(),
            None => sp_oneline_hex(s@, p as int) is None,
        },
{
    match lit_end_exec(s, p, "hex,") {
        Some(q) => {
            let q1 = skip_sp_exec(s, q);
            let q2 = run_end_exec(
                s,
                q1,
                (|c: char| -> (b: bool)
                    ensures
                        b == is_hex_digit(c),
                    { is_hex_digit_exec(c) }),
                Ghost(hex_pred()),
            );
            let q3 = skip_sp_exec(s, q2);
            if q2 > q1 && q3 < s.len() && s[q3] == ';' {
                Some((string_of(s, q1, q2), q3 + 1))
            } else {
                None
            }
        },
        None => None,
    }
}

/// Spaces, `file,`, spaces, a file name, spaces, `;`.
pub open spec fn sp_oneline_file(s: Seq<char>, p: int) -> SpecRes<SpecInterpolatedString> {
    match lit_end(s, skip_sp(s, p), "file,"@) {
        Some(q) => match sp_filename(s, skip_sp(s, q)) {
            Some((f, q2, e)) => {
                let q3 = skip_sp(s, q2);
                if char_at(s, q3) == Some(';') {
                    Some((f, q3 + 1, e))
                } else {
                    None
                }
            },
            None => None,
        },
        None => None,
    }
}

pub fn oneline_file_parser(s: &Vec<char>, p: usize) -> (r: Option<
    (InterpolatedString, usize, Vec<ParseError>),
>)
    requires
        p <= s@.len(),
    ensures
        res_istr(r) == sp_oneline_file(s@, p as int),
        r matches Some((_, q, _)) ==> p < q <= s@.len(),
        r matches Some((_, q, e)) ==> errs_within(e@, p as int, q as int),
{
    let p0 = skip_sp_exec(s, p);
    match lit_end_exec(s, p0, "file,") {
        Some(q) => {
            let q1 = skip_sp_exec(s, q);
            match filename_at(s, q1) {
                Some((f, q2, e)) => {
                    let q3 = skip_sp_exec(s, q2);
                    if q3 < s.len() && s[q3] == ';' {
                        Some((f, q3 + 1, e))
                    } else {
                        None
                    }
                },
                None => None,
            }
        },
        None => None,
    }
}


/// Where a file name at `p` fails to be read (see `string_failure`).
pub open spec fn filename_failure(s: Seq<char>, p: int) -> ParseError {
    point_error(s, string_failure(s, p))
}

/// A file name at `p`; when there is none, the place where reading it
/// failed.
pub fn filename_parser(s: &Vec<char>, p: usize) -> (r: Result<
    (InterpolatedString, usize, Vec<ParseError>),
    ParseError,
>)
    requires
        p <= s@.len(),
    ensures
        match r {
            Ok((v, q, e)) => sp_filename(s@, p as int) == Some((v@, q as int, e@)) && p < q
                <= s@.len() && errs_within(e@, p as int, q as int),
            Err(f) => sp_filename(s@, p as int) is None && f == filename_failure(s@, p as int),
        },
{
    match filename_at(s, p) {
        Some(x) => Ok(x),
        None => Err(point_error_exec(s, string_failure_exec(s, p))),
    }
}

} // verus!
