//! Templates (`{{ expr filters }}`), their expressions and filters, quoted
//! strings, and the interpolated strings of every kind: the one recursive
//! part of the grammar, since a quoted string may hold a template and a
//! template's filters take quoted strings.
use vstd::prelude::*;
use crate::base::{errs_within, lemma_errs_append, lemma_run_end_at, point_error, point_error_exec, string_failure,
    string_failure_exec, 
    ParseError, SpecRes, char_at, dec_value, decimal_u64, is_ascii_alpha, is_ascii_alpha_exec,
    is_ascii_alphanumeric, is_ascii_alphanumeric_exec, is_digit, is_digit_exec, lemma_run_end,
    lemma_skip_sp, lit_end, lit_end_exec, matches_at, run_end, run_end_exec, skip_sp,
    skip_sp_exec, string_of, string_from,
};
use crate::model::{
    SpecExpr, SpecExprValue, SpecFilterFunction, SpecInterpolatedString, SpecPart, SpecTemplate,
};
use crate::strings::{StrKind, parse_str_run, res_string, sp_str_run};
use crate::types::{
    Expr, ExprValue, FilterFunction, InterpolatedString, InterpolatedStringPart, Template,
    lemma_seq_view_empty, lemma_seq_view_push, seq_view,
};

verus! {

broadcast use lemma_seq_view_push, lemma_seq_view_empty;

pub open spec fn is_ident_char(c: char) -> bool {
    is_ascii_alphanumeric(c) || c == '_'
}

pub open spec fn is_var_char(c: char) -> bool {
    is_ascii_alphanumeric(c) || c == '_' || c == '-'
}

pub open spec fn ident_pred() -> spec_fn(char) -> bool {
    |c: char| is_ident_char(c)
}

pub open spec fn var_pred() -> spec_fn(char) -> bool {
    |c: char| is_var_char(c)
}

/// A variable name: an ASCII letter, then ASCII letters, digits, `_` and `-`.
pub open spec fn sp_variable_name(s: Seq<char>, p: int) -> Option<(Seq<char>, int)> {
    if 0 <= p < s.len() && is_ascii_alpha(s[p]) {
        let e = run_end(s, p + 1, var_pred());
        Some((s.subrange(p, e), e))
    } else {
        None
    }
}

/// The end of an identifier (`[A-Za-z_][A-Za-z0-9_]*`) at `p`; `p` when there is none.
pub open spec fn ident_end(s: Seq<char>, p: int) -> int {
    if 0 <= p < s.len() && (is_ascii_alpha(s[p]) || s[p] == '_') {
        run_end(s, p + 1, ident_pred())
    } else {
        p
    }
}

/// The built-in functions a template may call.
pub open spec fn is_function_name(w: Seq<char>) -> bool {
    w == "getEnv"@ || w == "newDate"@ || w == "newUuid"@
}

/// A function name, when the identifier at `p` is one; else a variable name.
pub open spec fn sp_expr_value(s: Seq<char>, p: int) -> Option<(SpecExprValue, int)> {
    let e = ident_end(s, p);
    if e > p && is_function_name(s.subrange(p, e)) {
        Some((SpecExprValue::FunctionName(s.subrange(p, e)), e))
    } else {
        match sp_variable_name(s, p) {
            Some((n, q)) => Some((SpecExprValue::VariableName(n), q)),
            None => None,
        }
    }
}

/// A filter that takes no argument: its name stands at `p`.
pub open spec fn sp_simple_filter(s: Seq<char>, p: int) -> Option<(SpecFilterFunction, int)> {
    if matches_at(s, p, "count"@) {
        Some((SpecFilterFunction::Count, p + "count"@.len()))
    } else if matches_at(s, p, "daysAfterNow"@) {
        Some((SpecFilterFunction::DaysAfterNow, p + "daysAfterNow"@.len()))
    } else if matches_at(s, p, "daysBeforeNow"@) {
        Some((SpecFilterFunction::DaysBeforeNow, p + "daysBeforeNow"@.len()))
    } else if matches_at(s, p, "htmlEscape"@) {
        Some((SpecFilterFunction::HtmlEscape, p + "htmlEscape"@.len()))
    } else if matches_at(s, p, "htmlUnescape"@) {
        Some((SpecFilterFunction::HtmlUnescape, p + "htmlUnescape"@.len()))
    } else if matches_at(s, p, "toFloat"@) {
        Some((SpecFilterFunction::ToFloat, p + "toFloat"@.len()))
    } else if matches_at(s, p, "toInt"@) {
        Some((SpecFilterFunction::ToInt, p + "toInt"@.len()))
    } else if matches_at(s, p, "urlDecode"@) {
        Some((SpecFilterFunction::UrlDecode, p + "urlDecode"@.len()))
    } else if matches_at(s, p, "urlEncode"@) {
        Some((SpecFilterFunction::UrlEncode, p + "urlEncode"@.len()))
    } else {
        None
    }
}

/// The word `w` at `p` followed by one or more spaces: the position after them.
pub open spec fn kw_sp(s: Seq<char>, p: int, w: Seq<char>) -> Option<int> {
    match lit_end(s, p, w) {
        Some(q) => if skip_sp(s, q) > q {
            Some(skip_sp(s, q))
        } else {
            None
        },
        None => None,
    }
}

/// The end of a decimal integer without leading zeros at `p` (`0` or `[1-9][0-9]*`); `p` when there is none.
pub open spec fn int_end(s: Seq<char>, p: int) -> int {
    if 0 <= p < s.len() && s[p] == '0' {
        p + 1
    } else if 0 <= p < s.len() && is_digit(s[p]) {
        run_end(s, p + 1, digit_pred())
    } else {
        p
    }
}

pub open spec fn digit_pred() -> spec_fn(char) -> bool {
    |c: char| is_digit(c)
}

/// `nth` and its index, when the index fits in a `u64`.
pub open spec fn sp_nth(s: Seq<char>, p: int) -> Option<(SpecFilterFunction, int)> {
    match kw_sp(s, p, "nth"@) {
        Some(q) => {
            let e = int_end(s, q);
            if e > q && dec_value(s, q, e) <= u64::MAX {
                Some((SpecFilterFunction::Nth { nth: dec_value(s, q, e) as u64 }, e))
            } else {
                None
            }
        },
        None => None,
    }
}

/// `{{`, spaces, an expression, spaces, `}}`.
pub open spec fn sp_template(s: Seq<char>, p: int) -> SpecRes<SpecTemplate>
    decreases s.len() - p, 0nat,
{
    if !(0 <= p <= s.len()) || !matches_at(s, p, seq!['{', '{']) {
        None
    } else {
        let q = skip_sp(s, p + 2);
        if !(p < q <= s.len()) {
            None
        } else {
            match sp_expr(s, q) {
                Some((e, q2, errs)) => {
                    let q3 = skip_sp(s, q2);
                    if matches_at(s, q3, seq!['}', '}']) {
                        Some((SpecTemplate { expr: e }, q3 + 2, errs))
                    } else {
                        None
                    }
                },
                None => None,
            }
        }
    }
}

/// Spaces, a variable or function, spaces, then filters separated by spaces.
pub open spec fn sp_expr(s: Seq<char>, p: int) -> SpecRes<SpecExpr>
    decreases s.len() - p, 0nat,
{
    if !(0 <= p <= s.len()) {
        None
    } else {
        let q0 = skip_sp(s, p);
        match sp_expr_value(s, q0) {
            Some((v, q1)) => {
                let q2 = skip_sp(s, q1);
                if !(p < q2 <= s.len()) {
                    None
                } else {
                    match sp_filters(s, q2) {
                        Some((fs, q3, e)) => Some((SpecExpr { variable: v, filters: fs }, q3, e)),
                        None => None,
                    }
                }
            },
            None => None,
        }
    }
}

/// Zero or more filters separated by spaces; spaces that no filter follows
/// are left unread.
pub open spec fn sp_filters(s: Seq<char>, p: int) -> SpecRes<Seq<SpecFilterFunction>>
    decreases s.len() - p, 3nat,
{
    if !(0 <= p <= s.len()) {
        None
    } else {
        match sp_filter(s, p) {
            None => Some((Seq::empty(), p, Seq::empty())),
            Some((f, q, e)) => if p < q <= s.len() {
                sp_filters_rest(s, q, seq![f], e)
            } else {
                None
            },
        }
    }
}

pub open spec fn sp_filters_rest(
    s: Seq<char>,
    q: int,
    acc: Seq<SpecFilterFunction>,
    errs: Seq<ParseError>,
) -> SpecRes<Seq<SpecFilterFunction>>
    decreases s.len() - q, 3nat,
{
    if !(0 <= q <= s.len()) {
        None
    } else {
        let q1 = skip_sp(s, q);
        if q1 <= q || q1 > s.len() {
            Some((acc, q, errs))
        } else {
            match sp_filter(s, q1) {
                None => Some((acc, q, errs)),
                Some((f, q2, e)) => if q1 < q2 <= s.len() {
                    sp_filters_rest(s, q2, acc.push(f), errs + e)
                } else {
                    None
                },
            }
        }
    }
}

/// The word `w`, spaces, then a quoted string.
pub open spec fn sp_quoted_arg(s: Seq<char>, p: int, w: Seq<char>) -> SpecRes<
    SpecInterpolatedString,
>
    decreases s.len() - p, 0nat,
{
    match kw_sp(s, p, w) {
        Some(q) => if p < q <= s.len() {
            sp_quoted(s, q)
        } else {
            None
        },
        None => None,
    }
}

/// `replace`, spaces, a quoted string, spaces, a quoted string.
pub open spec fn sp_replace(s: Seq<char>, p: int) -> SpecRes<SpecFilterFunction>
    decreases s.len() - p, 1nat,
{
    match sp_quoted_arg(s, p, "replace"@) {
        Some((old, q, e1)) => {
            let q1 = skip_sp(s, q);
            if q1 > q && p < q1 <= s.len() {
                match sp_quoted(s, q1) {
                    Some((new, q2, e2)) => Some(
                        (SpecFilterFunction::Replace { old_value: old, new_value: new }, q2, e1 + e2),
                    ),
                    None => None,
                }
            } else {
                None
            }
        },
        None => None,
    }
}

/// One filter, the first of the grammar's alternatives that matches.
pub open spec fn sp_filter(s: Seq<char>, p: int) -> SpecRes<SpecFilterFunction>
    decreases s.len() - p, 2nat,
{
    if !(0 <= p <= s.len()) {
        None
    } else {
        match sp_simple_filter(s, p) {
            Some((f, q)) => Some((f, q, Seq::empty())),
            None => match sp_quoted_arg(s, p, "decode"@) {
                Some((v, q, e)) => Some((SpecFilterFunction::Decode { encoding: v }, q, e)),
                None => match sp_quoted_arg(s, p, "format"@) {
                    Some((v, q, e)) => Some((SpecFilterFunction::Format { fmt: v }, q, e)),
                    None => match sp_quoted_arg(s, p, "jsonpath"@) {
                        Some((v, q, e)) => Some((SpecFilterFunction::JsonPath { expr: v }, q, e)),
                        None => match sp_nth(s, p) {
                            Some((f, q)) => Some((f, q, Seq::empty())),
                            None => match sp_quoted_arg(s, p, "regex"@) {
                                Some((v, q, e)) => Some(
                                    (SpecFilterFunction::Regex { value: v }, q, e),
                                ),
                                None => match sp_quoted_arg(s, p, "split"@) {
                                    Some((v, q, e)) => Some(
                                        (SpecFilterFunction::Split { sep: v }, q, e),
                                    ),
                                    None => match sp_replace(s, p) {
                                        Some(r) => Some(r),
                                        None => match sp_quoted_arg(s, p, "toDate"@) {
                                            Some((v, q, e)) => Some(
                                                (SpecFilterFunction::ToDate { fmt: v }, q, e),
                                            ),
                                            None => match sp_quoted_arg(s, p, "xpath"@) {
                                                Some((v, q, e)) => Some(
                                                    (SpecFilterFunction::XPath { expr: v }, q, e),
                                                ),
                                                None => None,
                                            },
                                        },
                                    },
                                },
                            },
                        },
                    },
                },
            },
        }
    }
}

/// `"`, zero or more parts of a quoted string, `"`.
pub open spec fn sp_quoted(s: Seq<char>, p: int) -> SpecRes<SpecInterpolatedString>
    decreases s.len() - p, 0nat,
{
    if !(0 <= p < s.len()) || s[p] != '"' {
        None
    } else {
        let (parts, q, e) = sp_parts_from(StrKind::Quoted, s, p + 1, Seq::empty(), Seq::empty());
        if char_at(s, q) == Some('"') {
            Some((SpecInterpolatedString { parts }, q + 1, e))
        } else {
            None
        }
    }
}

/// Zero or more parts of a string of kind `k`, from `q`.
pub open spec fn sp_parts_from(
    k: StrKind,
    s: Seq<char>,
    q: int,
    acc: Seq<SpecPart>,
    errs: Seq<ParseError>,
) -> (Seq<SpecPart>, int, Seq<ParseError>)
    decreases s.len() - q, 2nat,
{
    if !(0 <= q <= s.len()) {
        (acc, q, errs)
    } else {
        match sp_part(k, s, q) {
            Some((pt, q2, e)) => if q < q2 <= s.len() {
                sp_parts_from(k, s, q2, acc.push(pt), errs + e)
            } else {
                (acc, q, errs)
            },
            None => (acc, q, errs),
        }
    }
}

/// One part of a string of kind `k`: a template, else a run of characters.
pub open spec fn sp_part(k: StrKind, s: Seq<char>, q: int) -> SpecRes<SpecPart>
    decreases s.len() - q, 1nat,
{
    if !(0 <= q <= s.len()) {
        None
    } else {
        match sp_template(s, q) {
            Some((t, q2, e)) => Some((SpecPart::Template(t), q2, e)),
            None => match sp_str_run(k, s, q) {
                Some((cs, q2, e)) => Some((SpecPart::Str(cs), q2, e)),
                None => None,
            },
        }
    }
}

/// One or more parts of a string of kind `k`.
pub open spec fn sp_parts1(k: StrKind, s: Seq<char>, p: int) -> SpecRes<SpecInterpolatedString> {
    let (parts, q, e) = sp_parts_from(k, s, p, Seq::empty(), Seq::empty());
    if parts.len() >= 1 {
        Some((SpecInterpolatedString { parts }, q, e))
    } else {
        None
    }
}

// ---------------------------------------------------------------------------
// Executable parsers
// ---------------------------------------------------------------------------

pub open spec fn res_template(r: Option<(Template, usize, Vec<ParseError>)>) -> SpecRes<
    SpecTemplate,
> {
    match r {
        Some((v, q, e)) => Some((v@, q as int, e@)),
        None => None,
    }
}

pub open spec fn res_expr(r: Option<(Expr, usize, Vec<ParseError>)>) -> SpecRes<SpecExpr> {
    match r {
        Some((v, q, e)) => Some((v@, q as int, e@)),
        None => None,
    }
}

pub open spec fn res_filter(r: Option<(FilterFunction, usize, Vec<ParseError>)>) -> SpecRes<
    SpecFilterFunction,
> {
    match r {
        Some((v, q, e)) => Some((v@, q as int, e@)),
        None => None,
    }
}

pub open spec fn res_filters(r: Option<(Vec<FilterFunction>, usize, Vec<ParseError>)>) -> SpecRes<
    Seq<SpecFilterFunction>,
> {
    match r {
        Some((v, q, e)) => Some((seq_view(v@), q as int, e@)),
        None => None,
    }
}

pub open spec fn res_istr(r: Option<(InterpolatedString, usize, Vec<ParseError>)>) -> SpecRes<
    SpecInterpolatedString,
> {
    match r {
        Some((v, q, e)) => Some((v@, q as int, e@)),
        None => None,
    }
}

pub open spec fn res_part(r: Option<(InterpolatedStringPart, usize, Vec<ParseError>)>) -> SpecRes<
    SpecPart,
> {
    match r {
        Some((v, q, e)) => Some((v@, q as int, e@)),
        None => None,
    }
}

/// The interpolated string with the given parts views as those parts.
pub proof fn lemma_istr_view(parts: Vec<InterpolatedStringPart>)
    ensures
        (InterpolatedString { parts }).view() == (SpecInterpolatedString {
            parts: seq_view(parts@),
        }),
{
    assert((InterpolatedString { parts }).view().parts =~= seq_view(parts@));
}

pub proof fn lemma_expr_view(variable: ExprValue, filters: Vec<FilterFunction>)
    ensures
        (Expr { variable, filters }).view() == (SpecExpr {
            variable: variable@,
            filters: seq_view(filters@),
        }),
{
    assert((Expr { variable, filters }).view().filters =~= seq_view(filters@));
}

fn is_var_char_exec(c: char) -> (b: bool)
    ensures
        b == is_var_char(c),
{
    is_ascii_alphanumeric_exec(c) || c == '_' || c == '-'
}

fn is_ident_char_exec(c: char) -> (b: bool)
    ensures
        b == is_ident_char(c),
{
    is_ascii_alphanumeric_exec(c) || c == '_'
}

/// An ASCII letter at `p`, and the position after it.
pub fn alphabetic_parser(s: &Vec<char>, p: usize) -> (r: Option<(char, usize)>)
    ensures
        match r {
            Some((c, q)) => p < s@.len() && c == s@[p as int] && is_ascii_alpha(c) && q == p + 1,
            None => !(p < s@.len() && is_ascii_alpha(s@[p as int])),
        },
{
    if p < s.len() && is_ascii_alpha_exec(s[p]) {
        Some((s[p], p + 1))
    } else {
        None
    }
}

/// An ASCII letter or digit at `p`, and the position after it.
pub fn alphanumeric_parser(s: &Vec<char>, p: usize) -> (r: Option<(char, usize)>)
    ensures
        match r {
            Some((c, q)) => p < s@.len() && c == s@[p as int] && is_ascii_alphanumeric(c) && q == p
                + 1,
            None => !(p < s@.len() && is_ascii_alphanumeric(s@[p as int])),
        },
{
    if p < s.len() && is_ascii_alphanumeric_exec(s[p]) {
        Some((s[p], p + 1))
    } else {
        None
    }
}

pub fn variable_name_at(s: &Vec<char>, p: usize) -> (r: Option<(String, usize)>)
    requires
        p <= s@.len(),
    ensures
        match r {
            Some((n, q)) => sp_variable_name(s@, p as int) == Some((n@, q as int)) && p < q
                <= s@.len(),
            None => sp_variable_name(s@, p as int) is None,
        },
{
    if let Some((_, p1)) = alphabetic_parser(s, p) {
        let e = run_end_exec(
            s,
            p1,
            (|c: char| -> (b: bool)
                ensures
                    b == is_var_char(c),
                { is_var_char_exec(c) }),
            Ghost(var_pred()),
        );
        Some((string_of(s, p, e), e))
    } else {
        None
    }
}

fn function_name_at(s: &Vec<char>, p: usize, e: usize) -> (b: bool)
    requires
        p <= e <= s@.len(),
    ensures
        b == is_function_name(s@.subrange(p as int, e as int)),
{
    let b = if lit_at_exact(s, p, e, "getEnv") {
        true
    } else if lit_at_exact(s, p, e, "newDate") {
        true
    } else {
        lit_at_exact(s, p, e, "newUuid")
    };
    b
}

/// Whether `s[p..e]` is the text `w`.
fn lit_at_exact(s: &Vec<char>, p: usize, e: usize, w: &str) -> (b: bool)
    requires
        p <= e <= s@.len(),
    ensures
        b == (s@.subrange(p as int, e as int) == w@),
{
    let n = crate::base::lit_len(w);
    if e - p != n {
        return false;
    }
    let b = crate::base::lit_at(s, p, w);
    b
}

pub fn parse_expr_value(s: &Vec<char>, p: usize) -> (r: Option<(ExprValue, usize)>)
    requires
        p <= s@.len(),
    ensures
        match r {
            Some((v, q)) => sp_expr_value(s@, p as int) == Some((v@, q as int)) && p < q
                <= s@.len(),
            None => sp_expr_value(s@, p as int) is None,
        },
{
    let e = if p < s.len() && (is_ascii_alpha_exec(s[p]) || s[p] == '_') {
        run_end_exec(
            s,
            p + 1,
            (|c: char| -> (b: bool)
                ensures
                    b == is_ident_char(c),
                { is_ident_char_exec(c) }),
            Ghost(ident_pred()),
        )
    } else {
        p
    };
    assert(e == ident_end(s@, p as int));
    if e > p && function_name_at(s, p, e) {
        return Some((ExprValue::FunctionName(string_of(s, p, e)), e));
    }
    match variable_name_at(s, p) {
        Some((n, q)) => Some((ExprValue::VariableName(n), q)),
        None => None,
    }
}

fn simple_filter_at(s: &Vec<char>, p: usize, w: &str, f: FilterFunction) -> (r: Option<
    (FilterFunction, usize),
>)
    ensures
        match r {
            Some((g, q)) => matches_at(s@, p as int, w@) && g == f && q == p + w@.len() && q
                <= s@.len(),
            None => !matches_at(s@, p as int, w@),
        },
{
    match lit_end_exec(s, p, w) {
        Some(q) => Some((f, q)),
        None => None,
    }
}

pub fn parse_simple_filter(s: &Vec<char>, p: usize) -> (r: Option<(FilterFunction, usize)>)
    ensures
        match r {
            Some((f, q)) => sp_simple_filter(s@, p as int) == Some((f@, q as int)) && p < q
                <= s@.len(),
            None => sp_simple_filter(s@, p as int) is None,
        },
{
    proof {
        reveal_strlit("count");
        reveal_strlit("daysAfterNow");
        reveal_strlit("daysBeforeNow");
        reveal_strlit("htmlEscape");
        reveal_strlit("htmlUnescape");
        reveal_strlit("toFloat");
        reveal_strlit("toInt");
        reveal_strlit("urlDecode");
        reveal_strlit("urlEncode");
    }
    if let Some(r) = simple_filter_at(s, p, "count", FilterFunction::Count) {
        return Some(r);
    }
    if let Some(r) = simple_filter_at(s, p, "daysAfterNow", FilterFunction::DaysAfterNow) {
        return Some(r);
    }
    if let Some(r) = simple_filter_at(s, p, "daysBeforeNow", FilterFunction::DaysBeforeNow) {
        return Some(r);
    }
    if let Some(r) = simple_filter_at(s, p, "htmlEscape", FilterFunction::HtmlEscape) {
        return Some(r);
    }
    if let Some(r) = simple_filter_at(s, p, "htmlUnescape", FilterFunction::HtmlUnescape) {
        return Some(r);
    }
    if let Some(r) = simple_filter_at(s, p, "toFloat", FilterFunction::ToFloat) {
        return Some(r);
    }
    if let Some(r) = simple_filter_at(s, p, "toInt", FilterFunction::ToInt) {
        return Some(r);
    }
    if let Some(r) = simple_filter_at(s, p, "urlDecode", FilterFunction::UrlDecode) {
        return Some(r);
    }
    if let Some(r) = simple_filter_at(s, p, "urlEncode", FilterFunction::UrlEncode) {
        return Some(r);
    }
    None
}

pub fn kw_sp_exec(s: &Vec<char>, p: usize, w: &str) -> (r: Option<usize>)
    ensures
        match r {
            Some(q) => kw_sp(s@, p as int, w@) == Some(q as int) && p < q <= s@.len(),
            None => kw_sp(s@, p as int, w@) is None,
        },
{
    match lit_end_exec(s, p, w) {
        Some(q) => {
            let q1 = skip_sp_exec(s, q);
            if q1 > q {
                Some(q1)
            } else {
                None
            }
        },
        None => None,
    }
}

pub fn int_end_exec(s: &Vec<char>, p: usize) -> (e: usize)
    requires
        p <= s@.len(),
    ensures
        e == int_end(s@, p as int),
        p <= e <= s@.len(),
        forall|j: int| p <= j < e ==> is_digit(#[trigger] s@[j]),
{
    if p < s.len() && s[p] == '0' {
        p + 1
    } else if p < s.len() && is_digit_exec(s[p]) {
        let e = run_end_exec(
            s,
            p + 1,
            (|c: char| -> (b: bool)
                ensures
                    b == is_digit(c),
                { is_digit_exec(c) }),
            Ghost(digit_pred()),
        );
        proof {
            lemma_run_end(s@, p + 1, digit_pred());
        }
        e
    } else {
        p
    }
}

fn parse_nth(s: &Vec<char>, p: usize) -> (r: Option<(FilterFunction, usize)>)
    ensures
        match r {
            Some((f, q)) => sp_nth(s@, p as int) == Some((f@, q as int)) && p < q <= s@.len(),
            None => sp_nth(s@, p as int) is None,
        },
{
    match kw_sp_exec(s, p, "nth") {
        Some(q) => {
            let e = int_end_exec(s, q);
            if e > q {
                match decimal_u64(s, q, e) {
                    Some(n) => Some((FilterFunction::Nth { nth: n }, e)),
                    None => None,
                }
            } else {
                None
            }
        },
        None => None,
    }
}

pub fn template_at(s: &Vec<char>, p: usize) -> (r: Option<(Template, usize, Vec<ParseError>)>)
    requires
        p <= s@.len(),
    ensures
        res_template(r) == sp_template(s@, p as int),
        r matches Some((_, q, _)) ==> p < q <= s@.len(),
        r matches Some((_, q, e)) ==> errs_within(e@, p as int, q as int),
    decreases s@.len() - p, 0nat,
{
    proof {
        reveal_strlit("{{");
        reveal_strlit("}}");
        assert("{{"@ =~= seq!['{', '{']);
        assert("}}"@ =~= seq!['}', '}']);
    }
    let len = s.len();
    if !crate::base::lit_at(s, p, "{{") {
        return None;
    }
    let q = skip_sp_exec(s, p + 2);
    match expr_at(s, q) {
        Some((e, q2, errs)) => {
            let q3 = skip_sp_exec(s, q2);
            if crate::base::lit_at(s, q3, "}}") {
                Some((Template { expr: e }, q3 + 2, errs))
            } else {
                None
            }
        },
        None => None,
    }
}

pub fn expr_at(s: &Vec<char>, p: usize) -> (r: Option<(Expr, usize, Vec<ParseError>)>)
    requires
        p <= s@.len(),
    ensures
        res_expr(r) == sp_expr(s@, p as int),
        r matches Some((_, q, _)) ==> p < q <= s@.len(),
        r matches Some((_, q, e)) ==> errs_within(e@, p as int, q as int),
    decreases s@.len() - p, 0nat,
{
    let q0 = skip_sp_exec(s, p);
    match parse_expr_value(s, q0) {
        Some((v, q1)) => {
            let q2 = skip_sp_exec(s, q1);
            match parse_filters(s, q2) {
                Some((fs, q3, e)) => {
                    proof {
                        lemma_expr_view(v, fs);
                    }
                    Some((Expr { variable: v, filters: fs }, q3, e))
                },
                None => None,
            }
        },
        None => None,
    }
}

pub fn parse_filters(s: &Vec<char>, p: usize) -> (r: Option<
    (Vec<FilterFunction>, usize, Vec<ParseError>),
>)
    requires
        p <= s@.len(),
    ensures
        res_filters(r) == sp_filters(s@, p as int),
        r matches Some((_, q, _)) ==> p <= q <= s@.len(),
        r matches Some((_, q, e)) ==> errs_within(e@, p as int, q as int),
    decreases s@.len() - p, 3nat,
{
    let mut fs: Vec<FilterFunction> = Vec::new();
    let mut errs: Vec<ParseError>;
    let mut q: usize;
    match parse_filter(s, p) {
        None => {
            return Some((fs, p, Vec::new()));
        },
        Some((f, q1, e)) => {
            fs.push(f);
            errs = e;
            q = q1;
        },
    }
    loop
        invariant
            p < q <= s@.len(),
            sp_filters_rest(s@, q as int, seq_view(fs@), errs@) == sp_filters(s@, p as int),
            errs_within(errs@, p as int, q as int),
        decreases s@.len() - q,
    {
        let q1 = skip_sp_exec(s, q);
        if q1 == q {
            return Some((fs, q, errs));
        }
        match parse_filter(s, q1) {
            None => {
                return Some((fs, q, errs));
            },
            Some((f, q2, mut e)) => {
                proof {
                    lemma_errs_append(errs@, e@, p as int, q as int, q1 as int, q2 as int);
                }
                fs.push(f);
                errs.append(&mut e);
                q = q2;
            },
        }
    }
}

pub fn parse_quoted_arg(s: &Vec<char>, p: usize, w: &str) -> (r: Option<
    (InterpolatedString, usize, Vec<ParseError>),
>)
    requires
        p <= s@.len(),
    ensures
        res_istr(r) == sp_quoted_arg(s@, p as int, w@),
        r matches Some((_, q, _)) ==> p < q <= s@.len(),
        r matches Some((_, q, e)) ==> errs_within(e@, p as int, q as int),
    decreases s@.len() - p, 0nat,
{
    match kw_sp_exec(s, p, w) {
        Some(q) => quoted_string_at(s, q),
        None => None,
    }
}

fn parse_replace(s: &Vec<char>, p: usize) -> (r: Option<
    (FilterFunction, usize, Vec<ParseError>),
>)
    requires
        p <= s@.len(),
    ensures
        res_filter(r) == sp_replace(s@, p as int),
        r matches Some((_, q, _)) ==> p < q <= s@.len(),
        r matches Some((_, q, e)) ==> errs_within(e@, p as int, q as int),
    decreases s@.len() - p, 1nat,
{
    match parse_quoted_arg(s, p, "replace") {
        Some((old, q, mut e1)) => {
            let q1 = skip_sp_exec(s, q);
            if q1 > q {
                match quoted_string_at(s, q1) {
                    Some((new, q2, mut e2)) => {
                        proof {
                            lemma_errs_append(e1@, e2@, p as int, q as int, q1 as int, q2 as int);
                        }
                        e1.append(&mut e2);
                        Some((FilterFunction::Replace { old_value: old, new_value: new }, q2, e1))
                    },
                    None => None,
                }
            } else {
                None
            }
        },
        None => None,
    }
}

pub fn parse_filter(s: &Vec<char>, p: usize) -> (r: Option<
    (FilterFunction, usize, Vec<ParseError>),
>)
    requires
        p <= s@.len(),
    ensures
        res_filter(r) == sp_filter(s@, p as int),
        r matches Some((_, q, _)) ==> p < q <= s@.len(),
        r matches Some((_, q, e)) ==> errs_within(e@, p as int, q as int),
    decreases s@.len() - p, 2nat,
{
    if let Some((f, q)) = parse_simple_filter(s, p) {
        return Some((f, q, Vec::new()));
    }
    if let Some((v, q, e)) = parse_quoted_arg(s, p, "decode") {
        return Some((FilterFunction::Decode { encoding: v }, q, e));
    }
    if let Some((v, q, e)) = parse_quoted_arg(s, p, "format") {
        return Some((FilterFunction::Format { fmt: v }, q, e));
    }
    if let Some((v, q, e)) = parse_quoted_arg(s, p, "jsonpath") {
        return Some((FilterFunction::JsonPath { expr: v }, q, e));
    }
    if let Some((f, q)) = parse_nth(s, p) {
        return Some((f, q, Vec::new()));
    }
    if let Some((v, q, e)) = parse_quoted_arg(s, p, "regex") {
        return Some((FilterFunction::Regex { value: v }, q, e));
    }
    if let Some((v, q, e)) = parse_quoted_arg(s, p, "split") {
        return Some((FilterFunction::Split { sep: v }, q, e));
    }
    if let Some(r) = parse_replace(s, p) {
        return Some(r);
    }
    if let Some((v, q, e)) = parse_quoted_arg(s, p, "toDate") {
        return Some((FilterFunction::ToDate { fmt: v }, q, e));
    }
    if let Some((v, q, e)) = parse_quoted_arg(s, p, "xpath") {
        return Some((FilterFunction::XPath { expr: v }, q, e));
    }
    None
}

/// Where a quoted string at `p` fails to be read: at `p` when no `"`
/// stands there, else where its characters stop (see `string_failure`).
pub open spec fn quoted_failure(s: Seq<char>, p: int) -> ParseError {
    if !(0 <= p < s.len()) || s[p] != '"' {
        point_error(s, p)
    } else {
        point_error(
            s,
            string_failure(s, sp_parts_from(StrKind::Quoted, s, p + 1, Seq::empty(), Seq::empty()).1),
        )
    }
}

/// A quoted string at `p`; when there is none, the place where reading it
/// failed.
pub fn quoted_string_parser(s: &Vec<char>, p: usize) -> (r: Result<
    (InterpolatedString, usize, Vec<ParseError>),
    ParseError,
>)
    requires
        p <= s@.len(),
    ensures
        match r {
            Ok((v, q, e)) => sp_quoted(s@, p as int) == Some((v@, q as int, e@)) && p < q
                <= s@.len() && errs_within(e@, p as int, q as int),
            Err(f) => sp_quoted(s@, p as int) is None && f == quoted_failure(s@, p as int),
        },
{
    match quoted_string_at(s, p) {
        Some(x) => Ok(x),
        None => {
            if p >= s.len() || s[p] != '"' {
                Err(point_error_exec(s, p))
            } else {
                let (_, q, _) = parse_parts(StrKind::Quoted, s, p + 1);
                Err(point_error_exec(s, string_failure_exec(s, q)))
            }
        },
    }
}

pub fn quoted_string_at(s: &Vec<char>, p: usize) -> (r: Option<
    (InterpolatedString, usize, Vec<ParseError>),
>)
    requires
        p <= s@.len(),
    ensures
        res_istr(r) == sp_quoted(s@, p as int),
        r matches Some((_, q, _)) ==> p < q <= s@.len(),
        r matches Some((_, q, e)) ==> errs_within(e@, p as int, q as int),
    decreases s@.len() - p, 0nat,
{
    if p >= s.len() || s[p] != '"' {
        return None;
    }
    let (parts, q, e) = parse_parts(StrKind::Quoted, s, p + 1);
    if q < s.len() && s[q] == '"' {
        proof {
            lemma_istr_view(parts);
        }
        Some((InterpolatedString { parts }, q + 1, e))
    } else {
        None
    }
}

/// Zero or more parts of a string of kind `k` from `p`.
pub fn parse_parts(k: StrKind, s: &Vec<char>, p: usize) -> (r: (
    Vec<InterpolatedStringPart>,
    usize,
    Vec<ParseError>,
))
    requires
        p <= s@.len(),
    ensures
        (seq_view(r.0@), r.1 as int, r.2@) == sp_parts_from(
            k,
            s@,
            p as int,
            Seq::empty(),
            Seq::empty(),
        ),
        p <= r.1 <= s@.len(),
        r.0@.len() == 0 ==> r.1 == p,
        r.0@.len() > 0 ==> r.1 > p,
        errs_within(r.2@, p as int, r.1 as int),
    decreases s@.len() - p, 2nat,
{
    let mut parts: Vec<InterpolatedStringPart> = Vec::new();
    let mut errs: Vec<ParseError> = Vec::new();
    let mut q = p;
    loop
        invariant
            p <= q <= s@.len(),
            sp_parts_from(k, s@, q as int, seq_view(parts@), errs@) == sp_parts_from(
                k,
                s@,
                p as int,
                Seq::empty(),
                Seq::empty(),
            ),
            parts@.len() == 0 ==> q == p,
            parts@.len() > 0 ==> q > p,
            errs_within(errs@, p as int, q as int),
        decreases s@.len() - q,
    {
        match parse_part(k, s, q) {
            Some((pt, q2, mut e)) => {
                proof {
                    lemma_errs_append(errs@, e@, p as int, q as int, q as int, q2 as int);
                }
                parts.push(pt);
                errs.append(&mut e);
                q = q2;
            },
            None => {
                return (parts, q, errs);
            },
        }
    }
}

pub fn parse_part(k: StrKind, s: &Vec<char>, q: usize) -> (r: Option<
    (InterpolatedStringPart, usize, Vec<ParseError>),
>)
    requires
        q <= s@.len(),
    ensures
        res_part(r) == sp_part(k, s@, q as int),
        r matches Some((_, q2, _)) ==> q < q2 <= s@.len(),
        r matches Some((_, q2, e)) ==> errs_within(e@, q as int, q2 as int),
    decreases s@.len() - q, 1nat,
{
    match template_at(s, q) {
        Some((t, q2, e)) => Some((InterpolatedStringPart::Template(t), q2, e)),
        None => match parse_str_run(k, s, q) {
            Some((cs, q2, e)) => Some((InterpolatedStringPart::Str(cs), q2, e)),
            None => None,
        },
    }
}

/// One or more parts of a string of kind `k` from `p`.
pub fn parse_parts1(k: StrKind, s: &Vec<char>, p: usize) -> (r: Option<
    (InterpolatedString, usize, Vec<ParseError>),
>)
    requires
        p <= s@.len(),
    ensures
        res_istr(r) == sp_parts1(k, s@, p as int),
        r matches Some((_, q, _)) ==> p < q <= s@.len(),
        r matches Some((_, q, e)) ==> errs_within(e@, p as int, q as int),
{
    let (parts, q, e) = parse_parts(k, s, p);
    if parts.len() >= 1 {
        proof {
            lemma_istr_view(parts);
        }
        Some((InterpolatedString { parts }, q, e))
    } else {
        None
    }
}


/// Where a template at `p` fails to be read: at `p` when no `{{` stands
/// there; else after the variable name and the spaces that follow it,
/// where a filter or `}}` was expected; else where the name should stand.
pub open spec fn template_failure(s: Seq<char>, p: int) -> ParseError {
    if !matches_at(s, p, seq!['{', '{']) {
        point_error(s, p)
    } else {
        let w = skip_sp(s, p + 2);
        match sp_variable_name(s, w) {
            Some((_, v)) => point_error(s, skip_sp(s, v)),
            None => point_error(s, w),
        }
    }
}

/// A template at `p`; when there is none, the place where reading it
/// failed.
pub fn template_parser(s: &Vec<char>, p: usize) -> (r: Result<
    (Template, usize, Vec<ParseError>),
    ParseError,
>)
    requires
        p <= s@.len(),
    ensures
        match r {
            Ok((v, q, e)) => sp_template(s@, p as int) == Some((v@, q as int, e@)) && p < q
                <= s@.len() && errs_within(e@, p as int, q as int),
            Err(f) => sp_template(s@, p as int) is None && f == template_failure(s@, p as int),
        },
{
    match template_at(s, p) {
        Some(x) => Ok(x),
        None => {
            if !(p < s.len() && p + 1 < s.len() && s[p] == '{' && s[p + 1] == '{') {
                assert(!matches_at(s@, p as int, seq!['{', '{'])) by {
                    if matches_at(s@, p as int, seq!['{', '{']) {
                        assert(s@.subrange(p as int, p + 2)[0] == s@[p as int]);
                        assert(s@.subrange(p as int, p + 2)[1] == s@[p + 1]);
                    }
                }
                Err(point_error_exec(s, p))
            } else {
                assert(matches_at(s@, p as int, seq!['{', '{'])) by {
                    assert(s@.subrange(p as int, p + 2) =~= seq!['{', '{']);
                }
                let w = skip_sp_exec(s, p + 2);
                match variable_name_at(s, w) {
                    Some((_, v)) => Err(point_error_exec(s, skip_sp_exec(s, v))),
                    None => Err(point_error_exec(s, w)),
                }
            }
        },
    }
}

/// Where an expression at `p` fails to be read: where its value should
/// stand, after the spaces.
pub open spec fn expr_failure(s: Seq<char>, p: int) -> ParseError {
    point_error(s, skip_sp(s, p))
}

/// An expression at `p`; when there is none, the place where reading it
/// failed.
pub fn expr_parser(s: &Vec<char>, p: usize) -> (r: Result<(Expr, usize, Vec<ParseError>), ParseError>)
    requires
        p <= s@.len(),
    ensures
        match r {
            Ok((v, q, e)) => sp_expr(s@, p as int) == Some((v@, q as int, e@)) && p < q
                <= s@.len() && errs_within(e@, p as int, q as int),
            Err(f) => sp_expr(s@, p as int) is None && f == expr_failure(s@, p as int),
        },
{
    match expr_at(s, p) {
        Some(x) => Ok(x),
        None => Err(point_error_exec(s, skip_sp_exec(s, p))),
    }
}

/// A variable name at `p`; when there is none (no ASCII letter at `p`),
/// the failure there.
pub fn variable_name_parser(s: &Vec<char>, p: usize) -> (r: Result<(String, usize), ParseError>)
    requires
        p <= s@.len(),
    ensures
        match r {
            Ok((n, q)) => sp_variable_name(s@, p as int) == Some((n@, q as int)) && p < q
                <= s@.len(),
            Err(f) => sp_variable_name(s@, p as int) is None && f == point_error(s@, p as int),
        },
{
    match variable_name_at(s, p) {
        Some(x) => Ok(x),
        None => Err(point_error_exec(s, p)),
    }
}


/// The names of the built-in functions a template may call.
pub open spec fn builtin_function_name(k: int) -> Seq<char> {
    if k == 0 {
        "getEnv"@
    } else if k == 1 {
        "newDate"@
    } else {
        "newUuid"@
    }
}

/// Each built-in function name, standing where an expression's value is
/// read and not followed by another identifier character, is read as a
/// call of that very function, not as a variable.
pub proof fn lemma_builtin_functions(s: Seq<char>, p: int, k: int)
    requires
        0 <= k < 3,
        0 <= p,
        matches_at(s, p, builtin_function_name(k)),
        !(p + builtin_function_name(k).len() < s.len() && (is_ascii_alphanumeric(
            s[p + builtin_function_name(k).len()],
        ) || s[p + builtin_function_name(k).len()] == '_')),
    ensures
        sp_expr_value(s, p) == Some(
            (
                SpecExprValue::FunctionName(builtin_function_name(k)),
                p + builtin_function_name(k).len(),
            ),
        ),
{
    reveal_strlit("getEnv");
    reveal_strlit("newDate");
    reveal_strlit("newUuid");
    let w = builtin_function_name(k);
    let e = p + w.len();
    assert(s.subrange(p, e) == w);
    assert forall|i: int| p + 1 <= i < e implies #[trigger] ident_pred()(s[i]) by {
        assert(s[i] == s.subrange(p, e)[i - p]);
    }
    assert(s[p] == s.subrange(p, e)[0]);
    lemma_run_end_at(s, p + 1, ident_pred(), e);
    assert(ident_end(s, p) == e);
}


/// An identifier that is none of the built-in function names is read as a
/// variable, with the name that stands there.
pub proof fn lemma_other_names_are_variables(s: Seq<char>, p: int)
    requires
        0 <= p < s.len(),
        is_ascii_alpha(s[p]),
        forall|k: int| 0 <= k < 3 ==> s.subrange(p, ident_end(s, p)) != #[trigger] builtin_function_name(k),
    ensures
        sp_expr_value(s, p) == Some(
            (
                SpecExprValue::VariableName(s.subrange(p, run_end(s, p + 1, var_pred()))),
                run_end(s, p + 1, var_pred()),
            ),
        ),
{
    assert(s.subrange(p, ident_end(s, p)) != builtin_function_name(0));
    assert(s.subrange(p, ident_end(s, p)) != builtin_function_name(1));
    assert(s.subrange(p, ident_end(s, p)) != builtin_function_name(2));
}

} // verus!
