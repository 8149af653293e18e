//! Predicates: the right side of an assert, `[not] function [value]`.
use vstd::prelude::*;
use crate::base::{errs_within, is_digit, lemma_skip_sp, matches_at, skip_sp, 
    ErrorKind, ParseError, SpecRes, char_at, dec_value, decimal_u64, lemma_run_end, lit_end,
    lit_end_exec, run_end, string_of,
};
use crate::http_status::{one_err, one_err_exec};
use crate::model::{SpecPredicate, SpecPredicateFunc, SpecPredicateValue};
use crate::multiline::{multiline_string_at, sp_multiline_string};
use crate::oneline::{
    oneline_base64_parser, oneline_file_parser, oneline_hex_parser, oneline_string_at,
    sp_oneline_base64, sp_oneline_file, sp_oneline_hex, sp_oneline_string,
};
use crate::template::{
    digit_pred, int_end, int_end_exec, kw_sp, kw_sp_exec, quoted_string_at, template_at, sp_quoted,
    sp_template,
};
use crate::types::{
    Predicate, PredicateFunc, PredicatePrefixOperator, PredicateValue,
};

verus! {

/// The integer written by the number `s[p..e]` (without a fraction).
pub open spec fn number_value(s: Seq<char>, p: int, e: int) -> int {
    if char_at(s, p) == Some('-') {
        -dec_value(s, p + 1, e)
    } else {
        dec_value(s, p, e)
    }
}

/// A number: an optional `-`, an integer without leading zeros, and an
/// optional fraction (`.` and one or more digits). With a fraction it is
/// kept as its text; an integer that fits in an `i64` is that integer; a
/// larger one is kept as its text.
pub open spec fn sp_number(s: Seq<char>, p: int) -> Option<(SpecPredicateValue, int)> {
    let q = if char_at(s, p) == Some('-') {
        p + 1
    } else {
        p
    };
    let e = int_end(s, q);
    if e == q {
        None
    } else if char_at(s, e) == Some('.') && run_end(s, e + 1, digit_pred()) > e + 1 {
        let f = run_end(s, e + 1, digit_pred());
        Some((SpecPredicateValue::Float(s.subrange(p, f)), f))
    } else if i64::MIN <= number_value(s, p, e) <= i64::MAX {
        Some((SpecPredicateValue::Integer(number_value(s, p, e) as i64), e))
    } else {
        Some((SpecPredicateValue::BigInteger(s.subrange(p, e)), e))
    }
}

/// A predicate value: the first of these alternatives that matches at `p`.
pub open spec fn sp_predicate_value(s: Seq<char>, p: int) -> SpecRes<SpecPredicateValue> {
    if lit_end(s, p, "true"@) is Some {
        Some((SpecPredicateValue::Boolean(true), lit_end(s, p, "true"@)->0, Seq::empty()))
    } else if lit_end(s, p, "false"@) is Some {
        Some((SpecPredicateValue::Boolean(false), lit_end(s, p, "false"@)->0, Seq::empty()))
    } else if lit_end(s, p, "null"@) is Some {
        Some((SpecPredicateValue::Null, lit_end(s, p, "null"@)->0, Seq::empty()))
    } else if sp_number(s, p) is Some {
        let (v, q) = sp_number(s, p)->0;
        Some((v, q, Seq::empty()))
    } else if sp_template(s, p) is Some {
        let (t, q, e) = sp_template(s, p)->0;
        Some((SpecPredicateValue::Template(t), q, e))
    } else if sp_quoted(s, p) is Some {
        let (v, q, e) = sp_quoted(s, p)->0;
        Some((SpecPredicateValue::QuotedString(v), q, e))
    } else if sp_oneline_hex(s, p) is Some {
        let (v, q) = sp_oneline_hex(s, p)->0;
        Some((SpecPredicateValue::OneLineHex(v), q, Seq::empty()))
    } else if sp_oneline_file(s, p) is Some {
        let (v, q, e) = sp_oneline_file(s, p)->0;
        Some((SpecPredicateValue::OneLineFile(v), q, e))
    } else if sp_oneline_base64(s, p) is Some {
        let (v, q) = sp_oneline_base64(s, p)->0;
        Some((SpecPredicateValue::OneLineBase64(v), q, Seq::empty()))
    } else if sp_oneline_string(s, p) is Some {
        let (v, q, e) = sp_oneline_string(s, p)->0;
        Some((SpecPredicateValue::OneLineString(v), q, e))
    } else if sp_multiline_string(s, p) is Some {
        let (v, q, e) = sp_multiline_string(s, p)->0;
        Some((SpecPredicateValue::MultilineString(v), q, e))
    } else {
        None
    }
}

/// Which values a predicate function expects; another value is kept and
/// reported.
#[derive(Clone, Copy, Debug, PartialEq, Eq, Structural)]
pub enum ValueCheck {
    /// Any value.
    Any,
    /// A number, a template, or a string (`>`, `>=`, `<`, `<=`).
    Ordered,
    /// A string, hex or base64 bytes (`startsWith`, `endsWith`, `contains`).
    Text,
    /// A string (`matches`).
    Pattern,
}

pub open spec fn value_ok(c: ValueCheck, v: SpecPredicateValue) -> bool {
    match c {
        ValueCheck::Any => true,
        ValueCheck::Ordered => v is Integer || v is Float || v is BigInteger || v is Template
            || v is OneLineString || v is QuotedString,
        ValueCheck::Text => v is OneLineString || v is QuotedString || v is OneLineHex
            || v is OneLineBase64,
        ValueCheck::Pattern => v is OneLineString || v is QuotedString,
    }
}

/// The operator `w`, one or more spaces, and a value; a value that `c`
/// does not expect adds an error over the operator and the value.
pub open spec fn sp_op_value(s: Seq<char>, p: int, w: Seq<char>, c: ValueCheck) -> SpecRes<
    SpecPredicateValue,
> {
    match kw_sp(s, p, w) {
        Some(q) => match sp_predicate_value(s, q) {
            Some((v, q2, e)) => if value_ok(c, v) {
                Some((v, q2, e))
            } else {
                Some((v, q2, e + one_err(p, q2, ErrorKind::UnexpectedPredicateValue)))
            },
            None => None,
        },
        None => None,
    }
}

/// A comparison: `==`, `!=`, `>`, `>=`, `<` or `<=`, spaces, and a value.
pub open spec fn sp_compare_func(s: Seq<char>, p: int) -> SpecRes<SpecPredicateFunc> {
    if sp_op_value(s, p, "=="@, ValueCheck::Any) is Some {
        let (v, q, e) = sp_op_value(s, p, "=="@, ValueCheck::Any)->0;
        Some((SpecPredicateFunc::Equal { value: v }, q, e))
    } else if sp_op_value(s, p, "!="@, ValueCheck::Any) is Some {
        let (v, q, e) = sp_op_value(s, p, "!="@, ValueCheck::Any)->0;
        Some((SpecPredicateFunc::NotEqual { value: v }, q, e))
    } else if sp_op_value(s, p, ">"@, ValueCheck::Ordered) is Some {
        let (v, q, e) = sp_op_value(s, p, ">"@, ValueCheck::Ordered)->0;
        Some((SpecPredicateFunc::Greater { value: v }, q, e))
    } else if sp_op_value(s, p, ">="@, ValueCheck::Ordered) is Some {
        let (v, q, e) = sp_op_value(s, p, ">="@, ValueCheck::Ordered)->0;
        Some((SpecPredicateFunc::GreaterOrEqual { value: v }, q, e))
    } else if sp_op_value(s, p, "<"@, ValueCheck::Ordered) is Some {
        let (v, q, e) = sp_op_value(s, p, "<"@, ValueCheck::Ordered)->0;
        Some((SpecPredicateFunc::Less { value: v }, q, e))
    } else if sp_op_value(s, p, "<="@, ValueCheck::Ordered) is Some {
        let (v, q, e) = sp_op_value(s, p, "<="@, ValueCheck::Ordered)->0;
        Some((SpecPredicateFunc::LessOrEqual { value: v }, q, e))
    } else {
        None
    }
}

/// A string predicate function: `startsWith`, `endsWith`, `contains`,
/// `includes` or `matches`, spaces, and a value.
pub open spec fn sp_text_func(s: Seq<char>, p: int) -> SpecRes<SpecPredicateFunc> {
    if sp_op_value(s, p, "startsWith"@, ValueCheck::Text) is Some {
        let (v, q, e) = sp_op_value(s, p, "startsWith"@, ValueCheck::Text)->0;
        Some((SpecPredicateFunc::StartWith { value: v }, q, e))
    } else if sp_op_value(s, p, "endsWith"@, ValueCheck::Text) is Some {
        let (v, q, e) = sp_op_value(s, p, "endsWith"@, ValueCheck::Text)->0;
        Some((SpecPredicateFunc::EndWith { value: v }, q, e))
    } else if sp_op_value(s, p, "contains"@, ValueCheck::Text) is Some {
        let (v, q, e) = sp_op_value(s, p, "contains"@, ValueCheck::Text)->0;
        Some((SpecPredicateFunc::Contain { value: v }, q, e))
    } else if sp_op_value(s, p, "includes"@, ValueCheck::Any) is Some {
        let (v, q, e) = sp_op_value(s, p, "includes"@, ValueCheck::Any)->0;
        Some((SpecPredicateFunc::Include { value: v }, q, e))
    } else if sp_op_value(s, p, "matches"@, ValueCheck::Pattern) is Some {
        let (v, q, e) = sp_op_value(s, p, "matches"@, ValueCheck::Pattern)->0;
        Some((SpecPredicateFunc::Match { value: v }, q, e))
    } else {
        None
    }
}

/// A predicate function that takes no value.
pub open spec fn sp_word_func(s: Seq<char>, p: int) -> Option<(SpecPredicateFunc, int)> {
    if lit_end(s, p, "exists"@) is Some {
        Some((SpecPredicateFunc::Exists, lit_end(s, p, "exists"@)->0))
    } else if lit_end(s, p, "isEmpty"@) is Some {
        Some((SpecPredicateFunc::IsEmpty, lit_end(s, p, "isEmpty"@)->0))
    } else if lit_end(s, p, "isInteger"@) is Some {
        Some((SpecPredicateFunc::IsInteger, lit_end(s, p, "isInteger"@)->0))
    } else if lit_end(s, p, "isFloat"@) is Some {
        Some((SpecPredicateFunc::IsFloat, lit_end(s, p, "isFloat"@)->0))
    } else if lit_end(s, p, "isBoolean"@) is Some {
        Some((SpecPredicateFunc::IsBoolean, lit_end(s, p, "isBoolean"@)->0))
    } else if lit_end(s, p, "isString"@) is Some {
        Some((SpecPredicateFunc::IsString, lit_end(s, p, "isString"@)->0))
    } else if lit_end(s, p, "isCollection"@) is Some {
        Some((SpecPredicateFunc::IsCollection, lit_end(s, p, "isCollection"@)->0))
    } else if lit_end(s, p, "isDate"@) is Some {
        Some((SpecPredicateFunc::IsDate, lit_end(s, p, "isDate"@)->0))
    } else if lit_end(s, p, "isIsoDate"@) is Some {
        Some((SpecPredicateFunc::IsIsoDate, lit_end(s, p, "isIsoDate"@)->0))
    } else {
        None
    }
}

/// A predicate function: a comparison, else a string function, else one
/// without a value.
pub open spec fn sp_predicate_func(s: Seq<char>, p: int) -> SpecRes<SpecPredicateFunc> {
    if sp_compare_func(s, p) is Some {
        sp_compare_func(s, p)
    } else if sp_text_func(s, p) is Some {
        sp_text_func(s, p)
    } else {
        match sp_word_func(s, p) {
            Some((f, q)) => Some((f, q, Seq::empty())),
            None => None,
        }
    }
}

/// An optional `not` followed by one or more spaces, then a predicate function.
pub open spec fn sp_predicate(s: Seq<char>, p: int) -> SpecRes<SpecPredicate> {
    let (prefix, q) = match kw_sp(s, p, "not"@) {
        Some(q) => (Some(PredicatePrefixOperator::Not), q),
        None => (None, p),
    };
    match sp_predicate_func(s, q) {
        Some((f, q2, e)) => Some((SpecPredicate { prefix, function: f }, q2, e)),
        None => None,
    }
}

// ---------------------------------------------------------------------------

/// The value of an integer text `s[p..e]` (an optional `-`, then digits),
/// when it fits in an `i64`.
pub fn integer_i64(s: &Vec<char>, p: usize, e: usize) -> (r: Option<i64>)
    requires
        p < e <= s@.len(),
        s@[p as int] == '-' ==> p + 1 < e,
        forall|j: int|
            (if s@[p as int] == '-' {
                p + 1
            } else {
                p as int
            }) <= j < e ==> crate::base::is_digit(#[trigger] s@[j]),
    ensures
        match r {
            Some(v) => v == number_value(s@, p as int, e as int),
            None => !(i64::MIN <= number_value(s@, p as int, e as int) <= i64::MAX),
        },
{
    let neg = s[p] == '-';
    let a = if neg {
        p + 1
    } else {
        p
    };
    proof {
        crate::base::lemma_dec_value_nonneg(s@, a as int, e as int);
    }
    match decimal_u64(s, a, e) {
        None => None,
        Some(v) => {
            if neg {
                if v <= 9223372036854775807 {
                    Some(0 - (v as i64))
                } else if v == 9223372036854775808 {
                    Some(i64::MIN)
                } else {
                    None
                }
            } else {
                if v <= 9223372036854775807 {
                    Some(v as i64)
                } else {
                    None
                }
            }
        },
    }
}

/// The number at `p`, if one starts there.
pub fn parse_number(s: &Vec<char>, p: usize) -> (r: Option<(PredicateValue, usize)>)
    requires
        p <= s@.len(),
    ensures
        match r {
            Some((v, q)) => sp_number(s@, p as int) == Some((v@, q as int)) && p < q <= s@.len(),
            None => sp_number(s@, p as int) is None,
        },
{
    let len = s.len();
    let q = if p < len && s[p] == '-' {
        p + 1
    } else {
        p
    };
    let e = int_end_exec(s, q);
    if e == q {
        return None;
    }
    if e < len && s[e] == '.' {
        let f = crate::base::run_end_exec(
            s,
            e + 1,
            (|c: char| -> (b: bool)
                ensures
                    b == crate::base::is_digit(c),
                { crate::base::is_digit_exec(c) }),
            Ghost(digit_pred()),
        );
        if f > e + 1 {
            return Some((PredicateValue::Float(string_of(s, p, f)), f));
        }
    }
    match integer_i64(s, p, e) {
        Some(v) => Some((PredicateValue::Integer(v), e)),
        None => Some((PredicateValue::BigInteger(string_of(s, p, e)), e)),
    }
}

pub fn parse_predicate_value(s: &Vec<char>, p: usize) -> (r: Option<
    (PredicateValue, usize, Vec<ParseError>),
>)
    requires
        p <= s@.len(),
    ensures
        crate::base::res_view(r) == sp_predicate_value(s@, p as int),
        r matches Some((_, q, _)) ==> p < q <= s@.len(),
        r matches Some((_, q, e)) ==> errs_within(e@, p as int, q as int),
{
    proof {
        reveal_strlit("true");
        reveal_strlit("false");
        reveal_strlit("null");
    }
    if let Some(q) = lit_end_exec(s, p, "true") {
        return Some((PredicateValue::Boolean(true), q, Vec::new()));
    }
    if let Some(q) = lit_end_exec(s, p, "false") {
        return Some((PredicateValue::Boolean(false), q, Vec::new()));
    }
    if let Some(q) = lit_end_exec(s, p, "null") {
        return Some((PredicateValue::Null, q, Vec::new()));
    }
    if let Some((v, q)) = parse_number(s, p) {
        return Some((v, q, Vec::new()));
    }
    if let Some((t, q, e)) = template_at(s, p) {
        return Some((PredicateValue::Template(t), q, e));
    }
    if let Some((v, q, e)) = quoted_string_at(s, p) {
        return Some((PredicateValue::QuotedString(v), q, e));
    }
    if let Some((v, q)) = oneline_hex_parser(s, p) {
        return Some((PredicateValue::OneLineHex(v), q, Vec::new()));
    }
    if let Some((v, q, e)) = oneline_file_parser(s, p) {
        return Some((PredicateValue::OneLineFile(v), q, e));
    }
    if let Some((v, q)) = oneline_base64_parser(s, p) {
        return Some((PredicateValue::OneLineBase64(v), q, Vec::new()));
    }
    if let Some((v, q, e)) = oneline_string_at(s, p) {
        return Some((PredicateValue::OneLineString(v), q, e));
    }
    if let Some((v, q, e)) = multiline_string_at(s, p) {
        return Some((PredicateValue::MultilineString(v), q, e));
    }
    None
}

fn value_ok_exec(c: ValueCheck, v: &PredicateValue) -> (b: bool)
    ensures
        b == value_ok(c, v@),
{
    match c {
        ValueCheck::Any => true,
        ValueCheck::Ordered => match v {
            PredicateValue::Integer(_) | PredicateValue::Float(_) | PredicateValue::BigInteger(_)
            | PredicateValue::Template(_) | PredicateValue::OneLineString(_)
            | PredicateValue::QuotedString(_) => true,
            _ => false,
        },
        ValueCheck::Text => match v {
            PredicateValue::OneLineString(_) | PredicateValue::QuotedString(_)
            | PredicateValue::OneLineHex(_) | PredicateValue::OneLineBase64(_) => true,
            _ => false,
        },
        ValueCheck::Pattern => match v {
            PredicateValue::OneLineString(_) | PredicateValue::QuotedString(_) => true,
            _ => false,
        },
    }
}

fn parse_op_value(s: &Vec<char>, p: usize, w: &str, c: ValueCheck) -> (r: Option<
    (PredicateValue, usize, Vec<ParseError>),
>)
    requires
        p <= s@.len(),
    ensures
        crate::base::res_view(r) == sp_op_value(s@, p as int, w@, c),
        r matches Some((_, q, _)) ==> p < q <= s@.len(),
        r matches Some((_, q, e)) ==> errs_within(e@, p as int, q as int),
{
    match kw_sp_exec(s, p, w) {
        Some(q) => match parse_predicate_value(s, q) {
            Some((v, q2, mut e)) => {
                if !value_ok_exec(c, &v) {
                    let mut e2 = one_err_exec(p, q2, ErrorKind::UnexpectedPredicateValue);
                    e.append(&mut e2);
                }
                Some((v, q2, e))
            },
            None => None,
        },
        None => None,
    }
}

fn parse_compare_func(s: &Vec<char>, p: usize) -> (r: Option<
    (PredicateFunc, usize, Vec<ParseError>),
>)
    requires
        p <= s@.len(),
    ensures
        crate::base::res_view(r) == sp_compare_func(s@, p as int),
        r matches Some((_, q, _)) ==> p < q <= s@.len(),
        r matches Some((_, q, e)) ==> errs_within(e@, p as int, q as int),
{
    if let Some((v, q, e)) = parse_op_value(s, p, "==", ValueCheck::Any) {
        return Some((PredicateFunc::Equal { value: v }, q, e));
    }
    if let Some((v, q, e)) = parse_op_value(s, p, "!=", ValueCheck::Any) {
        return Some((PredicateFunc::NotEqual { value: v }, q, e));
    }
    if let Some((v, q, e)) = parse_op_value(s, p, ">", ValueCheck::Ordered) {
        return Some((PredicateFunc::Greater { value: v }, q, e));
    }
    if let Some((v, q, e)) = parse_op_value(s, p, ">=", ValueCheck::Ordered) {
        return Some((PredicateFunc::GreaterOrEqual { value: v }, q, e));
    }
    if let Some((v, q, e)) = parse_op_value(s, p, "<", ValueCheck::Ordered) {
        return Some((PredicateFunc::Less { value: v }, q, e));
    }
    if let Some((v, q, e)) = parse_op_value(s, p, "<=", ValueCheck::Ordered) {
        return Some((PredicateFunc::LessOrEqual { value: v }, q, e));
    }
    None
}

fn parse_text_func(s: &Vec<char>, p: usize) -> (r: Option<
    (PredicateFunc, usize, Vec<ParseError>),
>)
    requires
        p <= s@.len(),
    ensures
        crate::base::res_view(r) == sp_text_func(s@, p as int),
        r matches Some((_, q, _)) ==> p < q <= s@.len(),
        r matches Some((_, q, e)) ==> errs_within(e@, p as int, q as int),
{
    if let Some((v, q, e)) = parse_op_value(s, p, "startsWith", ValueCheck::Text) {
        return Some((PredicateFunc::StartWith { value: v }, q, e));
    }
    if let Some((v, q, e)) = parse_op_value(s, p, "endsWith", ValueCheck::Text) {
        return Some((PredicateFunc::EndWith { value: v }, q, e));
    }
    if let Some((v, q, e)) = parse_op_value(s, p, "contains", ValueCheck::Text) {
        return Some((PredicateFunc::Contain { value: v }, q, e));
    }
    if let Some((v, q, e)) = parse_op_value(s, p, "includes", ValueCheck::Any) {
        return Some((PredicateFunc::Include { value: v }, q, e));
    }
    if let Some((v, q, e)) = parse_op_value(s, p, "matches", ValueCheck::Pattern) {
        return Some((PredicateFunc::Match { value: v }, q, e));
    }
    None
}

fn parse_word_func(s: &Vec<char>, p: usize) -> (r: Option<(PredicateFunc, usize)>)
    requires
        p <= s@.len(),
    ensures
        match r {
            Some((f, q)) => sp_word_func(s@, p as int) == Some((f@, q as int)) && p < q <= s@.len(),
            None => sp_word_func(s@, p as int) is None,
        },
{
    proof {
        reveal_strlit("exists");
        reveal_strlit("isEmpty");
        reveal_strlit("isInteger");
        reveal_strlit("isFloat");
        reveal_strlit("isBoolean");
        reveal_strlit("isString");
        reveal_strlit("isCollection");
        reveal_strlit("isDate");
        reveal_strlit("isIsoDate");
    }
    if let Some(q) = lit_end_exec(s, p, "exists") {
        return Some((PredicateFunc::Exists, q));
    }
    if let Some(q) = lit_end_exec(s, p, "isEmpty") {
        return Some((PredicateFunc::IsEmpty, q));
    }
    if let Some(q) = lit_end_exec(s, p, "isInteger") {
        return Some((PredicateFunc::IsInteger, q));
    }
    if let Some(q) = lit_end_exec(s, p, "isFloat") {
        return Some((PredicateFunc::IsFloat, q));
    }
    if let Some(q) = lit_end_exec(s, p, "isBoolean") {
        return Some((PredicateFunc::IsBoolean, q));
    }
    if let Some(q) = lit_end_exec(s, p, "isString") {
        return Some((PredicateFunc::IsString, q));
    }
    if let Some(q) = lit_end_exec(s, p, "isCollection") {
        return Some((PredicateFunc::IsCollection, q));
    }
    if let Some(q) = lit_end_exec(s, p, "isDate") {
        return Some((PredicateFunc::IsDate, q));
    }
    if let Some(q) = lit_end_exec(s, p, "isIsoDate") {
        return Some((PredicateFunc::IsIsoDate, q));
    }
    None
}

pub fn parse_predicate_func(s: &Vec<char>, p: usize) -> (r: Option<
    (PredicateFunc, usize, Vec<ParseError>),
>)
    requires
        p <= s@.len(),
    ensures
        crate::base::res_view(r) == sp_predicate_func(s@, p as int),
        r matches Some((_, q, _)) ==> p < q <= s@.len(),
        r matches Some((_, q, e)) ==> errs_within(e@, p as int, q as int),
{
    if let Some(r) = parse_compare_func(s, p) {
        return Some(r);
    }
    if let Some(r) = parse_text_func(s, p) {
        return Some(r);
    }
    match parse_word_func(s, p) {
        Some((f, q)) => Some((f, q, Vec::new())),
        None => None,
    }
}

/// The predicate at `p`, if one starts there.
pub fn predicate_parser(s: &Vec<char>, p: usize) -> (r: Option<(Predicate, usize, Vec<ParseError>)>)
    requires
        p <= s@.len(),
    ensures
        crate::base::res_view(r) == sp_predicate(s@, p as int),
        r matches Some((_, q, _)) ==> p < q <= s@.len(),
        r matches Some((_, q, e)) ==> errs_within(e@, p as int, q as int),
{
    let (prefix, q) = match kw_sp_exec(s, p, "not") {
        Some(q) => (Some(PredicatePrefixOperator::Not), q),
        None => (None, p),
    };
    match parse_predicate_func(s, q) {
        Some((f, q2, e)) => Some((Predicate { prefix, function: f }, q2, e)),
        None => None,
    }
}


/// The operators that compare by order, in the order the grammar tries them.
pub open spec fn ordering_op(k: int) -> Seq<char> {
    if k == 0 {
        ">"@
    } else if k == 1 {
        ">="@
    } else if k == 2 {
        "<"@
    } else {
        "<="@
    }
}

/// The predicate function of the ordering operator `ordering_op(k)`.
pub open spec fn ordering_func(k: int, v: SpecPredicateValue) -> SpecPredicateFunc {
    if k == 0 {
        SpecPredicateFunc::Greater { value: v }
    } else if k == 1 {
        SpecPredicateFunc::GreaterOrEqual { value: v }
    } else if k == 2 {
        SpecPredicateFunc::Less { value: v }
    } else {
        SpecPredicateFunc::LessOrEqual { value: v }
    }
}

/// An ordering operator, a space and a value are read as a predicate with
/// no prefix: the operator's function over that value, with one
/// "unexpected predicate value" diagnostic over the whole text exactly when
/// the value is not an integer, a float, a big integer, a template, a
/// one-line string or a quoted string.
pub proof fn lemma_ordering_predicate(s: Seq<char>, k: int)
    requires
        0 <= k < 4,
        ordering_op(k).len() < s.len(),
        s.subrange(0, ordering_op(k).len() as int) == ordering_op(k),
        s[ordering_op(k).len() as int] == ' ',
        sp_predicate_value(s, skip_sp(s, ordering_op(k).len() as int)) is Some,
    ensures
        ({
            let (v, q, e) = sp_predicate_value(s, skip_sp(s, ordering_op(k).len() as int))->0;
            sp_predicate(s, 0) == Some(
                (
                    SpecPredicate { prefix: None, function: ordering_func(k, v) },
                    q,
                    if v is Integer || v is Float || v is BigInteger || v is Template
                        || v is OneLineString || v is QuotedString {
                        e
                    } else {
                        e + one_err(0, q, ErrorKind::UnexpectedPredicateValue)
                    },
                ),
            )
        }),
{
    lemma_ordering_heads(s, k);
    let n = ordering_op(k).len() as int;
    let q = skip_sp(s, n);
    let (v, q2, e) = sp_predicate_value(s, q)->0;
    assert(sp_predicate_func(s, 0) == Some(
        (
            ordering_func(k, v),
            q2,
            if value_ok(ValueCheck::Ordered, v) {
                e
            } else {
                e + one_err(0, q2, ErrorKind::UnexpectedPredicateValue)
            },
        ),
    ));
}

/// What the heads of the predicates read on a text that starts with an
/// ordering operator and a space: that operator, and none of the ones the
/// grammar tries before it.
proof fn lemma_ordering_heads(s: Seq<char>, k: int)
    requires
        0 <= k < 4,
        ordering_op(k).len() < s.len(),
        s.subrange(0, ordering_op(k).len() as int) == ordering_op(k),
        s[ordering_op(k).len() as int] == ' ',
    ensures
        kw_sp(s, 0, "not"@) is None,
        kw_sp(s, 0, "=="@) is None,
        kw_sp(s, 0, "!="@) is None,
        k != 0 ==> kw_sp(s, 0, ">"@) is None,
        k != 0 && k != 1 ==> kw_sp(s, 0, ">="@) is None,
        k == 3 ==> kw_sp(s, 0, "<"@) is None,
        kw_sp(s, 0, ordering_op(k)) == Some(skip_sp(s, ordering_op(k).len() as int)),
{
    reveal_strlit("not");
    reveal_strlit("==");
    reveal_strlit("!=");
    reveal_strlit(">");
    reveal_strlit(">=");
    reveal_strlit("<");
    reveal_strlit("<=");
    let n = ordering_op(k).len() as int;
    lemma_skip_sp(s, n);
    assert(s[0] == s.subrange(0, n)[0]);
    if k == 1 || k == 3 {
        assert(s[1] == s.subrange(0, n)[1]);
        assert(skip_sp(s, 1) == 1);
    }
    assert forall|w: Seq<char>| w.len() >= 1 && w[0] != s[0] implies !matches_at(s, 0, w) by {
        if matches_at(s, 0, w) {
            assert(s.subrange(0, w.len() as int)[0] == s[0]);
        }
    }
    assert(ordering_op(k)[0] == s[0]);
}


/// A predicate integer written with a leading minus is the negation of the
/// same integer written without it: where the digits at `p + 1` are read
/// as `Integer(n)`, the text from the minus at `p` is read as
/// `Integer(-n)`, to the same place and with the same diagnostics.
pub proof fn lemma_negative_integer(s: Seq<char>, p: int)
    requires
        0 <= p,
        p + 1 < s.len(),
        s[p] == '-',
        is_digit(s[p + 1]),
        sp_predicate_value(s, p + 1) matches Some((SpecPredicateValue::Integer(_), _, _)),
    ensures
        match sp_predicate_value(s, p + 1) {
            Some((SpecPredicateValue::Integer(n), q, e)) => sp_predicate_value(s, p) == Some(
                (SpecPredicateValue::Integer((-n) as i64), q, e),
            ),
            _ => true,
        },
{
    reveal_strlit("true");
    reveal_strlit("false");
    reveal_strlit("null");
    assert forall|w: Seq<char>, i: int|
        (i == p || i == p + 1) && w.len() >= 1 && (w[0] == 't' || w[0] == 'f' || w[0] == 'n')
            implies !(#[trigger] matches_at(s, i, w)) by {
        if matches_at(s, i, w) {
            assert(s.subrange(i, i + w.len())[0] == s[i]);
        }
    }
    assert(!matches_at(s, p, "true"@) && !matches_at(s, p + 1, "true"@));
    assert(!matches_at(s, p, "false"@) && !matches_at(s, p + 1, "false"@));
    assert(!matches_at(s, p, "null"@) && !matches_at(s, p + 1, "null"@));
    let e = int_end(s, p + 1);
    assert(number_value(s, p, e) == -dec_value(s, p + 1, e));
    assert(number_value(s, p + 1, e) == dec_value(s, p + 1, e));
    if s[p + 1] != '0' {
        lemma_run_end(s, p + 2, digit_pred());
    }
    crate::base::lemma_dec_value_nonneg(s, p + 1, e);
}


/// A predicate decimal number written with a leading minus keeps the
/// minus: where the text at `p + 1` is read as `Float(t)`, the text from
/// the minus at `p` is read as `Float` of the minus followed by `t`, to the
/// same place and with no diagnostic.
#[verifier::rlimit(40)]
pub proof fn lemma_negative_float(s: Seq<char>, p: int)
    requires
        0 <= p,
        p + 1 < s.len(),
        s[p] == '-',
        is_digit(s[p + 1]),
        sp_predicate_value(s, p + 1) matches Some((SpecPredicateValue::Float(_), _, _)),
    ensures
        match sp_predicate_value(s, p + 1) {
            Some((SpecPredicateValue::Float(t), q, e)) => sp_predicate_value(s, p) == Some(
                (SpecPredicateValue::Float(seq!['-'] + t), q, e),
            ),
            _ => true,
        },
{
    reveal_strlit("true");
    reveal_strlit("false");
    reveal_strlit("null");
    assert forall|w: Seq<char>, i: int|
        (i == p || i == p + 1) && w.len() >= 1 && (w[0] == 't' || w[0] == 'f' || w[0] == 'n')
            implies !(#[trigger] matches_at(s, i, w)) by {
        if matches_at(s, i, w) {
            assert(s.subrange(i, i + w.len())[0] == s[i]);
        }
    }
    assert(!matches_at(s, p, "true"@) && !matches_at(s, p + 1, "true"@));
    assert(!matches_at(s, p, "false"@) && !matches_at(s, p + 1, "false"@));
    assert(!matches_at(s, p, "null"@) && !matches_at(s, p + 1, "null"@));
    lemma_negative_number_text(s, p);
}

/// The number read at a minus ends where the number read after it ends,
/// and a decimal one keeps the minus in its text.
proof fn lemma_negative_number_text(s: Seq<char>, p: int)
    requires
        0 <= p,
        p + 1 < s.len(),
        s[p] == '-',
        is_digit(s[p + 1]),
    ensures
        sp_number(s, p + 1) matches Some((SpecPredicateValue::Float(t), f)) ==> sp_number(s, p)
            == Some((SpecPredicateValue::Float(seq!['-'] + t), f)),
{
    let e = int_end(s, p + 1);
    let f = run_end(s, e + 1, digit_pred());
    if s[p + 1] != '0' {
        lemma_run_end(s, p + 2, digit_pred());
    }
    assert(p + 1 < e);
    if char_at(s, e) == Some('.') && f > e + 1 {
        lemma_run_end(s, e + 1, digit_pred());
        assert(s.subrange(p, f) =~= seq!['-'] + s.subrange(p + 1, f));
    }
}

} // verus!
