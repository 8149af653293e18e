//! The lines of an `[Options]` section: `name: value`, then a line
//! terminator, where the name decides which kind of value follows.
use vstd::prelude::*;
use crate::base::{lemma_errs_append, is_ascii_alphanumeric, is_ascii_alphanumeric_exec,
    point_error, point_error_exec, run_end, run_end_exec, errs_within, lemma_skip_sp, matches_at, 
    ErrorKind, ParseError, SpecParser, SpecRes, char_at, dec_value, decimal_u64, lit_end,
    lit_end_exec, many, many_from, skip_sp, skip_sp_exec, string_of,
};
use crate::http_status::{one_err, one_err_exec};
use crate::key_value::{key_parser, value_parser, sp_key, sp_value};
use crate::model::{
    SpecBooleanOption, SpecDurationOption, SpecIntegerOption, SpecInterpolatedString,
    SpecPredicateValue, SpecRequestOption, SpecVariableDefinitionOption, SpecVariableValue,
};
use crate::oneline::{filename_at, sp_filename};
use crate::predicate::{parse_number, sp_number};
use crate::primitives::{parse_lt, sp_lt};
use crate::template::{
    int_end, int_end_exec, quoted_string_at, template_at, variable_name_at, sp_quoted,
    sp_template, sp_variable_name,
};
use crate::types::{
    BooleanOption, Duration, DurationOption, DurationUnit, IntegerOption, InterpolatedString,
    PredicateValue, RequestOption, VariableDefinitionOption, VariableValue, lemma_seq_view_empty,
    lemma_seq_view_push, seq_view,
};

verus! {

broadcast use lemma_seq_view_push, lemma_seq_view_empty;

/// Spaces, the option name `w`, spaces, `:`, spaces: the position after them.
pub open spec fn option_head(s: Seq<char>, p: int, w: Seq<char>) -> Option<int> {
    match lit_end(s, skip_sp(s, p), w) {
        Some(q) => {
            let q1 = skip_sp(s, q);
            if char_at(s, q1) == Some(':') {
                Some(skip_sp(s, q1 + 1))
            } else {
                None
            }
        },
        None => None,
    }
}

/// The option `w` whose value `f` reads, then a line terminator.
#[verifier::opaque]
pub open spec fn sp_option<V>(s: Seq<char>, p: int, w: Seq<char>, f: SpecParser<V>) -> SpecRes<V> {
    match option_head(s, p, w) {
        Some(q) => match f(s, q) {
            Some((v, q2, e)) => match sp_lt(s, q2) {
                Some(q3) => Some((v, q3, e)),
                None => None,
            },
            None => None,
        },
        None => None,
    }
}

/// `false`, `true`, or a template.
pub open spec fn sp_boolean_value(s: Seq<char>, q: int) -> SpecRes<SpecBooleanOption> {
    if lit_end(s, q, "false"@) is Some {
        Some((SpecBooleanOption::Literal(false), lit_end(s, q, "false"@)->0, Seq::empty()))
    } else if lit_end(s, q, "true"@) is Some {
        Some((SpecBooleanOption::Literal(true), lit_end(s, q, "true"@)->0, Seq::empty()))
    } else {
        match sp_template(s, q) {
            Some((t, q2, e)) => Some((SpecBooleanOption::Template(t), q2, e)),
            None => None,
        }
    }
}

/// The unit after a duration's digits, `ms`, `s` or `m`, if any.
pub open spec fn duration_unit(s: Seq<char>, q: int) -> (Option<DurationUnit>, int) {
    if lit_end(s, q, "ms"@) is Some {
        (Some(DurationUnit::Millisecond), q + 2)
    } else if char_at(s, q) == Some('s') {
        (Some(DurationUnit::Second), q + 1)
    } else if char_at(s, q) == Some('m') {
        (Some(DurationUnit::Minute), q + 1)
    } else {
        (None, q)
    }
}

/// A template, or an integer without leading zeros that fits in a `u64`
/// and an optional unit.
pub open spec fn sp_duration_value(s: Seq<char>, q: int) -> SpecRes<SpecDurationOption> {
    match sp_template(s, q) {
        Some((t, q2, e)) => Some((SpecDurationOption::Template(t), q2, e)),
        None => {
            let e = int_end(s, q);
            if e > q && dec_value(s, q, e) <= u64::MAX {
                let (u, q2) = duration_unit(s, e);
                Some(
                    (
                        SpecDurationOption::Literal(
                            Duration { duration: dec_value(s, q, e) as u64, unit: u },
                        ),
                        q2,
                        Seq::empty(),
                    ),
                )
            } else {
                None
            }
        },
    }
}

/// An integer without leading zeros (kept as its text, and reported, when
/// it does not fit in a `u64`), else a template.
pub open spec fn sp_integer_value(s: Seq<char>, q: int) -> SpecRes<SpecIntegerOption> {
    let e = int_end(s, q);
    if e > q {
        if dec_value(s, q, e) <= u64::MAX {
            Some((SpecIntegerOption::Literal(dec_value(s, q, e) as u64), e, Seq::empty()))
        } else {
            Some(
                (
                    SpecIntegerOption::BigInteger(s.subrange(q, e)),
                    e,
                    one_err(q, e, ErrorKind::IntegerTooLarge),
                ),
            )
        }
    } else {
        match sp_template(s, q) {
            Some((t, q2, e2)) => Some((SpecIntegerOption::Template(t), q2, e2)),
            None => None,
        }
    }
}

/// A number as the value of a variable.
pub open spec fn number_as_variable(v: SpecPredicateValue) -> SpecVariableValue {
    match v {
        SpecPredicateValue::Integer(n) => SpecVariableValue::Integer(n),
        SpecPredicateValue::Float(t) => SpecVariableValue::Float(t),
        SpecPredicateValue::BigInteger(t) => SpecVariableValue::BigInteger(t),
        _ => SpecVariableValue::Invalid,
    }
}

/// `null`, `true`, `false`, a number, a key string, or a quoted string.
pub open spec fn sp_variable_value(s: Seq<char>, q: int) -> SpecRes<SpecVariableValue> {
    if lit_end(s, q, "null"@) is Some {
        Some((SpecVariableValue::Null, lit_end(s, q, "null"@)->0, Seq::empty()))
    } else if lit_end(s, q, "true"@) is Some {
        Some((SpecVariableValue::Boolean(true), lit_end(s, q, "true"@)->0, Seq::empty()))
    } else if lit_end(s, q, "false"@) is Some {
        Some((SpecVariableValue::Boolean(false), lit_end(s, q, "false"@)->0, Seq::empty()))
    } else if sp_number(s, q) is Some {
        let (v, q2) = sp_number(s, q)->0;
        Some((number_as_variable(v), q2, Seq::empty()))
    } else if sp_key(s, q) is Some {
        let (v, q2, e) = sp_key(s, q)->0;
        Some((SpecVariableValue::String(v), q2, e))
    } else if sp_quoted(s, q) is Some {
        let (v, q2, e) = sp_quoted(s, q)->0;
        Some((SpecVariableValue::String(v), q2, e))
    } else {
        None
    }
}

/// A variable name, spaces, `=`, spaces, a variable value.
pub open spec fn sp_variable_definition(s: Seq<char>, q: int) -> SpecRes<
    SpecVariableDefinitionOption,
> {
    match sp_variable_name(s, q) {
        Some((n, q1)) => {
            let q2 = skip_sp(s, q1);
            if char_at(s, q2) == Some('=') {
                match sp_variable_value(s, skip_sp(s, q2 + 1)) {
                    Some((v, q3, e)) => Some(
                        (SpecVariableDefinitionOption { name: n, value: v }, q3, e),
                    ),
                    None => None,
                }
            } else {
                None
            }
        },
        None => None,
    }
}

pub open spec fn boolean_value_rule() -> SpecParser<SpecBooleanOption> {
    |s: Seq<char>, q: int| sp_boolean_value(s, q)
}

pub open spec fn duration_value_rule() -> SpecParser<SpecDurationOption> {
    |s: Seq<char>, q: int| sp_duration_value(s, q)
}

pub open spec fn integer_value_rule() -> SpecParser<SpecIntegerOption> {
    |s: Seq<char>, q: int| sp_integer_value(s, q)
}

pub open spec fn string_value_rule() -> SpecParser<SpecInterpolatedString> {
    |s: Seq<char>, q: int| sp_value(s, q)
}

pub open spec fn filename_rule() -> SpecParser<SpecInterpolatedString> {
    |s: Seq<char>, q: int| sp_filename(s, q)
}

pub open spec fn variable_definition_rule() -> SpecParser<SpecVariableDefinitionOption> {
    |s: Seq<char>, q: int| sp_variable_definition(s, q)
}

pub open spec fn sp_bool_opt(s: Seq<char>, p: int, w: Seq<char>) -> SpecRes<SpecBooleanOption> {
    sp_option(s, p, w, boolean_value_rule())
}

pub open spec fn sp_duration_opt(s: Seq<char>, p: int, w: Seq<char>) -> SpecRes<
    SpecDurationOption,
> {
    sp_option(s, p, w, duration_value_rule())
}

pub open spec fn sp_integer_opt(s: Seq<char>, p: int, w: Seq<char>) -> SpecRes<
    SpecIntegerOption,
> {
    sp_option(s, p, w, integer_value_rule())
}

pub open spec fn sp_string_opt(s: Seq<char>, p: int, w: Seq<char>) -> SpecRes<
    SpecInterpolatedString,
> {
    sp_option(s, p, w, string_value_rule())
}

pub open spec fn sp_filename_opt(s: Seq<char>, p: int, w: Seq<char>) -> SpecRes<
    SpecInterpolatedString,
> {
    sp_option(s, p, w, filename_rule())
}

/// The boolean options from `compressed` to `ipv6`.
pub open spec fn sp_boolean_request_option_a(s: Seq<char>, p: int) -> SpecRes<SpecRequestOption> {
    if sp_bool_opt(s, p, "compressed"@) is Some {
        let (v, q, e) = sp_bool_opt(s, p, "compressed"@)->0;
        Some((SpecRequestOption::Compressed(v), q, e))
    } else if sp_bool_opt(s, p, "location-trusted"@) is Some {
        let (v, q, e) = sp_bool_opt(s, p, "location-trusted"@)->0;
        Some((SpecRequestOption::LocationTrusted(v), q, e))
    } else if sp_bool_opt(s, p, "location"@) is Some {
        let (v, q, e) = sp_bool_opt(s, p, "location"@)->0;
        Some((SpecRequestOption::Location(v), q, e))
    } else if sp_bool_opt(s, p, "http1.0"@) is Some {
        let (v, q, e) = sp_bool_opt(s, p, "http1.0"@)->0;
        Some((SpecRequestOption::Http10(v), q, e))
    } else if sp_bool_opt(s, p, "http1.1"@) is Some {
        let (v, q, e) = sp_bool_opt(s, p, "http1.1"@)->0;
        Some((SpecRequestOption::Http11(v), q, e))
    } else if sp_bool_opt(s, p, "http2"@) is Some {
        let (v, q, e) = sp_bool_opt(s, p, "http2"@)->0;
        Some((SpecRequestOption::Http2(v), q, e))
    } else if sp_bool_opt(s, p, "http3"@) is Some {
        let (v, q, e) = sp_bool_opt(s, p, "http3"@)->0;
        Some((SpecRequestOption::Http3(v), q, e))
    } else if sp_bool_opt(s, p, "insecure"@) is Some {
        let (v, q, e) = sp_bool_opt(s, p, "insecure"@)->0;
        Some((SpecRequestOption::Insecure(v), q, e))
    } else if sp_bool_opt(s, p, "ipv4"@) is Some {
        let (v, q, e) = sp_bool_opt(s, p, "ipv4"@)->0;
        Some((SpecRequestOption::Ipv4(v), q, e))
    } else if sp_bool_opt(s, p, "ipv6"@) is Some {
        let (v, q, e) = sp_bool_opt(s, p, "ipv6"@)->0;
        Some((SpecRequestOption::Ipv6(v), q, e))
    } else {
        None
    }
}

/// The boolean options from `netrc-optional` to `very-verbose`.
pub open spec fn sp_boolean_request_option_b(s: Seq<char>, p: int) -> SpecRes<SpecRequestOption> {
    if sp_bool_opt(s, p, "netrc-optional"@) is Some {
        let (v, q, e) = sp_bool_opt(s, p, "netrc-optional"@)->0;
        Some((SpecRequestOption::NetrcOptional(v), q, e))
    } else if sp_bool_opt(s, p, "netrc"@) is Some {
        let (v, q, e) = sp_bool_opt(s, p, "netrc"@)->0;
        Some((SpecRequestOption::Netrc(v), q, e))
    } else if sp_bool_opt(s, p, "path-as-is"@) is Some {
        let (v, q, e) = sp_bool_opt(s, p, "path-as-is"@)->0;
        Some((SpecRequestOption::PathAsIs(v), q, e))
    } else if sp_bool_opt(s, p, "skip"@) is Some {
        let (v, q, e) = sp_bool_opt(s, p, "skip"@)->0;
        Some((SpecRequestOption::Skip(v), q, e))
    } else if sp_bool_opt(s, p, "verbose"@) is Some {
        let (v, q, e) = sp_bool_opt(s, p, "verbose"@)->0;
        Some((SpecRequestOption::Verbose(v), q, e))
    } else if sp_bool_opt(s, p, "very-verbose"@) is Some {
        let (v, q, e) = sp_bool_opt(s, p, "very-verbose"@)->0;
        Some((SpecRequestOption::VeryVerbose(v), q, e))
    } else {
        None
    }
}

/// The options whose value is a duration.
pub open spec fn sp_duration_request_option(s: Seq<char>, p: int) -> SpecRes<SpecRequestOption> {
    if sp_duration_opt(s, p, "connect-timeout"@) is Some {
        let (v, q, e) = sp_duration_opt(s, p, "connect-timeout"@)->0;
        Some((SpecRequestOption::ConnectTimeout(v), q, e))
    } else if sp_duration_opt(s, p, "delay"@) is Some {
        let (v, q, e) = sp_duration_opt(s, p, "delay"@)->0;
        Some((SpecRequestOption::Delay(v), q, e))
    } else if sp_duration_opt(s, p, "retry-interval"@) is Some {
        let (v, q, e) = sp_duration_opt(s, p, "retry-interval"@)->0;
        Some((SpecRequestOption::RetryInterval(v), q, e))
    } else {
        None
    }
}

/// The options whose value is an integer.
pub open spec fn sp_integer_request_option(s: Seq<char>, p: int) -> SpecRes<SpecRequestOption> {
    if sp_integer_opt(s, p, "limit-rate"@) is Some {
        let (v, q, e) = sp_integer_opt(s, p, "limit-rate"@)->0;
        Some((SpecRequestOption::LimitRate(v), q, e))
    } else if sp_integer_opt(s, p, "max-redirs"@) is Some {
        let (v, q, e) = sp_integer_opt(s, p, "max-redirs"@)->0;
        Some((SpecRequestOption::MaxRedirs(v), q, e))
    } else if sp_integer_opt(s, p, "repeat"@) is Some {
        let (v, q, e) = sp_integer_opt(s, p, "repeat"@)->0;
        Some((SpecRequestOption::Repeat(v), q, e))
    } else if sp_integer_opt(s, p, "retry"@) is Some {
        let (v, q, e) = sp_integer_opt(s, p, "retry"@)->0;
        Some((SpecRequestOption::Retry(v), q, e))
    } else {
        None
    }
}

/// The options whose value is a value string.
pub open spec fn sp_string_request_option(s: Seq<char>, p: int) -> SpecRes<SpecRequestOption> {
    if sp_string_opt(s, p, "aws-sigv4"@) is Some {
        let (v, q, e) = sp_string_opt(s, p, "aws-sigv4"@)->0;
        Some((SpecRequestOption::AwsSigv4(v), q, e))
    } else if sp_string_opt(s, p, "connect-to"@) is Some {
        let (v, q, e) = sp_string_opt(s, p, "connect-to"@)->0;
        Some((SpecRequestOption::ConnectTo(v), q, e))
    } else if sp_string_opt(s, p, "netrc-file"@) is Some {
        let (v, q, e) = sp_string_opt(s, p, "netrc-file"@)->0;
        Some((SpecRequestOption::NetrcFile(v), q, e))
    } else if sp_string_opt(s, p, "proxy"@) is Some {
        let (v, q, e) = sp_string_opt(s, p, "proxy"@)->0;
        Some((SpecRequestOption::Proxy(v), q, e))
    } else if sp_string_opt(s, p, "resolve"@) is Some {
        let (v, q, e) = sp_string_opt(s, p, "resolve"@)->0;
        Some((SpecRequestOption::Resolve(v), q, e))
    } else if sp_string_opt(s, p, "unix-socket"@) is Some {
        let (v, q, e) = sp_string_opt(s, p, "unix-socket"@)->0;
        Some((SpecRequestOption::UnixSocket(v), q, e))
    } else if sp_string_opt(s, p, "user"@) is Some {
        let (v, q, e) = sp_string_opt(s, p, "user"@)->0;
        Some((SpecRequestOption::User(v), q, e))
    } else {
        None
    }
}

/// The options whose value is a file name (`cert` takes a file name with a password, written the same way).
pub open spec fn sp_filename_request_option(s: Seq<char>, p: int) -> SpecRes<SpecRequestOption> {
    if sp_filename_opt(s, p, "cacert"@) is Some {
        let (v, q, e) = sp_filename_opt(s, p, "cacert"@)->0;
        Some((SpecRequestOption::Cacert(v), q, e))
    } else if sp_filename_opt(s, p, "key"@) is Some {
        let (v, q, e) = sp_filename_opt(s, p, "key"@)->0;
        Some((SpecRequestOption::Key(v), q, e))
    } else if sp_filename_opt(s, p, "output"@) is Some {
        let (v, q, e) = sp_filename_opt(s, p, "output"@)->0;
        Some((SpecRequestOption::Output(v), q, e))
    } else if sp_filename_opt(s, p, "cert"@) is Some {
        let (v, q, e) = sp_filename_opt(s, p, "cert"@)->0;
        Some((SpecRequestOption::Cert(v), q, e))
    } else {
        None
    }
}

/// `variable`, then a variable definition.
pub open spec fn sp_variable_request_option(s: Seq<char>, p: int) -> SpecRes<SpecRequestOption> {
    match sp_option(s, p, "variable"@, variable_definition_rule()) {
        Some((v, q, e)) => Some((SpecRequestOption::Variable(v), q, e)),
        None => None,
    }
}

/// An option line: the first of the option kinds that matches at `p`.
pub open spec fn sp_request_option(s: Seq<char>, p: int) -> SpecRes<SpecRequestOption> {
    if sp_boolean_request_option_a(s, p) is Some {
        sp_boolean_request_option_a(s, p)
    } else if sp_boolean_request_option_b(s, p) is Some {
        sp_boolean_request_option_b(s, p)
    } else if sp_duration_request_option(s, p) is Some {
        sp_duration_request_option(s, p)
    } else if sp_integer_request_option(s, p) is Some {
        sp_integer_request_option(s, p)
    } else if sp_string_request_option(s, p) is Some {
        sp_string_request_option(s, p)
    } else if sp_filename_request_option(s, p) is Some {
        sp_filename_request_option(s, p)
    } else {
        sp_variable_request_option(s, p)
    }
}

pub open spec fn request_option_rule() -> SpecParser<SpecRequestOption> {
    |s: Seq<char>, p: int| sp_request_option(s, p)
}

/// Zero or more option lines.
pub open spec fn sp_request_options(s: Seq<char>, p: int) -> (
    Seq<SpecRequestOption>,
    int,
    Seq<ParseError>,
) {
    many(request_option_rule(), s, p)
}

// ---------------------------------------------------------------------------

pub fn parse_option_head(s: &Vec<char>, p: usize, w: &str) -> (r: Option<usize>)
    requires
        p <= s@.len(),
    ensures
        match r {
            Some(q) => option_head(s@, p as int, w@) == Some(q as int) && p < q <= s@.len(),
            None => option_head(s@, p as int, w@) is None,
        },
{
    let p0 = skip_sp_exec(s, p);
    match lit_end_exec(s, p0, w) {
        Some(q) => {
            let q1 = skip_sp_exec(s, q);
            if q1 < s.len() && s[q1] == ':' {
                Some(skip_sp_exec(s, q1 + 1))
            } else {
                None
            }
        },
        None => None,
    }
}

pub fn parse_boolean_value(s: &Vec<char>, q: usize) -> (r: Option<
    (BooleanOption, usize, Vec<ParseError>),
>)
    requires
        q <= s@.len(),
    ensures
        crate::base::res_view(r) == sp_boolean_value(s@, q as int),
        r matches Some((_, q2, _)) ==> q < q2 <= s@.len(),
        r matches Some((_, q2, e)) ==> errs_within(e@, q as int, q2 as int),
{
    proof {
        reveal_strlit("false");
        reveal_strlit("true");
    }
    if let Some(q2) = lit_end_exec(s, q, "false") {
        return Some((BooleanOption::Literal(false), q2, Vec::new()));
    }
    if let Some(q2) = lit_end_exec(s, q, "true") {
        return Some((BooleanOption::Literal(true), q2, Vec::new()));
    }
    match template_at(s, q) {
        Some((t, q2, e)) => Some((BooleanOption::Template(t), q2, e)),
        None => None,
    }
}

fn parse_duration_unit(s: &Vec<char>, q: usize) -> (r: (Option<DurationUnit>, usize))
    requires
        q <= s@.len(),
    ensures
        (r.0, r.1 as int) == duration_unit(s@, q as int),
        q <= r.1 <= s@.len(),
{
    proof {
        reveal_strlit("ms");
    }
    if let Some(q2) = lit_end_exec(s, q, "ms") {
        (Some(DurationUnit::Millisecond), q2)
    } else if q < s.len() && s[q] == 's' {
        (Some(DurationUnit::Second), q + 1)
    } else if q < s.len() && s[q] == 'm' {
        (Some(DurationUnit::Minute), q + 1)
    } else {
        (None, q)
    }
}

pub fn parse_duration_value(s: &Vec<char>, q: usize) -> (r: Option<
    (DurationOption, usize, Vec<ParseError>),
>)
    requires
        q <= s@.len(),
    ensures
        crate::base::res_view(r) == sp_duration_value(s@, q as int),
        r matches Some((_, q2, _)) ==> q < q2 <= s@.len(),
        r matches Some((_, q2, e)) ==> errs_within(e@, q as int, q2 as int),
{
    if let Some((t, q2, e)) = template_at(s, q) {
        return Some((DurationOption::Template(t), q2, e));
    }
    let e = int_end_exec(s, q);
    if e == q {
        return None;
    }
    match decimal_u64(s, q, e) {
        Some(d) => {
            let (u, q2) = parse_duration_unit(s, e);
            Some((DurationOption::Literal(Duration { duration: d, unit: u }), q2, Vec::new()))
        },
        None => None,
    }
}

pub fn parse_integer_value(s: &Vec<char>, q: usize) -> (r: Option<
    (IntegerOption, usize, Vec<ParseError>),
>)
    requires
        q <= s@.len(),
    ensures
        crate::base::res_view(r) == sp_integer_value(s@, q as int),
        r matches Some((_, q2, _)) ==> q < q2 <= s@.len(),
        r matches Some((_, q2, e)) ==> errs_within(e@, q as int, q2 as int),
{
    let e = int_end_exec(s, q);
    if e > q {
        match decimal_u64(s, q, e) {
            Some(n) => Some((IntegerOption::Literal(n), e, Vec::new())),
            None => Some(
                (
                    IntegerOption::BigInteger(string_of(s, q, e)),
                    e,
                    one_err_exec(q, e, ErrorKind::IntegerTooLarge),
                ),
            ),
        }
    } else {
        match template_at(s, q) {
            Some((t, q2, e2)) => Some((IntegerOption::Template(t), q2, e2)),
            None => None,
        }
    }
}

fn number_as_variable_exec(v: PredicateValue) -> (r: VariableValue)
    ensures
        r@ == number_as_variable(v@),
{
    match v {
        PredicateValue::Integer(n) => VariableValue::Integer(n),
        PredicateValue::Float(t) => VariableValue::Float(t),
        PredicateValue::BigInteger(t) => VariableValue::BigInteger(t),
        _ => VariableValue::Invalid,
    }
}

pub fn parse_variable_value(s: &Vec<char>, q: usize) -> (r: Option<
    (VariableValue, usize, Vec<ParseError>),
>)
    requires
        q <= s@.len(),
    ensures
        crate::base::res_view(r) == sp_variable_value(s@, q as int),
        r matches Some((_, q2, _)) ==> q < q2 <= s@.len(),
        r matches Some((_, q2, e)) ==> errs_within(e@, q as int, q2 as int),
{
    proof {
        reveal_strlit("null");
        reveal_strlit("true");
        reveal_strlit("false");
    }
    if let Some(q2) = lit_end_exec(s, q, "null") {
        return Some((VariableValue::Null, q2, Vec::new()));
    }
    if let Some(q2) = lit_end_exec(s, q, "true") {
        return Some((VariableValue::Boolean(true), q2, Vec::new()));
    }
    if let Some(q2) = lit_end_exec(s, q, "false") {
        return Some((VariableValue::Boolean(false), q2, Vec::new()));
    }
    if let Some((v, q2)) = parse_number(s, q) {
        return Some((number_as_variable_exec(v), q2, Vec::new()));
    }
    if let Some((v, q2, e)) = key_parser(s, q) {
        return Some((VariableValue::String(v), q2, e));
    }
    if let Some((v, q2, e)) = quoted_string_at(s, q) {
        return Some((VariableValue::String(v), q2, e));
    }
    None
}

pub fn parse_variable_definition(s: &Vec<char>, q: usize) -> (r: Option<
    (VariableDefinitionOption, usize, Vec<ParseError>),
>)
    requires
        q <= s@.len(),
    ensures
        crate::base::res_view(r) == sp_variable_definition(s@, q as int),
        r matches Some((_, q2, _)) ==> q < q2 <= s@.len(),
        r matches Some((_, q2, e)) ==> errs_within(e@, q as int, q2 as int),
{
    match variable_name_at(s, q) {
        Some((n, q1)) => {
            let q2 = skip_sp_exec(s, q1);
            if q2 < s.len() && s[q2] == '=' {
                let q3 = skip_sp_exec(s, q2 + 1);
                match parse_variable_value(s, q3) {
                    Some((v, q4, e)) => Some((VariableDefinitionOption { name: n, value: v }, q4, e)),
                    None => None,
                }
            } else {
                None
            }
        },
        None => None,
    }
}

fn parse_bool_opt(s: &Vec<char>, p: usize, w: &str) -> (r: Option<
    (BooleanOption, usize, Vec<ParseError>),
>)
    requires
        p <= s@.len(),
    ensures
        crate::base::res_view(r) == sp_bool_opt(s@, p as int, w@),
        r matches Some((_, q, _)) ==> p < q <= s@.len(),
        r matches Some((_, q, e)) ==> errs_within(e@, p as int, q as int),
{
    proof {
        reveal(sp_option);
    }
    match parse_option_head(s, p, w) {
        Some(q) => match parse_boolean_value(s, q) {
            Some((v, q2, e)) => match parse_lt(s, q2) {
                Some(q3) => Some((v, q3, e)),
                None => None,
            },
            None => None,
        },
        None => None,
    }
}

fn parse_duration_opt(s: &Vec<char>, p: usize, w: &str) -> (r: Option<
    (DurationOption, usize, Vec<ParseError>),
>)
    requires
        p <= s@.len(),
    ensures
        crate::base::res_view(r) == sp_duration_opt(s@, p as int, w@),
        r matches Some((_, q, _)) ==> p < q <= s@.len(),
        r matches Some((_, q, e)) ==> errs_within(e@, p as int, q as int),
{
    proof {
        reveal(sp_option);
    }
    match parse_option_head(s, p, w) {
        Some(q) => match parse_duration_value(s, q) {
            Some((v, q2, e)) => match parse_lt(s, q2) {
                Some(q3) => Some((v, q3, e)),
                None => None,
            },
            None => None,
        },
        None => None,
    }
}

fn parse_integer_opt(s: &Vec<char>, p: usize, w: &str) -> (r: Option<
    (IntegerOption, usize, Vec<ParseError>),
>)
    requires
        p <= s@.len(),
    ensures
        crate::base::res_view(r) == sp_integer_opt(s@, p as int, w@),
        r matches Some((_, q, _)) ==> p < q <= s@.len(),
        r matches Some((_, q, e)) ==> errs_within(e@, p as int, q as int),
{
    proof {
        reveal(sp_option);
    }
    match parse_option_head(s, p, w) {
        Some(q) => match parse_integer_value(s, q) {
            Some((v, q2, e)) => match parse_lt(s, q2) {
                Some(q3) => Some((v, q3, e)),
                None => None,
            },
            None => None,
        },
        None => None,
    }
}

fn parse_string_opt(s: &Vec<char>, p: usize, w: &str) -> (r: Option<
    (InterpolatedString, usize, Vec<ParseError>),
>)
    requires
        p <= s@.len(),
    ensures
        crate::base::res_view(r) == sp_string_opt(s@, p as int, w@),
        r matches Some((_, q, _)) ==> p < q <= s@.len(),
        r matches Some((_, q, e)) ==> errs_within(e@, p as int, q as int),
{
    proof {
        reveal(sp_option);
    }
    match parse_option_head(s, p, w) {
        Some(q) => match value_parser(s, q) {
            Some((v, q2, e)) => match parse_lt(s, q2) {
                Some(q3) => Some((v, q3, e)),
                None => None,
            },
            None => None,
        },
        None => None,
    }
}

fn parse_filename_opt(s: &Vec<char>, p: usize, w: &str) -> (r: Option<
    (InterpolatedString, usize, Vec<ParseError>),
>)
    requires
        p <= s@.len(),
    ensures
        crate::base::res_view(r) == sp_filename_opt(s@, p as int, w@),
        r matches Some((_, q, _)) ==> p < q <= s@.len(),
        r matches Some((_, q, e)) ==> errs_within(e@, p as int, q as int),
{
    proof {
        reveal(sp_option);
    }
    match parse_option_head(s, p, w) {
        Some(q) => match filename_at(s, q) {
            Some((v, q2, e)) => match parse_lt(s, q2) {
                Some(q3) => Some((v, q3, e)),
                None => None,
            },
            None => None,
        },
        None => None,
    }
}

fn parse_boolean_request_option_a(s: &Vec<char>, p: usize) -> (r: Option<(RequestOption, usize, Vec<ParseError>)>)
    requires
        p <= s@.len(),
    ensures
        crate::base::res_view(r) == sp_boolean_request_option_a(s@, p as int),
        r matches Some((_, q, _)) ==> p < q <= s@.len(),
        r matches Some((_, q, e)) ==> errs_within(e@, p as int, q as int),
{
    if let Some((v, q, e)) = parse_bool_opt(s, p, "compressed") {
        return Some((RequestOption::Compressed(v), q, e));
    }
    if let Some((v, q, e)) = parse_bool_opt(s, p, "location-trusted") {
        return Some((RequestOption::LocationTrusted(v), q, e));
    }
    if let Some((v, q, e)) = parse_bool_opt(s, p, "location") {
        return Some((RequestOption::Location(v), q, e));
    }
    if let Some((v, q, e)) = parse_bool_opt(s, p, "http1.0") {
        return Some((RequestOption::Http10(v), q, e));
    }
    if let Some((v, q, e)) = parse_bool_opt(s, p, "http1.1") {
        return Some((RequestOption::Http11(v), q, e));
    }
    if let Some((v, q, e)) = parse_bool_opt(s, p, "http2") {
        return Some((RequestOption::Http2(v), q, e));
    }
    if let Some((v, q, e)) = parse_bool_opt(s, p, "http3") {
        return Some((RequestOption::Http3(v), q, e));
    }
    if let Some((v, q, e)) = parse_bool_opt(s, p, "insecure") {
        return Some((RequestOption::Insecure(v), q, e));
    }
    if let Some((v, q, e)) = parse_bool_opt(s, p, "ipv4") {
        return Some((RequestOption::Ipv4(v), q, e));
    }
    if let Some((v, q, e)) = parse_bool_opt(s, p, "ipv6") {
        return Some((RequestOption::Ipv6(v), q, e));
    }
    None
}

fn parse_boolean_request_option_b(s: &Vec<char>, p: usize) -> (r: Option<(RequestOption, usize, Vec<ParseError>)>)
    requires
        p <= s@.len(),
    ensures
        crate::base::res_view(r) == sp_boolean_request_option_b(s@, p as int),
        r matches Some((_, q, _)) ==> p < q <= s@.len(),
        r matches Some((_, q, e)) ==> errs_within(e@, p as int, q as int),
{
    if let Some((v, q, e)) = parse_bool_opt(s, p, "netrc-optional") {
        return Some((RequestOption::NetrcOptional(v), q, e));
    }
    if let Some((v, q, e)) = parse_bool_opt(s, p, "netrc") {
        return Some((RequestOption::Netrc(v), q, e));
    }
    if let Some((v, q, e)) = parse_bool_opt(s, p, "path-as-is") {
        return Some((RequestOption::PathAsIs(v), q, e));
    }
    if let Some((v, q, e)) = parse_bool_opt(s, p, "skip") {
        return Some((RequestOption::Skip(v), q, e));
    }
    if let Some((v, q, e)) = parse_bool_opt(s, p, "verbose") {
        return Some((RequestOption::Verbose(v), q, e));
    }
    if let Some((v, q, e)) = parse_bool_opt(s, p, "very-verbose") {
        return Some((RequestOption::VeryVerbose(v), q, e));
    }
    None
}

fn parse_duration_request_option(s: &Vec<char>, p: usize) -> (r: Option<(RequestOption, usize, Vec<ParseError>)>)
    requires
        p <= s@.len(),
    ensures
        crate::base::res_view(r) == sp_duration_request_option(s@, p as int),
        r matches Some((_, q, _)) ==> p < q <= s@.len(),
        r matches Some((_, q, e)) ==> errs_within(e@, p as int, q as int),
{
    if let Some((v, q, e)) = parse_duration_opt(s, p, "connect-timeout") {
        return Some((RequestOption::ConnectTimeout(v), q, e));
    }
    if let Some((v, q, e)) = parse_duration_opt(s, p, "delay") {
        return Some((RequestOption::Delay(v), q, e));
    }
    if let Some((v, q, e)) = parse_duration_opt(s, p, "retry-interval") {
        return Some((RequestOption::RetryInterval(v), q, e));
    }
    None
}

fn parse_integer_request_option(s: &Vec<char>, p: usize) -> (r: Option<(RequestOption, usize, Vec<ParseError>)>)
    requires
        p <= s@.len(),
    ensures
        crate::base::res_view(r) == sp_integer_request_option(s@, p as int),
        r matches Some((_, q, _)) ==> p < q <= s@.len(),
        r matches Some((_, q, e)) ==> errs_within(e@, p as int, q as int),
{
    if let Some((v, q, e)) = parse_integer_opt(s, p, "limit-rate") {
        return Some((RequestOption::LimitRate(v), q, e));
    }
    if let Some((v, q, e)) = parse_integer_opt(s, p, "max-redirs") {
        return Some((RequestOption::MaxRedirs(v), q, e));
    }
    if let Some((v, q, e)) = parse_integer_opt(s, p, "repeat") {
        return Some((RequestOption::Repeat(v), q, e));
    }
    if let Some((v, q, e)) = parse_integer_opt(s, p, "retry") {
        return Some((RequestOption::Retry(v), q, e));
    }
    None
}

fn parse_string_request_option(s: &Vec<char>, p: usize) -> (r: Option<(RequestOption, usize, Vec<ParseError>)>)
    requires
        p <= s@.len(),
    ensures
        crate::base::res_view(r) == sp_string_request_option(s@, p as int),
        r matches Some((_, q, _)) ==> p < q <= s@.len(),
        r matches Some((_, q, e)) ==> errs_within(e@, p as int, q as int),
{
    if let Some((v, q, e)) = parse_string_opt(s, p, "aws-sigv4") {
        return Some((RequestOption::AwsSigv4(v), q, e));
    }
    if let Some((v, q, e)) = parse_string_opt(s, p, "connect-to") {
        return Some((RequestOption::ConnectTo(v), q, e));
    }
    if let Some((v, q, e)) = parse_string_opt(s, p, "netrc-file") {
        return Some((RequestOption::NetrcFile(v), q, e));
    }
    if let Some((v, q, e)) = parse_string_opt(s, p, "proxy") {
        return Some((RequestOption::Proxy(v), q, e));
    }
    if let Some((v, q, e)) = parse_string_opt(s, p, "resolve") {
        return Some((RequestOption::Resolve(v), q, e));
    }
    if let Some((v, q, e)) = parse_string_opt(s, p, "unix-socket") {
        return Some((RequestOption::UnixSocket(v), q, e));
    }
    if let Some((v, q, e)) = parse_string_opt(s, p, "user") {
        return Some((RequestOption::User(v), q, e));
    }
    None
}

fn parse_filename_request_option(s: &Vec<char>, p: usize) -> (r: Option<(RequestOption, usize, Vec<ParseError>)>)
    requires
        p <= s@.len(),
    ensures
        crate::base::res_view(r) == sp_filename_request_option(s@, p as int),
        r matches Some((_, q, _)) ==> p < q <= s@.len(),
        r matches Some((_, q, e)) ==> errs_within(e@, p as int, q as int),
{
    if let Some((v, q, e)) = parse_filename_opt(s, p, "cacert") {
        return Some((RequestOption::Cacert(v), q, e));
    }
    if let Some((v, q, e)) = parse_filename_opt(s, p, "key") {
        return Some((RequestOption::Key(v), q, e));
    }
    if let Some((v, q, e)) = parse_filename_opt(s, p, "output") {
        return Some((RequestOption::Output(v), q, e));
    }
    if let Some((v, q, e)) = parse_filename_opt(s, p, "cert") {
        return Some((RequestOption::Cert(v), q, e));
    }
    None
}

fn parse_variable_request_option(s: &Vec<char>, p: usize) -> (r: Option<
    (RequestOption, usize, Vec<ParseError>),
>)
    requires
        p <= s@.len(),
    ensures
        crate::base::res_view(r) == sp_variable_request_option(s@, p as int),
        r matches Some((_, q, _)) ==> p < q <= s@.len(),
        r matches Some((_, q, e)) ==> errs_within(e@, p as int, q as int),
{
    proof {
        reveal(sp_option);
    }
    match parse_option_head(s, p, "variable") {
        Some(q) => match parse_variable_definition(s, q) {
            Some((v, q2, e)) => match parse_lt(s, q2) {
                Some(q3) => Some((RequestOption::Variable(v), q3, e)),
                None => None,
            },
            None => None,
        },
        None => None,
    }
}

/// The option line at `p`, if one starts there.
pub fn option_at(s: &Vec<char>, p: usize) -> (r: Option<
    (RequestOption, usize, Vec<ParseError>),
>)
    requires
        p <= s@.len(),
    ensures
        crate::base::res_view(r) == sp_request_option(s@, p as int),
        r matches Some((_, q, _)) ==> p < q <= s@.len(),
        r matches Some((_, q, e)) ==> errs_within(e@, p as int, q as int),
{
    if let Some(r) = parse_boolean_request_option_a(s, p) {
        return Some(r);
    }
    if let Some(r) = parse_boolean_request_option_b(s, p) {
        return Some(r);
    }
    if let Some(r) = parse_duration_request_option(s, p) {
        return Some(r);
    }
    if let Some(r) = parse_integer_request_option(s, p) {
        return Some(r);
    }
    if let Some(r) = parse_string_request_option(s, p) {
        return Some(r);
    }
    if let Some(r) = parse_filename_request_option(s, p) {
        return Some(r);
    }
    parse_variable_request_option(s, p)
}

/// Zero or more option lines from `p`.
pub fn options_parser(s: &Vec<char>, p: usize) -> (r: (
    Vec<RequestOption>,
    usize,
    Vec<ParseError>,
))
    requires
        p <= s@.len(),
    ensures
        (seq_view(r.0@), r.1 as int, r.2@) == sp_request_options(s@, p as int),
        p <= r.1 <= s@.len(),
        errs_within(r.2@, p as int, r.1 as int),
{
    let mut v: Vec<RequestOption> = Vec::new();
    let mut errs: Vec<ParseError> = Vec::new();
    let mut q = p;
    loop
        invariant
            p <= q <= s@.len(),
            errs_within(errs@, p as int, q as int),
            many_from(request_option_rule(), s@, q as int, seq_view(v@), errs@) == many(
                request_option_rule(),
                s@,
                p as int,
            ),
        decreases s@.len() - q,
    {
        match option_at(s, q) {
            Some((o, q2, mut e)) => {
                v.push(o);
                proof {
                    lemma_errs_append(errs@, e@, p as int, q as int, q as int, q2 as int);
                }
                errs.append(&mut e);
                q = q2;
            },
            None => {
                return (v, q, errs);
            },
        }
    }
}


/// An integer option whose value is a decimal integer followed by a
/// newline or the end of the text reads it as a `u64` literal when it
/// fits, with no diagnostic; otherwise it keeps the digits as text, with
/// one "too large" diagnostic over them.
pub proof fn lemma_integer_option(s: Seq<char>, p: int, w: Seq<char>, q: int)
    requires
        option_head(s, p, w) == Some(q),
        int_end(s, q) > q,
        char_at(s, int_end(s, q)) == Some('\n') || int_end(s, q) == s.len(),
    ensures
        sp_lt(s, int_end(s, q)) is Some,
        ({
            let e = int_end(s, q);
            let q3 = sp_lt(s, e)->0;
            sp_integer_opt(s, p, w) == if dec_value(s, q, e) <= u64::MAX {
                Some((SpecIntegerOption::Literal(dec_value(s, q, e) as u64), q3, Seq::empty()))
            } else {
                Some(
                    (
                        SpecIntegerOption::BigInteger(s.subrange(q, e)),
                        q3,
                        one_err(q, e, ErrorKind::IntegerTooLarge),
                    ),
                )
            }
        }),
{
    reveal(sp_option);
    let e = int_end(s, q);
    lemma_skip_sp(s, e);
    assert(skip_sp(s, e) == e);
}

/// The text of a duration unit: none, `ms`, `s` or `m`.
pub open spec fn unit_text(u: Option<DurationUnit>) -> Seq<char> {
    match u {
        None => Seq::empty(),
        Some(DurationUnit::Millisecond) => seq!['m', 's'],
        Some(DurationUnit::Second) => seq!['s'],
        Some(DurationUnit::Minute) => seq!['m'],
    }
}

/// A duration option whose value is a decimal integer that fits in a
/// `u64`, the text of a unit (or none), and a newline or the end of the
/// text reads that number with
/// exactly that unit, and no diagnostic: no unit is supplied by default,
/// and `ms` is never read as minutes.
#[verifier::rlimit(60)]
pub proof fn lemma_duration_option(
    s: Seq<char>,
    p: int,
    w: Seq<char>,
    q: int,
    u: Option<DurationUnit>,
)
    requires
        option_head(s, p, w) == Some(q),
        int_end(s, q) > q,
        dec_value(s, q, int_end(s, q)) <= u64::MAX,
        matches_at(s, int_end(s, q), unit_text(u)),
        char_at(s, int_end(s, q) + unit_text(u).len()) == Some('\n') || int_end(s, q)
            + unit_text(u).len() == s.len(),
    ensures
        sp_lt(s, int_end(s, q) + unit_text(u).len()) is Some,
        sp_duration_opt(s, p, w) == Some(
            (
                SpecDurationOption::Literal(
                    Duration { duration: dec_value(s, q, int_end(s, q)) as u64, unit: u },
                ),
                sp_lt(s, int_end(s, q) + unit_text(u).len())->0,
                Seq::<ParseError>::empty(),
            ),
        ),
{
    let e = int_end(s, q);
    let x = e + unit_text(u).len();
    lemma_unit_read(s, e, u);
    lemma_no_template_at_digit(s, q);
    assert(sp_duration_value(s, q) == Some(
        (
            SpecDurationOption::Literal(Duration { duration: dec_value(s, q, e) as u64, unit: u }),
            x,
            Seq::<ParseError>::empty(),
        ),
    ));
    lemma_skip_sp(s, x);
    assert(skip_sp(s, x) == x);
    reveal(sp_option);
}

/// No template starts at a digit.
proof fn lemma_no_template_at_digit(s: Seq<char>, q: int)
    requires
        int_end(s, q) > q,
    ensures
        sp_template(s, q) is None,
{
    if matches_at(s, q, seq!['{', '{']) {
        assert(s.subrange(q, q + 2)[0] == s[q]);
    }
}

/// The unit read after a duration's digits is the one whose text stands
/// there, when a newline or the end of the text follows it.
proof fn lemma_unit_read(s: Seq<char>, e: int, u: Option<DurationUnit>)
    requires
        0 <= e,
        matches_at(s, e, unit_text(u)),
        char_at(s, e + unit_text(u).len()) == Some('\n') || e + unit_text(u).len() == s.len(),
    ensures
        duration_unit(s, e) == (u, e + unit_text(u).len()),
{
    reveal_strlit("ms");
    match u {
        None => {
            assert(!matches_at(s, e, "ms"@)) by {
                if matches_at(s, e, "ms"@) {
                    assert(s.subrange(e, e + 2)[0] == s[e]);
                }
            }
        },
        Some(DurationUnit::Millisecond) => {
            assert(s.subrange(e, e + 2) =~= "ms"@);
        },
        Some(DurationUnit::Second) => {
            assert(s[e] == s.subrange(e, e + 1)[0]);
            assert(!matches_at(s, e, "ms"@)) by {
                if matches_at(s, e, "ms"@) {
                    assert(s.subrange(e, e + 2)[0] == s[e]);
                }
            }
        },
        Some(DurationUnit::Minute) => {
            assert(s[e] == s.subrange(e, e + 1)[0]);
            assert(!matches_at(s, e, "ms"@)) by {
                if matches_at(s, e, "ms"@) {
                    assert(s.subrange(e, e + 2)[1] == s[e + 1]);
                }
            }
        },
    }
}


/// The characters of an option's name.
pub open spec fn option_name_pred() -> spec_fn(char) -> bool {
    |c: char| is_ascii_alphanumeric(c) || c == '-' || c == '.'
}

pub open spec fn alphanumeric_pred() -> spec_fn(char) -> bool {
    |c: char| is_ascii_alphanumeric(c)
}

/// Where an option line at `p` fails to be read: after its name and spaces
/// when no `:` follows; else after the first word of its value and the
/// spaces after it, where the end of the line was expected.
pub open spec fn option_failure(s: Seq<char>, p: int) -> ParseError {
    let k = run_end(s, skip_sp(s, p), option_name_pred());
    let k1 = skip_sp(s, k);
    if char_at(s, k1) != Some(':') {
        point_error(s, k1)
    } else {
        point_error(s, skip_sp(s, run_end(s, skip_sp(s, k1 + 1), alphanumeric_pred())))
    }
}

/// An option line at `p`; when there is none, the place where reading it
/// failed.
pub fn option_parser(s: &Vec<char>, p: usize) -> (r: Result<
    (RequestOption, usize, Vec<ParseError>),
    ParseError,
>)
    requires
        p <= s@.len(),
    ensures
        match r {
            Ok((v, q, e)) => sp_request_option(s@, p as int) == Some((v@, q as int, e@)) && p < q
                <= s@.len() && errs_within(e@, p as int, q as int),
            Err(f) => sp_request_option(s@, p as int) is None && f == option_failure(s@, p as int),
        },
{
    match option_at(s, p) {
        Some(x) => Ok(x),
        None => {
            let p0 = skip_sp_exec(s, p);
            let k = run_end_exec(
                s,
                p0,
                (|c: char| -> (b: bool)
                    ensures
                        b == (is_ascii_alphanumeric(c) || c == '-' || c == '.'),
                    { is_ascii_alphanumeric_exec(c) || c == '-' || c == '.' }),
                Ghost(option_name_pred()),
            );
            let k1 = skip_sp_exec(s, k);
            if !(k1 < s.len() && s[k1] == ':') {
                Err(point_error_exec(s, k1))
            } else {
                let q = skip_sp_exec(s, k1 + 1);
                let v = run_end_exec(
                    s,
                    q,
                    (|c: char| -> (b: bool)
                        ensures
                            b == is_ascii_alphanumeric(c),
                        { is_ascii_alphanumeric_exec(c) }),
                    Ghost(alphanumeric_pred()),
                );
                Err(point_error_exec(s, skip_sp_exec(s, v)))
            }
        },
    }
}

} // verus!
