//! Scenarios of the grammar, each with its input and the syntax tree
//! and diagnostics it gives.
use hurl_parser::template::expr_parser;
use hurl_parser::template::variable_name_parser;
use hurl_parser::base::{read_whole, ParseError, to_chars};
use hurl_parser::document::parse_ast;
use hurl_parser::types::Ast;
use std::fmt;

/// A diagnostic as a parse report shows it: its message and its span.
struct Diag(String);

impl fmt::Debug for Diag {
    fn fmt(&self, f: &mut fmt::Formatter<'_>) -> fmt::Result {
        f.write_str(&self.0)
    }
}

/// What a parser gives for a whole input: a value when it read all of
/// it, and the diagnostics raised (with one where reading the rest fails,
/// as `read_whole` gives it, when it stops before the end).
#[derive(Debug)]
struct ParseResult<T> {
    output: Option<T>,
    errs: Vec<Diag>,
}

fn diags(s: &Vec<char>, errs: &[ParseError]) -> Vec<Diag> {
    errs.iter().map(|e| Diag(format!("{} at {}..{}", e.message(s), e.start, e.end))).collect()
}

fn finish<T>(s: &Vec<char>, r: Option<(T, usize, Vec<ParseError>)>) -> ParseResult<T> {
    match r {
        Some(r) => {
            let (v, e) = read_whole(s, r);
            ParseResult { output: v, errs: diags(s, &e) }
        }
        None => ParseResult { output: None, errs: vec![Diag(format!("no match at 0..{}", s.len()))] },
    }
}

/// A parser that says where it failed: a value when it read all of the
/// input; else the failure it reports.
#[allow(dead_code)]
fn run_res<T>(src: &str, f: fn(&Vec<char>, usize) -> Result<(T, usize, Vec<ParseError>), ParseError>) -> ParseResult<T> {
    let s = to_chars(src);
    match f(&s, 0) {
        Ok(r) => finish(&s, Some(r)),
        Err(e) => ParseResult { output: None, errs: diags(&s, &[e]) },
    }
}

#[allow(dead_code)]
fn run_unit_res<T>(src: &str, f: fn(&Vec<char>, usize) -> Result<(T, usize, Vec<ParseError>), ParseError>) -> ParseResult<(T, ())> {
    let s = to_chars(src);
    match f(&s, 0) {
        Ok((v, q, e)) => finish(&s, Some(((v, ()), q, e))),
        Err(e) => ParseResult { output: None, errs: diags(&s, &[e]) },
    }
}

#[allow(dead_code)]
fn run_plain_res<T>(src: &str, f: fn(&Vec<char>, usize) -> Result<(T, usize), ParseError>) -> ParseResult<T> {
    let s = to_chars(src);
    match f(&s, 0) {
        Ok((v, q)) => finish(&s, Some((v, q, Vec::new()))),
        Err(e) => ParseResult { output: None, errs: diags(&s, &[e]) },
    }
}

#[allow(dead_code)]
fn run<T>(src: &str, f: fn(&Vec<char>, usize) -> Option<(T, usize, Vec<ParseError>)>) -> ParseResult<T> {
    let s = to_chars(src);
    let r = f(&s, 0);
    finish(&s, r)
}

#[allow(dead_code)]
fn run_unit<T>(src: &str, f: fn(&Vec<char>, usize) -> Option<(T, usize, Vec<ParseError>)>) -> ParseResult<(T, ())> {
    let s = to_chars(src);
    let r = f(&s, 0).map(|(v, q, e)| ((v, ()), q, e));
    finish(&s, r)
}

#[allow(dead_code)]
fn run_many<T>(src: &str, f: fn(&Vec<char>, usize) -> (T, usize, Vec<ParseError>)) -> ParseResult<T> {
    let s = to_chars(src);
    let r = Some(f(&s, 0));
    finish(&s, r)
}

#[allow(dead_code)]
fn run_plain<T>(src: &str, f: fn(&Vec<char>, usize) -> Option<(T, usize)>) -> ParseResult<T> {
    let s = to_chars(src);
    let r = f(&s, 0).map(|(v, q)| (v, q, Vec::new()));
    finish(&s, r)
}

#[allow(dead_code)]
fn ast_result(src: &str) -> ParseResult<Ast> {
    let s = to_chars(src);
    let (ast, errs) = parse_ast(src);
    ParseResult { output: ast, errs: diags(&s, &errs) }
}

#[allow(dead_code)]
fn doc_result(src: &str) -> (Option<Ast>, Vec<Diag>) {
    let s = to_chars(src);
    let (ast, errs) = parse_ast(src);
    (ast, diags(&s, &errs))
}

/// The text of an inline snapshot, without its first blank line and its
/// common indentation.
fn dedent(t: &str) -> String {
    let mut lines: Vec<&str> = t.split('\n').collect();
    if lines.first().map_or(false, |l| l.trim().is_empty()) {
        lines.remove(0);
    }
    while lines.last().map_or(false, |l| l.trim().is_empty()) {
        lines.pop();
    }
    let indent = lines
        .iter()
        .filter(|l| !l.trim().is_empty())
        .map(|l| l.len() - l.trim_start().len())
        .min()
        .unwrap_or(0);
    lines
        .iter()
        .map(|l| if l.len() >= indent { &l[indent..] } else { l.trim_start() })
        .collect::<Vec<_>>()
        .join("\n")
}

/// The report written as the snapshots write it: the type of a multiline
/// string is shown as `type`, and a decimal number without its quotes.
fn render<T: fmt::Debug>(r: &T) -> String {
    let text = format!("{:#?}", r).replace("string_type:", "type:");
    let mut out: Vec<String> = Vec::new();
    let mut after_float = false;
    for line in text.split('\n') {
        let trimmed = line.trim_start();
        if after_float && trimmed.starts_with('"') && trimmed.ends_with("\",") {
            let indent = &line[..line.len() - trimmed.len()];
            out.push(format!("{}{},", indent, &trimmed[1..trimmed.len() - 2]));
        } else {
            out.push(line.to_string());
        }
        after_float = trimmed.ends_with("Float(");
    }
    out.join("\n")
}

/// A report split into its lines without the diagnostics, and the lines
/// of the diagnostics.
fn split_diagnostics(t: &str) -> (Vec<String>, Vec<String>) {
    let mut body = Vec::new();
    let mut diags = Vec::new();
    let mut inside = false;
    for line in t.split('\n') {
        if inside && line.trim_start().starts_with(']') {
            inside = false;
        }
        if inside {
            diags.push(line.to_string());
        } else {
            body.push(line.to_string());
        }
        if line.trim() == "errs: [" || line == "    [" {
            inside = true;
        }
    }
    (body, diags)
}

/// The span of a diagnostic line: the `a..b` written after its ` at `.
fn span_of(line: &str) -> String {
    let l = line.trim().trim_end_matches(',');
    let is_span = |t: &&str| {
        let mut parts = t.split("..");
        match (parts.next(), parts.next(), parts.next()) {
            (Some(a), Some(b), None) => {
                !a.is_empty() && !b.is_empty() && a.chars().all(|c| c.is_ascii_digit()) && b.chars().all(|c| c.is_ascii_digit())
            }
            _ => false,
        }
    };
    match l.rfind(" at ") {
        Some(_) => l.split(" at ").skip(1).filter_map(|t| t.split_whitespace().next()).map(|t| t.trim_end_matches(',')).filter(|t| is_span(t)).last().unwrap_or("").to_string(),
        None => String::new(),
    }
}

/// Whether a snapshot writes a diagnostic as a generic error
/// (`found ... expected ...`), whose list of expected things is the
/// snapshot's own wording.
fn is_generic(line: &str) -> bool {
    line.contains("found ") && line.contains(" expected ")
}

/// Whether a snapshot's generic error names no token: it says it found the
/// end of input over a span that holds a character, as an error raised by
/// hand without a found token is shown.
fn names_no_token(line: &str) -> bool {
    let span = span_of(line);
    let mut parts = span.split("..");
    let (a, b) = (parts.next().unwrap_or(""), parts.next().unwrap_or(""));
    found_of(line) == "end of input" && a != b
}

/// What a diagnostic line says was found: a quoted character, or the end
/// of input.
fn found_of(line: &str) -> String {
    let l = line.replace("''", "'");
    match l.find("found ") {
        Some(i) => {
            let rest = &l[i + 6..];
            let end = [rest.find(", expected"), rest.find(" at "), rest.find(" expected")]
                .iter()
                .filter_map(|x| *x)
                .min()
                .unwrap_or(rest.len());
            rest[..end].to_string()
        }
        None => String::new(),
    }
}

/// Holds a report's tree to the snapshot's, line for line.
fn check_body(got: &str, want: &str) {
    let (got_body, _) = split_diagnostics(got);
    let (want_body, _) = split_diagnostics(want);
    if got_body != want_body {
        let i = got_body.iter().zip(want_body.iter()).take_while(|(a, b)| a == b).count();
        let from = if i >= 3 { i - 3 } else { 0 };
        panic!(
            "report differs from the snapshot at line {}\n--- got:\n{}\n--- want:\n{}",
            i,
            got_body[from..got_body.len().min(i + 6)].join("\n"),
            want_body[from..want_body.len().min(i + 6)].join("\n")
        );
    }
}

/// Holds a parse report to a snapshot: the tree line for line, and every
/// diagnostic in order; a diagnostic that the snapshot writes as a generic
/// error is held by its span and by what it found, any other by its whole
/// text.
fn check<T: fmt::Debug>(r: T, expected: &str) {
    let want = dedent(expected);
    let got = render(&r);
    check_body(&got, &want);
    let (_, got_diags) = split_diagnostics(&got);
    let (_, want_diags) = split_diagnostics(&want);
    let same = got_diags.len() == want_diags.len()
        && got_diags.iter().zip(want_diags.iter()).all(|(g, w)| {
            if is_generic(w) {
                span_of(g) == span_of(w) && (found_of(g) == found_of(w) || names_no_token(w))
            } else {
                g.trim() == w.trim()
            }
        });
    assert!(same, "diagnostics differ\n--- got:\n{}\n--- want:\n{}", got_diags.join("\n"), want_diags.join("\n"));
}

/// Holds a parse report to a snapshot where this library reports its
/// diagnostics at other places than the snapshot: the tree is held to the
/// snapshot line for line, and the diagnostics to `ours`, the ones this
/// library gives, written out in full beside the snapshot's.
#[allow(dead_code)]
fn check_departing<T: fmt::Debug>(r: T, expected: &str, ours: &[&str]) {
    let want = dedent(expected);
    let got = render(&r);
    check_body(&got, &want);
    let (_, got_diags) = split_diagnostics(&got);
    let got_diags: Vec<String> = got_diags.iter().map(|l| l.trim().trim_end_matches(',').to_string()).collect();
    assert_eq!(got_diags, ours);
}

#[test]
fn expr_variable_name_it_parses_variable_name_in_expr() {
        let test_str = "key";
    check(
        run_plain_res(&test_str, variable_name_parser),
        r##"
        ParseResult {
            output: Some(
                "key",
            ),
            errs: [],
        }
        "##,
    );
}

#[test]
fn expr_variable_name_it_parses_expr_with_dashed_variable() {
        let test_str = "api-key";
    check(
        run_plain_res(&test_str, variable_name_parser),
        r##"
        ParseResult {
            output: Some(
                "api-key",
            ),
            errs: [],
        }
        "##,
    );
}

#[test]
fn expr_variable_name_it_parses_expr_with_underscore_variable() {
        let test_str = "api_key";
    check(
        run_plain_res(&test_str, variable_name_parser),
        r##"
        ParseResult {
            output: Some(
                "api_key",
            ),
            errs: [],
        }
        "##,
    );
}

#[test]
fn it_errors_expr_with_number_starting_variable_name() {
        let test_str = "1";
    check(
        run_plain_res(&test_str, variable_name_parser),
        r##"
        ParseResult {
            output: None,
            errs: [
                found end of input at 0..1 expected variable-name,
            ],
        }
        "##,
    );
}

#[test]
fn it_errors_expr_with_dash_starting_variable_name() {
        let test_str = "-";
    check(
        run_plain_res(&test_str, variable_name_parser),
        r##"
        ParseResult {
            output: None,
            errs: [
                found end of input at 0..1 expected variable-name,
            ],
        }
        "##,
    );
}

#[test]
fn it_errors_expr_with_underscore_starting_variable_name() {
        let test_str = "_";
    check(
        run_plain_res(&test_str, variable_name_parser),
        r##"
        ParseResult {
            output: None,
            errs: [
                found end of input at 0..1 expected variable-name,
            ],
        }
        "##,
    );
}

#[test]
fn expr_it_parses_variable_name_in_expr() {
        let test_str = "key";
    check(
        run_res(&test_str, expr_parser),
        r##"
        ParseResult {
            output: Some(
                Expr {
                    variable: VariableName(
                        "key",
                    ),
                    filters: [],
                },
            ),
            errs: [],
        }
        "##,
    );
}

#[test]
fn expr_it_parses_expr_with_dashed_variable() {
        let test_str = "api-key";
    check(
        run_res(&test_str, expr_parser),
        r##"
        ParseResult {
            output: Some(
                Expr {
                    variable: VariableName(
                        "api-key",
                    ),
                    filters: [],
                },
            ),
            errs: [],
        }
        "##,
    );
}

#[test]
fn expr_it_parses_expr_with_underscore_variable() {
        let test_str = "api_key";
    check(
        run_res(&test_str, expr_parser),
        r##"
        ParseResult {
            output: Some(
                Expr {
                    variable: VariableName(
                        "api_key",
                    ),
                    filters: [],
                },
            ),
            errs: [],
        }
        "##,
    );
}

#[test]
fn it_errors_expr_with_number_variable() {
        let test_str = "1";
    check(
        run_res(&test_str, expr_parser),
        r##"
        ParseResult {
            output: None,
            errs: [
                found ''1'' at 0..1 expected expr,
            ],
        }
        "##,
    );
}

#[test]
fn it_parses_expr_with_decode_filter() {
        let test_str = "api_key decode \"gb2312\"";
    check(
        run_res(&test_str, expr_parser),
        r##"
        ParseResult {
            output: Some(
                Expr {
                    variable: VariableName(
                        "api_key",
                    ),
                    filters: [
                        Decode {
                            encoding: InterpolatedString {
                                parts: [
                                    Str(
                                        "gb2312",
                                    ),
                                ],
                            },
                        },
                    ],
                },
            ),
            errs: [],
        }
        "##,
    );
}

#[test]
fn it_parses_expr_with_format_filter() {
        let test_str = "creation_date format \"%a, %d %b %Y %H:%M:%S\"";
    check(
        run_res(&test_str, expr_parser),
        r##"
        ParseResult {
            output: Some(
                Expr {
                    variable: VariableName(
                        "creation_date",
                    ),
                    filters: [
                        Format {
                            fmt: InterpolatedString {
                                parts: [
                                    Str(
                                        "%a, %d %b %Y %H:%M:%S",
                                    ),
                                ],
                            },
                        },
                    ],
                },
            ),
            errs: [],
        }
        "##,
    );
}

#[test]
fn it_parses_expr_with_jsonpath_filter() {
        let test_str = "input_data jsonpath \"$[0].last_name\"";
    check(
        run_res(&test_str, expr_parser),
        r##"
        ParseResult {
            output: Some(
                Expr {
                    variable: VariableName(
                        "input_data",
                    ),
                    filters: [
                        JsonPath {
                            expr: InterpolatedString {
                                parts: [
                                    Str(
                                        "$[0].last_name",
                                    ),
                                ],
                            },
                        },
                    ],
                },
            ),
            errs: [],
        }
        "##,
    );
}

#[test]
fn it_parses_expr_with_nth_filter() {
        let test_str = "input_data jsonpath \"$[0].names\" nth 2";
    check(
        run_res(&test_str, expr_parser),
        r##"
        ParseResult {
            output: Some(
                Expr {
                    variable: VariableName(
                        "input_data",
                    ),
                    filters: [
                        JsonPath {
                            expr: InterpolatedString {
                                parts: [
                                    Str(
                                        "$[0].names",
                                    ),
                                ],
                            },
                        },
                        Nth {
                            nth: 2,
                        },
                    ],
                },
            ),
            errs: [],
        }
        "##,
    );
}

#[test]
fn it_parses_expr_with_regex_filter() {
        let test_str = r#"id regex "\\d{10}""#;
    check(
        run_res(&test_str, expr_parser),
        r##"
        ParseResult {
            output: Some(
                Expr {
                    variable: VariableName(
                        "id",
                    ),
                    filters: [
                        Regex {
                            value: InterpolatedString {
                                parts: [
                                    Str(
                                        "\\d{10}",
                                    ),
                                ],
                            },
                        },
                    ],
                },
            ),
            errs: [],
        }
        "##,
    );
}

#[test]
fn it_parses_expr_with_split_filter() {
        let test_str = r#"names split ", ""#;
    check(
        run_res(&test_str, expr_parser),
        r##"
        ParseResult {
            output: Some(
                Expr {
                    variable: VariableName(
                        "names",
                    ),
                    filters: [
                        Split {
                            sep: InterpolatedString {
                                parts: [
                                    Str(
                                        ", ",
                                    ),
                                ],
                            },
                        },
                    ],
                },
            ),
            errs: [],
        }
        "##,
    );
}

#[test]
fn it_parses_expr_with_replace_filter() {
        let test_str = r#"names replace "; " ",""#;
    check(
        run_res(&test_str, expr_parser),
        r##"
        ParseResult {
            output: Some(
                Expr {
                    variable: VariableName(
                        "names",
                    ),
                    filters: [
                        Replace {
                            old_value: InterpolatedString {
                                parts: [
                                    Str(
                                        "; ",
                                    ),
                                ],
                            },
                            new_value: InterpolatedString {
                                parts: [
                                    Str(
                                        ",",
                                    ),
                                ],
                            },
                        },
                    ],
                },
            ),
            errs: [],
        }
        "##,
    );
}

#[test]
fn it_parses_expr_with_to_date_filter() {
        let test_str = "creation_date toDate \"%a, %d %b %Y %H:%M:%S\"";
    check(
        run_res(&test_str, expr_parser),
        r##"
        ParseResult {
            output: Some(
                Expr {
                    variable: VariableName(
                        "creation_date",
                    ),
                    filters: [
                        ToDate {
                            fmt: InterpolatedString {
                                parts: [
                                    Str(
                                        "%a, %d %b %Y %H:%M:%S",
                                    ),
                                ],
                            },
                        },
                    ],
                },
            ),
            errs: [],
        }
        "##,
    );
}

#[test]
fn it_parses_expr_with_xpath_filter() {
        let test_str = r#"document xpath "string(//div)""#;
    check(
        run_res(&test_str, expr_parser),
        r##"
        ParseResult {
            output: Some(
                Expr {
                    variable: VariableName(
                        "document",
                    ),
                    filters: [
                        XPath {
                            expr: InterpolatedString {
                                parts: [
                                    Str(
                                        "string(//div)",
                                    ),
                                ],
                            },
                        },
                    ],
                },
            ),
            errs: [],
        }
        "##,
    );
}

#[test]
fn it_parses_expr_with_count_filter() {
        let test_str = r#"response jsonpath "$.names" count"#;
    check(
        run_res(&test_str, expr_parser),
        r##"
        ParseResult {
            output: Some(
                Expr {
                    variable: VariableName(
                        "response",
                    ),
                    filters: [
                        JsonPath {
                            expr: InterpolatedString {
                                parts: [
                                    Str(
                                        "$.names",
                                    ),
                                ],
                            },
                        },
                        Count,
                    ],
                },
            ),
            errs: [],
        }
        "##,
    );
}

#[test]
fn it_errors_expr_with_filters_missing_space_delimeter() {
        let test_str = r#"response jsonpath "$.names"count"#;
    check(
        run_res(&test_str, expr_parser),
        r##"
        ParseResult {
            output: None,
            errs: [
                found ''c'' at 27..28 expected spacing, or end of input,
            ],
        }
        "##,
    );
}

#[test]
fn it_parses_expr_with_days_after_now_filter() {
        let test_str = "expiration_date daysAfterNow";
    check(
        run_res(&test_str, expr_parser),
        r##"
        ParseResult {
            output: Some(
                Expr {
                    variable: VariableName(
                        "expiration_date",
                    ),
                    filters: [
                        DaysAfterNow,
                    ],
                },
            ),
            errs: [],
        }
        "##,
    );
}

#[test]
fn it_parses_expr_with_days_before_now_filter() {
        let test_str = "expiration_date daysBeforeNow";
    check(
        run_res(&test_str, expr_parser),
        r##"
        ParseResult {
            output: Some(
                Expr {
                    variable: VariableName(
                        "expiration_date",
                    ),
                    filters: [
                        DaysBeforeNow,
                    ],
                },
            ),
            errs: [],
        }
        "##,
    );
}

#[test]
fn it_parses_expr_with_html_escape_filter() {
        let test_str = "document htmlEscape";
    check(
        run_res(&test_str, expr_parser),
        r##"
        ParseResult {
            output: Some(
                Expr {
                    variable: VariableName(
                        "document",
                    ),
                    filters: [
                        HtmlEscape,
                    ],
                },
            ),
            errs: [],
        }
        "##,
    );
}

#[test]
fn it_parses_expr_with_html_unescape_filter() {
        let test_str = "escaped_document htmlUnescape";
    check(
        run_res(&test_str, expr_parser),
        r##"
        ParseResult {
            output: Some(
                Expr {
                    variable: VariableName(
                        "escaped_document",
                    ),
                    filters: [
                        HtmlUnescape,
                    ],
                },
            ),
            errs: [],
        }
        "##,
    );
}

#[test]
fn it_parses_expr_with_to_float_filter() {
        let test_str = "inflation_rate toFloat";
    check(
        run_res(&test_str, expr_parser),
        r##"
        ParseResult {
            output: Some(
                Expr {
                    variable: VariableName(
                        "inflation_rate",
                    ),
                    filters: [
                        ToFloat,
                    ],
                },
            ),
            errs: [],
        }
        "##,
    );
}

#[test]
fn it_parses_expr_with_to_int_filter() {
        let test_str = "id toInt";
    check(
        run_res(&test_str, expr_parser),
        r##"
        ParseResult {
            output: Some(
                Expr {
                    variable: VariableName(
                        "id",
                    ),
                    filters: [
                        ToInt,
                    ],
                },
            ),
            errs: [],
        }
        "##,
    );
}

#[test]
fn it_parses_expr_with_url_decode_filter() {
        let test_str = "encoded_url urlDecode";
    check(
        run_res(&test_str, expr_parser),
        r##"
        ParseResult {
            output: Some(
                Expr {
                    variable: VariableName(
                        "encoded_url",
                    ),
                    filters: [
                        UrlDecode,
                    ],
                },
            ),
            errs: [],
        }
        "##,
    );
}

#[test]
fn it_parses_expr_with_url_encode_filter() {
        let test_str = "url urlEncode";
    check(
        run_res(&test_str, expr_parser),
        r##"
        ParseResult {
            output: Some(
                Expr {
                    variable: VariableName(
                        "url",
                    ),
                    filters: [
                        UrlEncode,
                    ],
                },
            ),
            errs: [],
        }
        "##,
    );
}

#[test]
fn it_parses_expr_with_extra_space_between_variable_and_filter() {
        let test_str = "url  urlEncode";
    check(
        run_res(&test_str, expr_parser),
        r##"
        ParseResult {
            output: Some(
                Expr {
                    variable: VariableName(
                        "url",
                    ),
                    filters: [
                        UrlEncode,
                    ],
                },
            ),
            errs: [],
        }
        "##,
    );
}

#[test]
fn it_parses_expr_with_extra_space_between_filters() {
        let test_str = r#"response jsonpath "$.names"   count"#;
    check(
        run_res(&test_str, expr_parser),
        r##"
        ParseResult {
            output: Some(
                Expr {
                    variable: VariableName(
                        "response",
                    ),
                    filters: [
                        JsonPath {
                            expr: InterpolatedString {
                                parts: [
                                    Str(
                                        "$.names",
                                    ),
                                ],
                            },
                        },
                        Count,
                    ],
                },
            ),
            errs: [],
        }
        "##,
    );
}
