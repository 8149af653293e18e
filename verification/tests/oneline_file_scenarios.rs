//! Scenarios of the grammar, each with its input and the syntax tree
//! and diagnostics it gives.
use hurl_parser::oneline::oneline_file_parser;
use hurl_parser::base::{read_whole, ParseError, to_chars};
use hurl_parser::document::parse_ast;
use hurl_parser::types::Ast;
use std::fmt;

/// A diagnostic as a parse report shows it: its message and its span.
struct Diag(String);

impl fmt::Debug for Diag {
    fn fmt(&self, f: &mut fmt::Formatter<'_>) -> fmt::Result {
        f.write_str(&self.0)
    }
}

/// What a parser gives for a whole input: a value when it read all of
/// it, and the diagnostics raised (with one where reading the rest fails,
/// as `read_whole` gives it, when it stops before the end).
#[derive(Debug)]
struct ParseResult<T> {
    output: Option<T>,
    errs: Vec<Diag>,
}

fn diags(s: &Vec<char>, errs: &[ParseError]) -> Vec<Diag> {
    errs.iter().map(|e| Diag(format!("{} at {}..{}", e.message(s), e.start, e.end))).collect()
}

fn finish<T>(s: &Vec<char>, r: Option<(T, usize, Vec<ParseError>)>) -> ParseResult<T> {
    match r {
        Some(r) => {
            let (v, e) = read_whole(s, r);
            ParseResult { output: v, errs: diags(s, &e) }
        }
        None => ParseResult { output: None, errs: vec![Diag(format!("no match at 0..{}", s.len()))] },
    }
}

/// A parser that says where it failed: a value when it read all of the
/// input; else the failure it reports.
#[allow(dead_code)]
fn run_res<T>(src: &str, f: fn(&Vec<char>, usize) -> Result<(T, usize, Vec<ParseError>), ParseError>) -> ParseResult<T> {
    let s = to_chars(src);
    match f(&s, 0) {
        Ok(r) => finish(&s, Some(r)),
        Err(e) => ParseResult { output: None, errs: diags(&s, &[e]) },
    }
}

#[allow(dead_code)]
fn run_unit_res<T>(src: &str, f: fn(&Vec<char>, usize) -> Result<(T, usize, Vec<ParseError>), ParseError>) -> ParseResult<(T, ())> {
    let s = to_chars(src);
    match f(&s, 0) {
        Ok((v, q, e)) => finish(&s, Some(((v, ()), q, e))),
        Err(e) => ParseResult { output: None, errs: diags(&s, &[e]) },
    }
}

#[allow(dead_code)]
fn run_plain_res<T>(src: &str, f: fn(&Vec<char>, usize) -> Result<(T, usize), ParseError>) -> ParseResult<T> {
    let s = to_chars(src);
    match f(&s, 0) {
        Ok((v, q)) => finish(&s, Some((v, q, Vec::new()))),
        Err(e) => ParseResult { output: None, errs: diags(&s, &[e]) },
    }
}

#[allow(dead_code)]
fn run<T>(src: &str, f: fn(&Vec<char>, usize) -> Option<(T, usize, Vec<ParseError>)>) -> ParseResult<T> {
    let s = to_chars(src);
    let r = f(&s, 0);
    finish(&s, r)
}

#[allow(dead_code)]
fn run_unit<T>(src: &str, f: fn(&Vec<char>, usize) -> Option<(T, usize, Vec<ParseError>)>) -> ParseResult<(T, ())> {
    let s = to_chars(src);
    let r = f(&s, 0).map(|(v, q, e)| ((v, ()), q, e));
    finish(&s, r)
}

#[allow(dead_code)]
fn run_many<T>(src: &str, f: fn(&Vec<char>, usize) -> (T, usize, Vec<ParseError>)) -> ParseResult<T> {
    let s = to_chars(src);
    let r = Some(f(&s, 0));
    finish(&s, r)
}

#[allow(dead_code)]
fn run_plain<T>(src: &str, f: fn(&Vec<char>, usize) -> Option<(T, usize)>) -> ParseResult<T> {
    let s = to_chars(src);
    let r = f(&s, 0).map(|(v, q)| (v, q, Vec::new()));
    finish(&s, r)
}

#[allow(dead_code)]
fn ast_result(src: &str) -> ParseResult<Ast> {
    let s = to_chars(src);
    let (ast, errs) = parse_ast(src);
    ParseResult { output: ast, errs: diags(&s, &errs) }
}

#[allow(dead_code)]
fn doc_result(src: &str) -> (Option<Ast>, Vec<Diag>) {
    let s = to_chars(src);
    let (ast, errs) = parse_ast(src);
    (ast, diags(&s, &errs))
}

/// The text of an inline snapshot, without its first blank line and its
/// common indentation.
fn dedent(t: &str) -> String {
    let mut lines: Vec<&str> = t.split('\n').collect();
    if lines.first().map_or(false, |l| l.trim().is_empty()) {
        lines.remove(0);
    }
    while lines.last().map_or(false, |l| l.trim().is_empty()) {
        lines.pop();
    }
    let indent = lines
        .iter()
        .filter(|l| !l.trim().is_empty())
        .map(|l| l.len() - l.trim_start().len())
        .min()
        .unwrap_or(0);
    lines
        .iter()
        .map(|l| if l.len() >= indent { &l[indent..] } else { l.trim_start() })
        .collect::<Vec<_>>()
        .join("\n")
}

/// The report written as the snapshots write it: the type of a multiline
/// string is shown as `type`, and a decimal number without its quotes.
fn render<T: fmt::Debug>(r: &T) -> String {
    let text = format!("{:#?}", r).replace("string_type:", "type:");
    let mut out: Vec<String> = Vec::new();
    let mut after_float = false;
    for line in text.split('\n') {
        let trimmed = line.trim_start();
        if after_float && trimmed.starts_with('"') && trimmed.ends_with("\",") {
            let indent = &line[..line.len() - trimmed.len()];
            out.push(format!("{}{},", indent, &trimmed[1..trimmed.len() - 2]));
        } else {
            out.push(line.to_string());
        }
        after_float = trimmed.ends_with("Float(");
    }
    out.join("\n")
}

/// A report split into its lines without the diagnostics, and the lines
/// of the diagnostics.
fn split_diagnostics(t: &str) -> (Vec<String>, Vec<String>) {
    let mut body = Vec::new();
    let mut diags = Vec::new();
    let mut inside = false;
    for line in t.split('\n') {
        if inside && line.trim_start().starts_with(']') {
            inside = false;
        }
        if inside {
            diags.push(line.to_string());
        } else {
            body.push(line.to_string());
        }
        if line.trim() == "errs: [" || line == "    [" {
            inside = true;
        }
    }
    (body, diags)
}

/// The span of a diagnostic line: the `a..b` written after its ` at `.
fn span_of(line: &str) -> String {
    let l = line.trim().trim_end_matches(',');
    let is_span = |t: &&str| {
        let mut parts = t.split("..");
        match (parts.next(), parts.next(), parts.next()) {
            (Some(a), Some(b), None) => {
                !a.is_empty() && !b.is_empty() && a.chars().all(|c| c.is_ascii_digit()) && b.chars().all(|c| c.is_ascii_digit())
            }
            _ => false,
        }
    };
    match l.rfind(" at ") {
        Some(_) => l.split(" at ").skip(1).filter_map(|t| t.split_whitespace().next()).map(|t| t.trim_end_matches(',')).filter(|t| is_span(t)).last().unwrap_or("").to_string(),
        None => String::new(),
    }
}

/// Whether a snapshot writes a diagnostic as a generic error
/// (`found ... expected ...`), whose list of expected things is the
/// snapshot's own wording.
fn is_generic(line: &str) -> bool {
    line.contains("found ") && line.contains(" expected ")
}

/// Whether a snapshot's generic error names no token: it says it found the
/// end of input over a span that holds a character, as an error raised by
/// hand without a found token is shown.
fn names_no_token(line: &str) -> bool {
    let span = span_of(line);
    let mut parts = span.split("..");
    let (a, b) = (parts.next().unwrap_or(""), parts.next().unwrap_or(""));
    found_of(line) == "end of input" && a != b
}

/// What a diagnostic line says was found: a quoted character, or the end
/// of input.
fn found_of(line: &str) -> String {
    let l = line.replace("''", "'");
    match l.find("found ") {
        Some(i) => {
            let rest = &l[i + 6..];
            let end = [rest.find(", expected"), rest.find(" at "), rest.find(" expected")]
                .iter()
                .filter_map(|x| *x)
                .min()
                .unwrap_or(rest.len());
            rest[..end].to_string()
        }
        None => String::new(),
    }
}

/// Holds a report's tree to the snapshot's, line for line.
fn check_body(got: &str, want: &str) {
    let (got_body, _) = split_diagnostics(got);
    let (want_body, _) = split_diagnostics(want);
    if got_body != want_body {
        let i = got_body.iter().zip(want_body.iter()).take_while(|(a, b)| a == b).count();
        let from = if i >= 3 { i - 3 } else { 0 };
        panic!(
            "report differs from the snapshot at line {}\n--- got:\n{}\n--- want:\n{}",
            i,
            got_body[from..got_body.len().min(i + 6)].join("\n"),
            want_body[from..want_body.len().min(i + 6)].join("\n")
        );
    }
}

/// Holds a parse report to a snapshot: the tree line for line, and every
/// diagnostic in order; a diagnostic that the snapshot writes as a generic
/// error is held by its span and by what it found, any other by its whole
/// text.
fn check<T: fmt::Debug>(r: T, expected: &str) {
    let want = dedent(expected);
    let got = render(&r);
    check_body(&got, &want);
    let (_, got_diags) = split_diagnostics(&got);
    let (_, want_diags) = split_diagnostics(&want);
    let same = got_diags.len() == want_diags.len()
        && got_diags.iter().zip(want_diags.iter()).all(|(g, w)| {
            if is_generic(w) {
                span_of(g) == span_of(w) && (found_of(g) == found_of(w) || names_no_token(w))
            } else {
                g.trim() == w.trim()
            }
        });
    assert!(same, "diagnostics differ\n--- got:\n{}\n--- want:\n{}", got_diags.join("\n"), want_diags.join("\n"));
}

/// Holds a parse report to a snapshot where this library reports its
/// diagnostics at other places than the snapshot: the tree is held to the
/// snapshot line for line, and the diagnostics to `ours`, the ones this
/// library gives, written out in full beside the snapshot's.
#[allow(dead_code)]
fn check_departing<T: fmt::Debug>(r: T, expected: &str, ours: &[&str]) {
    let want = dedent(expected);
    let got = render(&r);
    check_body(&got, &want);
    let (_, got_diags) = split_diagnostics(&got);
    let got_diags: Vec<String> = got_diags.iter().map(|l| l.trim().trim_end_matches(',').to_string()).collect();
    assert_eq!(got_diags, ours);
}

#[test]
fn it_parses_oneline_file() {
        let test_str = "file,example.txt;";
    check(
        run(&test_str, oneline_file_parser),
        r##"
        ParseResult {
            output: Some(
                InterpolatedString {
                    parts: [
                        Str(
                            "example.txt",
                        ),
                    ],
                },
            ),
            errs: [],
        }
        "##,
    );
}

#[test]
fn it_parses_oneline_file_with_spaces() {
        let test_str = "file,  example.txt  ;";
    check(
        run(&test_str, oneline_file_parser),
        r##"
        ParseResult {
            output: Some(
                InterpolatedString {
                    parts: [
                        Str(
                            "example.txt",
                        ),
                    ],
                },
            ),
            errs: [],
        }
        "##,
    );
}
