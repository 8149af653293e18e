//! Line terminators: optional spaces, an optional `#` comment, then a
//! newline or the end of the text; one or more of them.
use vstd::prelude::*;
use crate::base::{
    char_at, lemma_run_end, lemma_skip_sp, matches_at, run_end, run_end_exec, skip_sp,
    skip_sp_exec,
};

verus! {

pub open spec fn not_newline() -> spec_fn(char) -> bool {
    |c: char| c != '\n'
}

/// The position after a comment starting at `q`; `q` when there is none.
pub open spec fn comment_end(s: Seq<char>, q: int) -> int {
    if char_at(s, q) == Some('#') {
        run_end(s, q + 1, not_newline())
    } else {
        q
    }
}

/// The position after a newline (`\n` or `\r\n`) at `q`.
pub open spec fn newline_end(s: Seq<char>, q: int) -> Option<int> {
    if char_at(s, q) == Some('\n') {
        Some(q + 1)
    } else if matches_at(s, q, seq!['\r', '\n']) {
        Some(q + 2)
    } else {
        None
    }
}

/// One line end: spaces, a comment, and a newline or the end of the text.
pub open spec fn sp_line_end(s: Seq<char>, p: int) -> Option<int> {
    let q = comment_end(s, skip_sp(s, p));
    match newline_end(s, q) {
        Some(r) => Some(r),
        None => if q == s.len() {
            Some(q)
        } else {
            None
        },
    }
}

/// Further line ends after `q`, as long as each moves forward.
pub open spec fn lines_from(s: Seq<char>, q: int) -> int
    decreases s.len() - q,
{
    match sp_line_end(s, q) {
        Some(q2) => if q < q2 <= s.len() {
            lines_from(s, q2)
        } else {
            q
        },
        None => q,
    }
}

/// A line terminator: one or more line ends.
pub open spec fn sp_lt(s: Seq<char>, p: int) -> Option<int> {
    match sp_line_end(s, p) {
        Some(q) => Some(lines_from(s, q)),
        None => None,
    }
}

pub fn parse_line_end(s: &Vec<char>, p: usize) -> (r: Option<usize>)
    requires
        p <= s@.len(),
    ensures
        match r {
            Some(q) => sp_line_end(s@, p as int) == Some(q as int) && p <= q <= s@.len(),
            None => sp_line_end(s@, p as int) is None,
        },
{
    let q0 = skip_sp_exec(s, p);
    let q = if q0 < s.len() && s[q0] == '#' {
        run_end_exec(
            s,
            q0 + 1,
            (|c: char| -> (b: bool)
                ensures
                    b == (c != '\n'),
                { c != '\n' }),
            Ghost(not_newline()),
        )
    } else {
        q0
    };
    proof {
        reveal_strlit("\r\n");
        assert("\r\n"@ =~= seq!['\r', '\n']);
    }
    if q < s.len() && s[q] == '\n' {
        Some(q + 1)
    } else if crate::base::lit_at(s, q, "\r\n") {
        Some(q + 2)
    } else if q == s.len() {
        Some(q)
    } else {
        None
    }
}

/// A line terminator at `p`; the position after it.
pub fn parse_lt(s: &Vec<char>, p: usize) -> (r: Option<usize>)
    requires
        p <= s@.len(),
    ensures
        match r {
            Some(q) => sp_lt(s@, p as int) == Some(q as int) && p <= q <= s@.len(),
            None => sp_lt(s@, p as int) is None,
        },
{
    match parse_line_end(s, p) {
        Some(q0) => {
            let mut q = q0;
            loop
                invariant
                    p <= q0 <= q <= s@.len(),
                    lines_from(s@, q as int) == lines_from(s@, q0 as int),
                    sp_lt(s@, p as int) == Some(lines_from(s@, q0 as int)),
                decreases s@.len() - q,
            {
                match parse_line_end(s, q) {
                    Some(q2) => {
                        if q2 > q {
                            q = q2;
                        } else {
                            return Some(q);
                        }
                    },
                    None => {
                        return Some(q);
                    },
                }
            }
        },
        None => None,
    }
}

} // verus!
