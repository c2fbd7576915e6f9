//! Diagnostic rendering: turning a failed stage's error, the path of the
//! offending file, and its source text into the lines that belong on the
//! error stream, with a windowed source excerpt and a caret underline.
use vstd::prelude::*;

use crate::text::{carets, carets_string, chars_of, dec_rep, dec_string, lemma_split_on_len,
    pad4, pad4_string, sat_add, sat_add_usize, spaces, spaces_string, split_chars, split_on,
    string_of_chars, strip_cr};

verus! {

/// Where an error begins: a zero-based (line, column) pair.
#[derive(Clone, Copy, Debug, PartialEq, Eq, Structural)]
pub struct SourceLocation {
    pub line: usize,
    pub column: usize,
}

/// How far an error extends from its location: `line_delta` lines down,
/// and `column_width` columns of underline. A delta of zero means the
/// error is confined to one line.
#[derive(Clone, Copy, Debug, PartialEq, Eq, Structural)]
pub struct SourceSpan {
    pub line_delta: usize,
    pub column_width: usize,
}

/// A failure of one compilation stage. Only tokenizer and syntax-tree
/// failures carry a source location and span; the other kinds are
/// rendered without source context.
#[derive(Debug)]
pub enum CompilationError {
    IoError { message: String },
    TokenizerError { message: String, location: SourceLocation, span: SourceSpan },
    AstBuilderError { message: String, location: SourceLocation, span: SourceSpan },
    CompilerError { message: String },
}

/// The source text split into lines, as `str::lines` yields them: split
/// at newlines, a carriage return before a split newline is dropped, and
/// a final line ending is optional.
pub open spec fn line_seq(code: Seq<char>) -> Seq<Seq<char>> {
    let parts = split_on(code, '\n');
    let init = parts.drop_last().map_values(|l: Seq<char>| strip_cr(l));
    if parts.last().len() == 0 {
        init
    } else {
        init.push(parts.last())
    }
}

pub open spec fn min_nat(a: nat, b: nat) -> nat {
    if a <= b {
        a
    } else {
        b
    }
}

/// The two lines that head every source-context block: the message and
/// the one-based location.
pub open spec fn header_lines(msg: Seq<char>, path: Seq<char>, line: nat, col: nat) -> Seq<
    Seq<char>,
> {
    seq![
        "error: "@ + msg,
        "-> "@ + path + ":"@ + dec_rep(sat_add(line, 1)) + ":"@ + dec_rep(sat_add(col, 1)),
    ]
}

/// One rendered source line: its one-based number right-aligned to four
/// columns, a bar, and the line's text.
pub open spec fn source_row(i: nat, content: Seq<char>) -> Seq<char> {
    pad4(i + 1) + " | "@ + content
}

/// The caret line placed beneath the underlined source line.
pub open spec fn underline_row(col: nat, ul_len: nat) -> Seq<char> {
    "     | "@ + spaces(col) + carets(ul_len)
}

/// The rendered window rows from line `i` up to `hi`, with the underline
/// row inserted beneath line `ul`.
pub open spec fn window_rows(
    lines: Seq<Seq<char>>,
    i: nat,
    hi: nat,
    ul: nat,
    ul_len: nat,
    col: nat,
) -> Seq<Seq<char>>
    decreases hi - i,
{
    if i >= hi {
        Seq::<Seq<char>>::empty()
    } else {
        let row = source_row(i, lines[i as int]);
        let rest = window_rows(lines, i + 1, hi, ul, ul_len, col);
        if i == ul {
            seq![row, underline_row(col, ul_len)] + rest
        } else {
            seq![row] + rest
        }
    }
}

/// The full source-context block for a located error: header, location
/// line, and a window of lines around the error with a caret underline.
/// The underline width for a span that crosses lines is the span's own
/// column width alone; this approximation does not measure the widest
/// line in the range, and is kept deliberately.
pub open spec fn source_block(
    msg: Seq<char>,
    loc: SourceLocation,
    span: SourceSpan,
    path: Seq<char>,
    code: Seq<char>,
) -> Seq<Seq<char>> {
    let lines = line_seq(code);
    let ul = sat_add(loc.line as nat, span.line_delta as nat);
    let ul_len = if span.line_delta == 0 {
        sat_add(loc.column as nat, span.column_width as nat)
    } else {
        span.column_width as nat
    };
    let lo = if loc.line >= 2 {
        (loc.line - 2) as nat
    } else {
        0
    };
    let hi = min_nat(sat_add(ul, 3), lines.len());
    header_lines(msg, path, loc.line as nat, loc.column as nat) + window_rows(
        lines,
        lo,
        hi,
        ul,
        ul_len,
        loc.column as nat,
    )
}

/// Everything the renderer writes for a diagnostic, line by line.
/// Failures without a source location render as a single line.
pub open spec fn render_spec(e: CompilationError, path: Seq<char>, code: Seq<char>) -> Seq<
    Seq<char>,
> {
    match e {
        CompilationError::IoError { message } => seq!["IO error: "@ + message@],
        CompilationError::CompilerError { message } => seq!["Compiler error: "@ + message@],
        CompilationError::TokenizerError { message, location, span } => source_block(
            message@,
            location,
            span,
            path,
            code,
        ),
        CompilationError::AstBuilderError { message, location, span } => source_block(
            message@,
            location,
            span,
            path,
            code,
        ),
    }
}

/// Rendering is total: every diagnostic yields at least one line, and a
/// located diagnostic yields its header and location lines whatever its
/// location and span hold — a location on the first or last line of the
/// source, or past either, still gives a well-formed window.
pub proof fn lemma_render_total(e: CompilationError, path: Seq<char>, code: Seq<char>)
    ensures
        render_spec(e, path, code).len() >= 1,
        (e is TokenizerError || e is AstBuilderError) ==> render_spec(e, path, code).len() >= 2,
{
}

/// The lines of `code`, each line's characters in a vector.
pub fn split_lines(code: &str) -> (lines: Vec<Vec<char>>)
    ensures
        lines.deep_view() == line_seq(code@),
{
    broadcast use vstd::std_specs::vec::vec_clone_deep_view_proof;

    let v = chars_of(code);
    let parts = split_chars(&v, '\n');
    let ghost pd = parts.deep_view();
    proof {
        lemma_split_on_len(code@, '\n');
        assert(pd.len() == parts@.len());
        assert(pd.len() >= 1);
    }
    let n = parts.len();
    let mut lines: Vec<Vec<char>> = Vec::new();
    let mut k: usize = 0;
    proof {
        assert(lines.deep_view() =~~= pd.take(0).map_values(|l: Seq<char>| strip_cr(l)));
    }
    while k + 1 < n
        invariant
            n == parts@.len(),
            pd == parts.deep_view(),
            pd.len() == n,
            k < n,
            lines.deep_view() == pd.take(k as int).map_values(|l: Seq<char>| strip_cr(l)),
        decreases n - k,
    {
        let piece = &parts[k];
        let mut li = piece.clone();
        proof {
            assert(li.deep_view() == parts@[k as int].deep_view());
            assert(li.deep_view() =~= li@);
            assert(parts@[k as int].deep_view() =~= parts@[k as int]@);
            assert(li@ == pd[k as int]);
        }
        if li.len() > 0 && li[li.len() - 1] == '\r' {
            let _ = li.pop();
        }
        proof {
            assert(li@ == strip_cr(pd[k as int]));
        }
        let ghost old_dv = lines.deep_view();
        lines.push(li);
        k = k + 1;
        proof {
            assert(lines.deep_view() =~~= old_dv.push(strip_cr(pd[k as int - 1])));
            assert(lines.deep_view() =~~= pd.take(k as int).map_values(
                |l: Seq<char>| strip_cr(l),
            ));
        }
    }
    proof {
        assert(k == n - 1);
        assert(pd.take(n as int - 1) =~~= pd.drop_last());
    }
    let last = &parts[k];
    if last.len() > 0 {
        let li = last.clone();
        proof {
            assert(li.deep_view() =~= li@);
            assert(parts@[k as int].deep_view() =~= parts@[k as int]@);
            assert(li@ == pd.last());
        }
        let ghost old_dv = lines.deep_view();
        lines.push(li);
        proof {
            assert(lines.deep_view() =~~= old_dv.push(pd.last()));
        }
    } else {
        proof {
            assert(pd.last().len() == 0);
        }
    }
    proof {
        assert(lines.deep_view() =~~= line_seq(code@));
    }
    lines
}

fn render_block(message: &String, loc: SourceLocation, span: SourceSpan, path: &str, code: &str)
    -> (out: Vec<String>)
    ensures
        out.deep_view() == source_block(message@, loc, span, path@, code@),
{
    let lines = split_lines(code);
    let ghost lseq = line_seq(code@);
    let ul = sat_add_usize(loc.line, span.line_delta);
    let ul_len = if span.line_delta == 0 {
        sat_add_usize(loc.column, span.column_width)
    } else {
        span.column_width
    };
    let lo = if loc.line >= 2 {
        loc.line - 2
    } else {
        0
    };
    let hi_raw = sat_add_usize(ul, 3);
    let hi = if hi_raw <= lines.len() {
        hi_raw
    } else {
        lines.len()
    };
    proof {
        assert(lines.deep_view().len() == lines@.len());
        assert(hi as nat == min_nat(sat_add(ul as nat, 3), lseq.len()));
    }

    let mut out: Vec<String> = Vec::new();
    let mut h = String::from_str("error: ");
    h.append(message.as_str());
    out.push(h);
    let mut p = String::from_str("-> ");
    p.append(path);
    p.append(":");
    let d1 = dec_string(sat_add_usize(loc.line, 1));
    p.append(d1.as_str());
    p.append(":");
    let d2 = dec_string(sat_add_usize(loc.column, 1));
    p.append(d2.as_str());
    out.push(p);
    let ghost total = source_block(message@, loc, span, path@, code@);
    proof {
        assert(out.deep_view() =~~= header_lines(
            message@,
            path@,
            loc.line as nat,
            loc.column as nat,
        ));
        assert(total =~~= out.deep_view() + window_rows(
            lseq,
            lo as nat,
            hi as nat,
            ul as nat,
            ul_len as nat,
            loc.column as nat,
        ));
    }
    let mut i = lo;
    while i < hi
        invariant
            hi <= lines@.len(),
            lseq == lines.deep_view(),
            lseq.len() == lines@.len(),
            total == out.deep_view() + window_rows(
                lseq,
                i as nat,
                hi as nat,
                ul as nat,
                ul_len as nat,
                loc.column as nat,
            ),
        decreases hi - i,
    {
        let mut row = pad4_string(i + 1);
        row.append(" | ");
        let content = string_of_chars(&lines[i]);
        row.append(content.as_str());
        proof {
            assert(content@ =~= lseq[i as int]);
            assert(row@ == source_row(i as nat, lseq[i as int]));
        }
        let ghost dv_a = out.deep_view();
        out.push(row);
        proof {
            assert(out.deep_view() =~~= dv_a.push(source_row(i as nat, lseq[i as int])));
        }
        if i == ul {
            let mut u = String::from_str("     | ");
            let sp = spaces_string(loc.column);
            u.append(sp.as_str());
            let cr = carets_string(ul_len);
            u.append(cr.as_str());
            proof {
                assert(u@ == underline_row(loc.column as nat, ul_len as nat));
            }
            let ghost dv_b = out.deep_view();
            out.push(u);
            proof {
                assert(out.deep_view() =~~= dv_b.push(
                    underline_row(loc.column as nat, ul_len as nat),
                ));
            }
        }
        i = i + 1;
        proof {
            assert(total =~~= out.deep_view() + window_rows(
                lseq,
                i as nat,
                hi as nat,
                ul as nat,
                ul_len as nat,
                loc.column as nat,
            ));
        }
    }
    proof {
        assert(window_rows(lseq, i as nat, hi as nat, ul as nat, ul_len as nat, loc.column as nat)
            =~~= Seq::<Seq<char>>::empty());
        assert(total =~~= out.deep_view());
    }
    out
}

impl CompilationError {
    /// Render this diagnostic for the given file path and source text.
    /// The result holds, in order, exactly the lines that belong on the
    /// error stream; it is total and never fails, whatever the location
    /// and span hold.
    pub fn pretty_print(&self, path: &str, code: &str) -> (out: Vec<String>)
        ensures
            out.deep_view() == render_spec(*self, path@, code@),
    {
        match self {
            CompilationError::IoError { message } => {
                let mut l = String::from_str("IO error: ");
                l.append(message.as_str());
                let mut out: Vec<String> = Vec::new();
                out.push(l);
                proof {
                    assert(out.deep_view() =~~= render_spec(*self, path@, code@));
                }
                out
            },
            CompilationError::CompilerError { message } => {
                let mut l = String::from_str("Compiler error: ");
                l.append(message.as_str());
                let mut out: Vec<String> = Vec::new();
                out.push(l);
                proof {
                    assert(out.deep_view() =~~= render_spec(*self, path@, code@));
                }
                out
            },
            CompilationError::TokenizerError { message, location, span } => {
                render_block(message, *location, *span, path, code)
            },
            CompilationError::AstBuilderError { message, location, span } => {
                render_block(message, *location, *span, path, code)
            },
        }
    }
}

} // verus!
