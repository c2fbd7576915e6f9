//! Orchestration decisions of the compile pipeline: which settings are
//! acceptable, which diagnostic each stage's failure raises, and how the
//! paths of a compilation are derived. The pipeline's outside services
//! (tokenizer, parser, lowering, code generator) and its file reads and
//! writes run around this library and hand plain values in and out.
use vstd::prelude::*;

use crate::diag::{CompilationError, SourceLocation, SourceSpan};
use crate::text::{chars_of, lemma_split_on_len, split_chars, split_on, string_of_chars};

verus! {

/// The largest acceptable optimization level.
pub const MAX_OPT_LEVEL: u8 = 3;

/// Immutable per-invocation compiler configuration.
#[derive(Clone, Copy, Debug, PartialEq, Eq, Structural)]
pub struct CompileSettings {
    pub optimization: u8,
}

impl CompileSettings {
    /// Acceptable settings carry an optimization level in the closed
    /// range up to `MAX_OPT_LEVEL`.
    pub open spec fn wf(self) -> bool {
        self.optimization <= MAX_OPT_LEVEL
    }

    /// Settings for an optimization level; a level over the maximum is
    /// rejected here, before any file is processed.
    pub fn new(optimization: u8) -> (r: Option<CompileSettings>)
        ensures
            optimization <= MAX_OPT_LEVEL ==> r == Some(CompileSettings { optimization }),
            optimization > MAX_OPT_LEVEL ==> r is None,
    {
        if optimization <= MAX_OPT_LEVEL {
            Some(CompileSettings { optimization })
        } else {
            None
        }
    }
}

/// One pipeline stage's report of failure, as plain values.
pub enum StageFailure {
    Io { message: String },
    Tokenize { line: usize, column: usize, message: String },
    Ast { line: usize, column: usize, line_delta: usize, column_width: usize, message: String },
    Codegen { message: String },
}

/// Which diagnostic the pipeline raises for each stage's failure:
/// reading and code generation render without source context, a
/// tokenizer failure is underlined one column wide at its location, and
/// a syntax-tree failure keeps the parser's own span.
pub open spec fn diagnostic_spec(f: StageFailure) -> CompilationError {
    match f {
        StageFailure::Io { message } => CompilationError::IoError { message },
        StageFailure::Tokenize { line, column, message } => CompilationError::TokenizerError {
            message,
            location: SourceLocation { line, column },
            span: SourceSpan { line_delta: 0, column_width: 1 },
        },
        StageFailure::Ast {
            line,
            column,
            line_delta,
            column_width,
            message,
        } => CompilationError::AstBuilderError {
            message,
            location: SourceLocation { line, column },
            span: SourceSpan { line_delta, column_width },
        },
        StageFailure::Codegen { message } => CompilationError::CompilerError { message },
    }
}

/// The diagnostic for a stage failure, exactly as `diagnostic_spec`
/// fixes it.
pub fn diagnostic_for(f: StageFailure) -> (e: CompilationError)
    ensures
        e == diagnostic_spec(f),
{
    match f {
        StageFailure::Io { message } => CompilationError::IoError { message },
        StageFailure::Tokenize { line, column, message } => CompilationError::TokenizerError {
            message,
            location: SourceLocation { line, column },
            span: SourceSpan { line_delta: 0, column_width: 1 },
        },
        StageFailure::Ast {
            line,
            column,
            line_delta,
            column_width,
            message,
        } => CompilationError::AstBuilderError {
            message,
            location: SourceLocation { line, column },
            span: SourceSpan { line_delta, column_width },
        },
        StageFailure::Codegen { message } => CompilationError::CompilerError { message },
    }
}

/// What follows the last path separator in `p`: the file-name component
/// handed to the code generator as the module name.
pub open spec fn file_name_spec(p: Seq<char>) -> Seq<char> {
    split_on(p, '/').last()
}

/// The module name for a source file path.
pub fn module_name(path: &str) -> (m: String)
    ensures
        m@ == file_name_spec(path@),
{
    let v = chars_of(path);
    let mut parts = split_chars(&v, '/');
    proof {
        lemma_split_on_len(path@, '/');
        assert(parts.deep_view().len() == parts@.len());
        assert(parts@[parts@.len() - 1]@ == parts.deep_view().last());
    }
    let name = parts.pop().unwrap();
    string_of_chars(&name)
}

/// The index of the last occurrence of `c` in `s`, or a negative value
/// when `c` does not occur.
pub open spec fn last_index_of(s: Seq<char>, c: char) -> int
    decreases s.len(),
{
    if s.len() == 0 {
        -1
    } else if s.last() == c {
        s.len() - 1
    } else {
        last_index_of(s.drop_last(), c)
    }
}

/// Where a compilation's object file is written: the input path with its
/// extension replaced by `o`. A file name carries an extension when it
/// holds a dot past its first character; a name without one, including a
/// name whose only dot begins it, gets `.o` appended whole.
pub open spec fn object_path_spec(p: Seq<char>) -> Seq<char> {
    let slash = last_index_of(p, '/');
    let dot = last_index_of(p, '.');
    if dot > slash + 1 {
        p.take(dot) + ".o"@
    } else {
        p + ".o"@
    }
}

fn last_index_in(v: &Vec<char>, c: char) -> (r: Option<usize>)
    ensures
        match r {
            Some(k) => last_index_of(v@, c) == k as int && k < v@.len(),
            None => last_index_of(v@, c) == -1,
        },
{
    let mut j = v.len();
    proof {
        assert(v@.take(j as int) =~= v@);
    }
    while j > 0
        invariant
            j <= v@.len(),
            last_index_of(v@, c) == last_index_of(v@.take(j as int), c),
        decreases j,
    {
        j = j - 1;
        if v[j] == c {
            proof {
                assert(v@.take(j as int + 1).last() == v@[j as int]);
                assert(last_index_of(v@.take(j as int + 1), c) == j as int);
            }
            return Some(j);
        }
        proof {
            assert(v@.take(j as int + 1).last() == v@[j as int]);
            assert(v@.take(j as int + 1).drop_last() =~= v@.take(j as int));
        }
    }
    proof {
        assert(v@.take(0) =~= Seq::<char>::empty());
    }
    None
}

/// The object-file path beside a source file: its extension replaced by
/// `o`, or `.o` appended when it has none.
pub fn object_path(path: &str) -> (r: String)
    ensures
        r@ == object_path_spec(path@),
{
    proof {
        reveal_strlit(".o");
    }
    let v = chars_of(path);
    let slash = last_index_in(&v, '/');
    let dot = last_index_in(&v, '.');
    match dot {
        Some(k) => {
            let cut = match slash {
                Some(s) => k > s && k - s > 1,
                None => k > 0,
            };
            if cut {
                let mut stem = v;
                stem.truncate(k);
                let mut r = string_of_chars(&stem);
                r.append(".o");
                proof {
                    assert(r@ =~= object_path_spec(path@));
                }
                r
            } else {
                let mut r = string_of_chars(&v);
                r.append(".o");
                proof {
                    assert(r@ =~= object_path_spec(path@));
                }
                r
            }
        },
        None => {
            let mut r = string_of_chars(&v);
            r.append(".o");
            proof {
                assert(r@ =~= object_path_spec(path@));
            }
            r
        },
    }
}

} // verus!
