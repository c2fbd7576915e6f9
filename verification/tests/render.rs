use hfc::compile::{diagnostic_for, module_name, object_path, CompileSettings, StageFailure};
use hfc::diag::{CompilationError, SourceLocation, SourceSpan};
use hfc::text::{dec_string, string_of_chars};

fn tok_error(line: usize, column: usize, line_delta: usize, column_width: usize) -> CompilationError {
    CompilationError::TokenizerError {
        message: String::from("boom"),
        location: SourceLocation { line, column },
        span: SourceSpan { line_delta, column_width },
    }
}

#[test]
fn tokenize_failure_window_and_underline() {
    let code = "alpha\nbravo\ncharlie\ndelta\necho\nfoxtrot\ngolf\nhotel";
    let e = tok_error(3, 5, 0, 2);
    let out = e.pretty_print("main.hf", code);
    assert_eq!(out.len(), 8);
    assert_eq!(out[0], "error: boom");
    assert_eq!(out[1], "-> main.hf:4:6");
    assert_eq!(out[2], "   2 | bravo");
    assert_eq!(out[3], "   3 | charlie");
    assert_eq!(out[4], "   4 | delta");
    assert_eq!(out[5], "     |      ^^^^^^^");
    assert_eq!(out[6], "   5 | echo");
    assert_eq!(out[7], "   6 | foxtrot");
}

#[test]
fn short_file_clips_the_window() {
    let code = "alpha\nbravo\ncharlie\ndelta\necho";
    let e = tok_error(3, 5, 0, 2);
    let out = e.pretty_print("main.hf", code);
    assert_eq!(out.len(), 7);
    assert_eq!(out[4], "   4 | delta");
    assert_eq!(out[5], "     |      ^^^^^^^");
    assert_eq!(out[6], "   5 | echo");
}

#[test]
fn error_on_first_line_renders_a_valid_window() {
    let code = "one\ntwo";
    let e = tok_error(0, 0, 0, 1);
    let out = e.pretty_print("f.hf", code);
    assert_eq!(out.len(), 5);
    assert_eq!(out[0], "error: boom");
    assert_eq!(out[1], "-> f.hf:1:1");
    assert_eq!(out[2], "   1 | one");
    assert_eq!(out[3], "     | ^");
    assert_eq!(out[4], "   2 | two");
}

#[test]
fn error_on_last_line_renders_a_valid_window() {
    let code = "one\ntwo";
    let e = tok_error(1, 2, 0, 1);
    let out = e.pretty_print("f.hf", code);
    assert_eq!(out.len(), 5);
    assert_eq!(out[2], "   1 | one");
    assert_eq!(out[3], "   2 | two");
    assert_eq!(out[4], "     |   ^^^");
}

#[test]
fn multi_line_span_uses_the_width_alone() {
    let code = "aa\nbb\ncc\ndd";
    let e = CompilationError::AstBuilderError {
        message: String::from("bad"),
        location: SourceLocation { line: 0, column: 1 },
        span: SourceSpan { line_delta: 1, column_width: 2 },
    };
    let out = e.pretty_print("f.hf", code);
    assert_eq!(out[0], "error: bad");
    assert_eq!(out[1], "-> f.hf:1:2");
    assert_eq!(out[2], "   1 | aa");
    assert_eq!(out[3], "   2 | bb");
    assert_eq!(out[4], "     |  ^^");
    assert_eq!(out[5], "   3 | cc");
    assert_eq!(out[6], "   4 | dd");
    assert_eq!(out.len(), 7);
}

#[test]
fn io_and_compiler_failures_render_one_line() {
    let e = CompilationError::IoError { message: String::from("no such file") };
    let out = e.pretty_print("f.hf", "");
    assert_eq!(out, vec![String::from("IO error: no such file")]);

    let e = CompilationError::CompilerError { message: String::from("bad ir") };
    let out = e.pretty_print("f.hf", "whatever");
    assert_eq!(out, vec![String::from("Compiler error: bad ir")]);
}

#[test]
fn carriage_returns_are_stripped_from_split_lines() {
    let code = "one\r\ntwo\r";
    let e = tok_error(0, 0, 0, 1);
    let out = e.pretty_print("f.hf", code);
    assert_eq!(out[2], "   1 | one");
    // A carriage return not followed by a newline stays on its line.
    assert_eq!(out[4], "   2 | two\r");
}

#[test]
fn trailing_newline_adds_no_empty_line() {
    let code = "one\ntwo\n";
    let e = tok_error(0, 0, 0, 1);
    let out = e.pretty_print("f.hf", code);
    assert_eq!(out.len(), 5);
    assert_eq!(out[4], "   2 | two");
}

#[test]
fn far_location_saturates_and_renders_no_rows() {
    let code = "one\ntwo";
    let e = tok_error(usize::MAX, 7, 5, 2);
    let out = e.pretty_print("f.hf", code);
    assert_eq!(out.len(), 2);
    assert_eq!(out[0], "error: boom");
    assert_eq!(out[1], "-> f.hf:18446744073709551615:8");
}

#[test]
fn tokenizer_stage_failure_gets_a_one_column_span() {
    let e = diagnostic_for(StageFailure::Tokenize {
        line: 0,
        column: 2,
        message: String::from("stray token"),
    });
    match &e {
        CompilationError::TokenizerError { location, span, .. } => {
            assert_eq!(*location, SourceLocation { line: 0, column: 2 });
            assert_eq!(*span, SourceSpan { line_delta: 0, column_width: 1 });
        }
        _ => panic!("wrong diagnostic kind"),
    }
    let out = e.pretty_print("f.hf", "abcdef");
    assert_eq!(out[2], "   1 | abcdef");
    assert_eq!(out[3], "     |   ^^^");
}

#[test]
fn ast_stage_failure_keeps_the_parser_span() {
    let e = diagnostic_for(StageFailure::Ast {
        line: 1,
        column: 0,
        line_delta: 0,
        column_width: 4,
        message: String::from("unexpected end"),
    });
    match &e {
        CompilationError::AstBuilderError { span, .. } => {
            assert_eq!(*span, SourceSpan { line_delta: 0, column_width: 4 });
        }
        _ => panic!("wrong diagnostic kind"),
    }
}

#[test]
fn io_and_codegen_stage_failures_carry_the_message() {
    let e = diagnostic_for(StageFailure::Io { message: String::from("gone") });
    assert_eq!(e.pretty_print("f.hf", ""), vec![String::from("IO error: gone")]);
    let e = diagnostic_for(StageFailure::Codegen { message: String::from("spill") });
    assert_eq!(
        e.pretty_print("f.hf", ""),
        vec![String::from("Compiler error: spill")]
    );
}

#[test]
fn settings_accept_only_the_closed_range() {
    assert_eq!(CompileSettings::new(0), Some(CompileSettings { optimization: 0 }));
    assert_eq!(CompileSettings::new(3), Some(CompileSettings { optimization: 3 }));
    assert_eq!(CompileSettings::new(4), None);
    assert_eq!(CompileSettings::new(255), None);
}

#[test]
fn object_path_replaces_the_extension() {
    assert_eq!(object_path("foo.hf"), "foo.o");
    assert_eq!(object_path("dir/foo.hf"), "dir/foo.o");
    assert_eq!(object_path("foo"), "foo.o");
    assert_eq!(object_path(".hidden"), ".hidden.o");
    assert_eq!(object_path("a.b/c"), "a.b/c.o");
    assert_eq!(object_path("a.b/c.tar.gz"), "a.b/c.tar.o");
}

#[test]
fn module_name_is_the_last_path_component() {
    assert_eq!(module_name("dir/sub/mod.hf"), "mod.hf");
    assert_eq!(module_name("mod.hf"), "mod.hf");
    assert_eq!(module_name("dir/"), "");
}

#[test]
fn line_numbers_align_right_to_four_columns() {
    let code = "x\n".repeat(1100);
    let e = tok_error(999, 0, 0, 1);
    let out = e.pretty_print("f.hf", &code);
    assert_eq!(out[0], "error: boom");
    assert_eq!(out[1], "-> f.hf:1000:1");
    assert_eq!(out[2], " 998 | x");
    assert_eq!(out[3], " 999 | x");
    assert_eq!(out[4], "1000 | x");
    assert_eq!(out[5], "     | ^");
    assert_eq!(out[6], "1001 | x");
    assert_eq!(out[7], "1002 | x");
    assert_eq!(out.len(), 8);
}

#[test]
fn decimal_rendering_is_exact() {
    assert_eq!(dec_string(0), "0");
    assert_eq!(dec_string(9), "9");
    assert_eq!(dec_string(10), "10");
    assert_eq!(dec_string(907), "907");
    assert_eq!(dec_string(usize::MAX), "18446744073709551615");
}

#[test]
fn strings_are_rebuilt_from_their_characters() {
    let v = vec!['m', 'o', 'd', '.', 'h', 'f'];
    assert_eq!(string_of_chars(&v), "mod.hf");
    let empty: Vec<char> = vec![];
    assert_eq!(string_of_chars(&empty), "");
}
