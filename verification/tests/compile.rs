use data_query_lexical::compile;
use data_query_lexical::generic_compiler;
use data_query_lexical::GenericObjectIndex;
use data_query_lexical::LexOperator;
use data_query_lexical::LexOperator::{Generic, Identifier};
use data_query_lexical::LexResult;
use data_query_lexical::LexerError;
use data_query_lexical::LexicalOperations;
use data_query_lexical::Slicer::{Ident, Index, Slice};

fn steps(list: Vec<LexOperator>) -> LexResult<LexicalOperations> {
    Ok(LexicalOperations::from(list))
}

fn name(text: &str) -> LexOperator {
    Identifier(text.to_string())
}

fn stack(text: &str) -> Vec<char> {
    text.chars().rev().collect::<Vec<char>>()
}

#[test]
fn empty_text_has_no_steps() {
    assert_eq!(compile(""), steps(vec![]));
}

#[test]
fn empty_brackets_are_a_wildcard() {
    assert_eq!(
        compile(".a[]"),
        steps(vec![name("a"), Generic(GenericObjectIndex::Wildcard)])
    );
}

#[test]
fn unclosed_bracket_is_end_of_query() {
    assert_eq!(
        compile(".a["),
        Err(LexerError::EndOfQuery {
            expected: "]".to_string(),
            char_pointer: 0,
            lex: "[]".to_string(),
        })
    );
}

#[test]
fn unclosed_bracket_with_content_is_end_of_query() {
    assert_eq!(
        compile(".a[1,2"),
        Err(LexerError::EndOfQuery {
            expected: "]".to_string(),
            char_pointer: 3,
            lex: "[]".to_string(),
        })
    );
}

#[test]
fn leading_separator_is_unexpected() {
    assert_eq!(
        compile(".a[,1]"),
        Err(LexerError::UnexpectedCharacter {
            expected: "Integer/String".to_string(),
            found: ",".to_string(),
            char_pointer: 1,
            lex: "[']', '1']".to_string(),
        })
    );
}

#[test]
fn leading_range_marker_is_reported_like_a_separator() {
    assert_eq!(
        compile(".a[-1]"),
        Err(LexerError::UnexpectedCharacter {
            expected: "Integer/String".to_string(),
            found: ",".to_string(),
            char_pointer: 1,
            lex: "[']', '1']".to_string(),
        })
    );
}

#[test]
fn range_marker_behind_a_key_is_unexpected() {
    assert_eq!(
        compile(".a[x-1]"),
        Err(LexerError::UnexpectedCharacter {
            expected: "Integer".to_string(),
            found: "String".to_string(),
            char_pointer: 2,
            lex: "[']', '1']".to_string(),
        })
    );
}

#[test]
fn range_marker_behind_a_separator_is_unexpected() {
    assert_eq!(
        compile(".a[1,-2]"),
        Err(LexerError::UnexpectedCharacter {
            expected: "Integer".to_string(),
            found: "String".to_string(),
            char_pointer: 3,
            lex: "[']', '2']".to_string(),
        })
    );
}

#[test]
fn snapshot_lists_the_unread_characters_last_first() {
    assert_eq!(
        compile(".a[,'\\n.b"),
        Err(LexerError::UnexpectedCharacter {
            expected: "Integer/String".to_string(),
            found: ",".to_string(),
            char_pointer: 1,
            lex: "['b', '.', 'n', '\\\\', '\\'']".to_string(),
        })
    );
}

#[test]
fn range_end_that_is_no_number_fails_to_parse() {
    assert_eq!(
        compile(".a[1-x]"),
        Err(LexerError::FailedToParseInt("x".parse::<usize>().unwrap_err()))
    );
}

#[test]
fn range_end_that_is_too_large_fails_to_parse() {
    assert_eq!(
        compile(".a[1-99999999999999999999999999]"),
        Err(LexerError::FailedToParseInt(
            "99999999999999999999999999".parse::<usize>().unwrap_err()
        ))
    );
}

#[test]
fn range_without_end_before_a_separator_fails_to_parse() {
    assert_eq!(
        compile(".a[0,1-,2]"),
        Err(LexerError::FailedToParseInt("".parse::<usize>().unwrap_err()))
    );
}

#[test]
fn range_without_end_and_nothing_else_is_unexpected_at_the_separator() {
    assert_eq!(
        compile(".a[1-,2]"),
        Err(LexerError::UnexpectedCharacter {
            expected: "Integer/String".to_string(),
            found: ",".to_string(),
            char_pointer: 3,
            lex: "[']', '2']".to_string(),
        })
    );
}

#[test]
fn range_without_end_is_dropped_at_the_closing_bracket() {
    assert_eq!(
        compile(".a[1-]"),
        steps(vec![name("a"), Generic(GenericObjectIndex::Wildcard)])
    );
    assert_eq!(
        compile(".a[0,1-]"),
        steps(vec![
            name("a"),
            Generic(GenericObjectIndex::Slice(vec![Index(0)]))
        ])
    );
}

#[test]
fn separators_collapse() {
    assert_eq!(compile("..a...b."), steps(vec![name("a"), name("b")]));
    assert_eq!(compile("...."), steps(vec![]));
}

#[test]
fn text_behind_the_last_separator_is_dropped() {
    assert_eq!(compile(".a.b"), steps(vec![name("a")]));
    assert_eq!(compile("abc"), steps(vec![]));
    assert_eq!(compile(".a[1]b"), steps(vec![
        name("a"),
        Generic(GenericObjectIndex::Slice(vec![Index(1)]))
    ]));
}

#[test]
fn spaces_are_dropped_unless_escaped() {
    assert_eq!(compile(". a b ."), steps(vec![name("ab")]));
    assert_eq!(compile(".a\\ b."), steps(vec![name("a b")]));
    assert_eq!(compile("   "), steps(vec![]));
    assert_eq!(compile("\\ ."), steps(vec![name(" ")]));
}

#[test]
fn escaped_markers_stay_in_the_name() {
    assert_eq!(compile(".a\\[b."), steps(vec![name("a[b")]));
    assert_eq!(compile(".a\\\\b."), steps(vec![name("a\\b")]));
    assert_eq!(compile("\\.."), steps(vec![name(".")]));
}

#[test]
fn escape_at_the_end_is_dropped_with_the_buffer() {
    assert_eq!(compile(".a.b\\"), steps(vec![name("a")]));
}

#[test]
fn bracket_without_a_segment_before_it() {
    assert_eq!(
        compile("[1]"),
        steps(vec![Generic(GenericObjectIndex::Slice(vec![Index(1)]))])
    );
}

#[test]
fn brackets_follow_each_other() {
    assert_eq!(
        compile(".a[1][x].b[]"),
        steps(vec![
            name("a"),
            Generic(GenericObjectIndex::Slice(vec![Index(1)])),
            Generic(GenericObjectIndex::Slice(vec![Ident("x".to_string())])),
            name("b"),
            Generic(GenericObjectIndex::Wildcard),
        ])
    );
}

#[test]
fn bracket_counts_what_it_consumed_itself() {
    assert_eq!(
        compile(".a[1].b["),
        Err(LexerError::EndOfQuery {
            expected: "]".to_string(),
            char_pointer: 0,
            lex: "[]".to_string(),
        })
    );
    assert_eq!(
        compile(".a[1].b[2,3"),
        Err(LexerError::EndOfQuery {
            expected: "]".to_string(),
            char_pointer: 3,
            lex: "[]".to_string(),
        })
    );
    assert_eq!(compile(".a[,1]"), compile(".some.longer.path[,1]"));
}

#[test]
fn generic_compiler_reports_no_count_of_its_own() {
    for start in [0usize, 3, 1000] {
        let mut lexer_vec = stack(".a[");
        let mut operator = Vec::new();
        let compiled = generic_compiler(&mut lexer_vec, &mut operator, String::new(), false, start);
        assert_eq!(
            compiled,
            Err(LexerError::EndOfQuery {
                expected: "]".to_string(),
                char_pointer: 0,
                lex: "[]".to_string(),
            })
        );
        assert_eq!(operator, vec![name("a")]);
    }
}

#[test]
fn trailing_separator_in_brackets_adds_nothing() {
    assert_eq!(
        compile(".a[1,]"),
        steps(vec![
            name("a"),
            Generic(GenericObjectIndex::Slice(vec![Index(1)]))
        ])
    );
}

#[test]
fn nothing_between_two_separators_is_an_empty_key() {
    assert_eq!(
        compile(".a[1,,2]"),
        steps(vec![
            name("a"),
            Generic(GenericObjectIndex::Slice(vec![
                Index(1),
                Ident("".to_string()),
                Index(2)
            ]))
        ])
    );
}

#[test]
fn what_reads_as_a_number_is_a_position() {
    assert_eq!(
        compile(".a[+5,007,0,\\1]"),
        steps(vec![
            name("a"),
            Generic(GenericObjectIndex::Slice(vec![
                Index(5),
                Index(7),
                Index(0),
                Index(1)
            ]))
        ])
    );
}

#[test]
fn what_does_not_read_as_a_number_is_a_key() {
    assert_eq!(
        compile(".a[+,1x,1_0,0x10,\u{661},99999999999999999999999999]"),
        steps(vec![
            name("a"),
            Generic(GenericObjectIndex::Slice(vec![
                Ident("+".to_string()),
                Ident("1x".to_string()),
                Ident("1_0".to_string()),
                Ident("0x10".to_string()),
                Ident("\u{661}".to_string()),
                Ident("99999999999999999999999999".to_string()),
            ]))
        ])
    );
}

#[test]
fn largest_position_is_a_position() {
    let text = format!(".a[{},{}0]", usize::MAX, usize::MAX);
    assert_eq!(
        compile(&text),
        steps(vec![
            name("a"),
            Generic(GenericObjectIndex::Slice(vec![
                Index(usize::MAX),
                Ident(format!("{}0", usize::MAX)),
            ]))
        ])
    );
}

#[test]
fn range_bounds_are_not_compared() {
    assert_eq!(
        compile(".a[6-4,+1-+2]"),
        steps(vec![
            name("a"),
            Generic(GenericObjectIndex::Slice(vec![Slice(6, 4), Slice(1, 2)]))
        ])
    );
}

#[test]
fn second_range_marker_replaces_the_start() {
    assert_eq!(
        compile(".a[1-2-3]"),
        steps(vec![
            name("a"),
            Generic(GenericObjectIndex::Slice(vec![Slice(2, 3)]))
        ])
    );
}

#[test]
fn spaces_in_brackets_are_dropped_unless_escaped() {
    assert_eq!(
        compile(".a[ 1 , 2 - 3 , a\\ b ]"),
        steps(vec![
            name("a"),
            Generic(GenericObjectIndex::Slice(vec![
                Index(1),
                Slice(2, 3),
                Ident("a b".to_string())
            ]))
        ])
    );
}

#[test]
fn escaped_markers_stay_in_the_key() {
    assert_eq!(
        compile(".a[x\\]y,1\\-2,\\,]"),
        steps(vec![
            name("a"),
            Generic(GenericObjectIndex::Slice(vec![
                Ident("x]y".to_string()),
                Ident("1-2".to_string()),
                Ident(",".to_string()),
            ]))
        ])
    );
}

#[test]
fn segment_separator_and_bracket_are_plain_inside_brackets() {
    assert_eq!(
        compile(".a[b.c,[]"),
        steps(vec![
            name("a"),
            Generic(GenericObjectIndex::Slice(vec![
                Ident("b.c".to_string()),
                Ident("[".to_string()),
            ]))
        ])
    );
}

#[test]
fn reserved_markers_are_plain_characters() {
    assert_eq!(compile(".a|(b)."), steps(vec![name("a|(b)")]));
}

#[test]
fn compiling_twice_gives_equal_results() {
    for text in [".metadata[1,2,4-6,hello]", ".a[", ".a[,1]", ".a[1-x]", "", ".a.b"] {
        assert_eq!(compile(text), compile(text));
    }
}

#[test]
fn text_without_an_opening_bracket_compiles() {
    for text in ["", ".", "a", ".a.b.", "]", ",-]", "\\", ".a\\[."] {
        assert!(compile(text).is_ok());
    }
}

#[test]
fn compiled_steps_have_names_and_selectors() {
    for text in ["..a..[]..[1,]b.c\\ .", ".x[a,b][1-2].y."] {
        let compiled = compile(text).unwrap();
        for step in compiled.iter() {
            match step {
                Identifier(text) => assert!(!text.is_empty()),
                Generic(GenericObjectIndex::Slice(list)) => assert!(!list.is_empty()),
                Generic(GenericObjectIndex::Wildcard) => {}
                LexOperator::Pipe(_) => panic!("a combinator stage was produced"),
            }
        }
    }
}

#[test]
fn generic_compiler_fills_the_list_and_empties_the_stack() {
    let mut lexer_vec = stack("b.c[]");
    let mut operator = vec![name("x")];
    let compiled = generic_compiler(&mut lexer_vec, &mut operator, "a".to_string(), false, 0);
    let expected = vec![
        name("x"),
        name("ab"),
        name("c"),
        Generic(GenericObjectIndex::Wildcard),
    ];
    assert_eq!(compiled, Ok(expected.clone()));
    assert_eq!(operator, expected);
    assert!(lexer_vec.is_empty());
}

#[test]
fn generic_compiler_starts_escaped() {
    let mut lexer_vec = stack(".a.");
    let mut operator = Vec::new();
    let compiled = generic_compiler(&mut lexer_vec, &mut operator, String::new(), true, 0);
    assert_eq!(compiled, Ok(vec![name(".a")]));
}

#[test]
fn generic_compiler_keeps_what_was_complete_when_it_fails() {
    let mut lexer_vec = stack(".a[1].b[,x].c");
    let mut operator = Vec::new();
    let compiled = generic_compiler(&mut lexer_vec, &mut operator, String::new(), false, 10);
    assert_eq!(
        compiled,
        Err(LexerError::UnexpectedCharacter {
            expected: "Integer/String".to_string(),
            found: ",".to_string(),
            char_pointer: 1,
            lex: "['c', '.', ']', 'x']".to_string(),
        })
    );
    assert_eq!(
        operator,
        vec![
            name("a"),
            Generic(GenericObjectIndex::Slice(vec![Index(1)])),
            name("b"),
        ]
    );
    assert_eq!(lexer_vec, stack("x].c"));
}

#[test]
fn text_converts_into_steps() {
    let converted: Result<LexicalOperations, String> = ".a[1]".try_into();
    assert_eq!(
        converted,
        Ok(LexicalOperations::from(vec![
            name("a"),
            Generic(GenericObjectIndex::Slice(vec![Index(1)]))
        ]))
    );
}

#[test]
fn text_that_does_not_compile_converts_into_the_error_text() {
    let converted: Result<LexicalOperations, String> = ".a[".try_into();
    assert_eq!(
        converted,
        Err("EndOfQuery { expected: \"]\", char_pointer: 0, lex: \"[]\" }".to_string())
    );
    let converted: Result<LexicalOperations, String> = ".a[1-x]".try_into();
    assert_eq!(
        converted,
        Err("FailedToParseInt(ParseIntError { kind: InvalidDigit })".to_string())
    );
}
