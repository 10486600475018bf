//! Whole-scroll parsing, fault isolation, stone serialization and
//! grammar validation.
use tablet::instruction_registry::get_instruction_registry;
use tablet::parser::{ParseErrorType, Parser, ScrollNode, ScrollParser, ScrollTree};
use tablet::tokenizer::{Token, TokenType, Tokenizer};

fn token(t: TokenType, value: &str) -> Token {
    Token { token_type: t, value: value.to_string(), line: 0, column: 0 }
}

#[test]
fn test_round_trip_instruction_shape() {
    // a well-formed instruction parses to exactly one node and no errors
    let tokens = vec![
        token(TokenType::Instruction, "store"),
        token(TokenType::Literal, "\"law\""),
        token(TokenType::Literal, "\"heart\""),
    ];
    let mut parser = Parser::new(tokens);
    let tree = parser.parse();
    assert_eq!(tree.nodes.len(), 1);
    match &tree.nodes[0] {
        ScrollNode::Instruction { name, args } => {
            assert_eq!(name, "store");
            assert_eq!(args, &vec!["\"law\"".to_string(), "\"heart\"".to_string()]);
        }
        other => panic!("expected an instruction node, got {:?}", other),
    }
}

#[test]
fn test_fault_isolation_between_statements() {
    // one malformed token between two well-formed instructions yields
    // three nodes; only the middle one is an error, and the outer two
    // parse exactly as they do in isolation
    let good_one = vec![
        token(TokenType::Instruction, "walk"),
        token(TokenType::Literal, "\"north\""),
    ];
    let good_two = vec![
        token(TokenType::Instruction, "bless"),
        token(TokenType::Literal, "\"rain\""),
    ];
    let mut embedded = good_one.clone();
    embedded.push(token(TokenType::Error, "?"));
    embedded.extend(good_two.clone());

    let mut parser = Parser::new(embedded);
    let tree = parser.parse();
    assert_eq!(tree.nodes.len(), 3);
    assert!(matches!(&tree.nodes[0], ScrollNode::Instruction { name, .. } if name == "walk"));
    assert!(matches!(&tree.nodes[1], ScrollNode::Error(m) if m == "Unrecognized token: ?"));
    assert!(matches!(&tree.nodes[2], ScrollNode::Instruction { name, .. } if name == "bless"));

    let mut one = Parser::new(good_one);
    let lone = one.parse();
    match (&tree.nodes[0], &lone.nodes[0]) {
        (
            ScrollNode::Instruction { name: a, args: aa },
            ScrollNode::Instruction { name: b, args: bb },
        ) => {
            assert_eq!(a, b);
            assert_eq!(aa, bb);
        }
        _ => panic!("expected matching instruction nodes"),
    }
}

#[test]
fn test_keyword_assignment_route() {
    // `let flame = "holy fire"` routes through the assignment branch
    // after the schema-checked keyword is consumed
    let tokens = vec![
        token(TokenType::Instruction, "let"),
        token(TokenType::Identifier, "flame"),
        token(TokenType::Operator, "="),
        token(TokenType::Literal, "holy fire"),
    ];
    let mut parser = Parser::new(tokens);
    let node = parser.parse_node().unwrap();
    match node {
        ScrollNode::Assignment { target, value } => {
            assert_eq!(target, "flame");
            assert_eq!(value, "holy fire");
        }
        other => panic!("expected an assignment, got {:?}", other),
    }
}

#[test]
fn test_keyword_call_route() {
    // `bless(42)` routes through the call parser
    let tokens = vec![
        token(TokenType::Instruction, "bless"),
        token(TokenType::GroupMarker, "("),
        token(TokenType::Literal, "42"),
        token(TokenType::GroupMarker, ")"),
    ];
    let mut parser = Parser::new(tokens);
    let node = parser.parse_node().unwrap();
    match node {
        ScrollNode::Call { function, args } => {
            assert_eq!(function, "bless");
            assert_eq!(args, vec!["42"]);
        }
        other => panic!("expected a call node, got {:?}", other),
    }
}

#[test]
fn test_unknown_instruction_becomes_error_node() {
    let tokens = vec![token(TokenType::Instruction, "conjure")];
    let mut parser = Parser::new(tokens);
    let node = parser.parse_node().unwrap();
    assert!(matches!(node, ScrollNode::Error(m) if m == "Unknown instruction 'conjure'"));
}

#[test]
fn test_ambiguous_identifier_becomes_error_node() {
    let tokens = vec![
        token(TokenType::Identifier, "drift"),
        token(TokenType::Identifier, "away"),
    ];
    let mut parser = Parser::new(tokens);
    let node = parser.parse_node().unwrap();
    assert!(matches!(node, ScrollNode::Error(m) if m == "Ambiguous identifier usage near 'drift'"));
}

#[test]
fn test_block_missing_brace_is_error_node() {
    let tokens = vec![token(TokenType::GroupMarker, ")")];
    let mut parser = Parser::new(tokens);
    let node = parser.parse_block().unwrap();
    assert!(matches!(node, ScrollNode::Error(m) if m == "Expected '{' to open block, found ')'"));
}

#[test]
fn test_argument_list_eof_is_structural_error() {
    let tokens = vec![
        token(TokenType::Punctuation, "("),
        token(TokenType::Literal, "\"grace\""),
    ];
    let mut parser = Parser::new(tokens);
    let result = parser.parse_argument_list();
    match result {
        Err(e) => {
            assert!(matches!(e.kind, ParseErrorType::UnexpectedEOF));
            assert_eq!(e.message, "Parser failed due to: UnexpectedEOF");
            assert_eq!(e.line, 0);
            assert_eq!(e.column, 0);
        }
        Ok(_) => panic!("expected a structural parse error"),
    }
}

#[test]
fn test_parse_error_render() {
    let err = tablet::parser::ParseError::new(ParseErrorType::MissingToken, "no verb found", 12, 4);
    assert_eq!(err.render(), "[Line 12, Col 4] MissingToken: no verb found");
}

#[test]
fn test_empty_input_yields_empty_results() {
    let mut parser = Parser::new(vec![]);
    let tree = parser.parse();
    assert!(tree.nodes.is_empty());
    assert_eq!(tree.to_stone(), "");
    assert!(tree.validate_with_scripture());

    let mut tokenizer = Tokenizer::new("", vec![]);
    let stream = tokenizer.tokenize();
    assert!(stream.tokens.is_empty());
    assert!(stream.line_meta.is_empty());
    assert!(stream.errors.is_empty());
}

#[test]
fn test_argument_list_collects_values() {
    let tokens = vec![
        token(TokenType::Punctuation, "("),
        token(TokenType::Identifier, "reveal"),
        token(TokenType::Punctuation, ","),
        token(TokenType::Identifier, "glory"),
        token(TokenType::Punctuation, ")"),
    ];
    let mut parser = Parser::new(tokens);
    let args = parser.parse_argument_list().unwrap();
    assert_eq!(args, vec!["reveal", "glory"]);
}

#[test]
fn test_walk_condition_and_annotation() {
    let tokens = vec![
        token(TokenType::Identifier, "faith"),
        token(TokenType::Operator, ">"),
        token(TokenType::Literal, "fear"),
        token(TokenType::GroupMarker, "{"),
    ];
    let mut parser = Parser::new(tokens);
    assert_eq!(parser.walk_condition().unwrap(), "faith > fear");

    let tokens = vec![
        token(TokenType::Operator, ":"),
        token(TokenType::Identifier, "Int"),
    ];
    let mut parser = Parser::new(tokens);
    assert_eq!(parser.walk_type_annotation().unwrap(), "Int");

    let tokens = vec![token(TokenType::Identifier, "naked")];
    let mut parser = Parser::new(tokens);
    assert!(parser.walk_type_annotation().is_none());
}

#[test]
fn test_parse_import_and_return() {
    let tokens = vec![
        token(TokenType::Instruction, "import"),
        token(TokenType::Literal, "\"modules/divine_scroll.omni\""),
    ];
    let mut parser = Parser::new(tokens);
    let node = parser.parse_import().unwrap();
    assert!(matches!(node, ScrollNode::Import(p) if p == "\"modules/divine_scroll.omni\""));

    let tokens = vec![
        token(TokenType::Instruction, "import"),
        token(TokenType::Identifier, "bare_path"),
    ];
    let mut parser = Parser::new(tokens);
    let node = parser.parse_import().unwrap();
    assert!(matches!(node, ScrollNode::Error(m) if m == "Import path must be a quoted string literal."));

    let tokens = vec![
        token(TokenType::Instruction, "return"),
        token(TokenType::Literal, "\"peace\""),
    ];
    let mut parser = Parser::new(tokens);
    let node = parser.parse_return().unwrap();
    assert!(matches!(node, ScrollNode::Return(v) if v == "\"peace\""));
}

#[test]
fn test_parse_instruction_group() {
    let tokens = vec![
        token(TokenType::GroupMarker, "["),
        token(TokenType::Instruction, "walk"),
        token(TokenType::Literal, "\"north\""),
        token(TokenType::GroupMarker, "]"),
    ];
    let mut parser = Parser::new(tokens);
    let node = parser.parse_instruction_group().unwrap();
    match node {
        ScrollNode::Block(inner) => assert_eq!(inner.len(), 1),
        other => panic!("expected a block, got {:?}", other),
    }
}

#[test]
fn test_to_stone_rendering() {
    let tree = ScrollTree {
        nodes: vec![
            ScrollNode::Instruction {
                name: "walk".to_string(),
                args: vec!["north".to_string(), "fast".to_string()],
            },
            ScrollNode::Assignment { target: "x".to_string(), value: "5".to_string() },
            ScrollNode::Literal("42".to_string()),
            ScrollNode::Declaration { name: "truth".to_string(), dtype: None },
            ScrollNode::Call {
                function: "bless".to_string(),
                args: vec!["a".to_string(), "b".to_string()],
            },
            ScrollNode::Comment("amen".to_string()),
        ],
    };
    let stone = tree.to_stone();
    assert_eq!(
        stone,
        "walk north fast\nx = 5\nliteral 42\nlet truth: Unknown\nbless(a, b)\n// amen\n"
    );
}

#[test]
fn test_to_stone_block_rendering() {
    let tree = ScrollTree {
        nodes: vec![ScrollNode::Block(vec![
            ScrollNode::Literal("7".to_string()),
            ScrollNode::Error("oops".to_string()),
        ])],
    };
    assert_eq!(tree.to_stone(), "{\n  literal 7\n  !error oops\n}\n");
}

#[test]
fn test_validate_with_scripture() {
    let good = ScrollTree {
        nodes: vec![
            ScrollNode::ScrollSentence {
                subject: "Jesus".to_string(),
                verb: "heals".to_string(),
                object: "the blind".to_string(),
            },
            ScrollNode::Instruction { name: "walk".to_string(), args: vec![] },
            ScrollNode::Return("\"peace\"".to_string()),
        ],
    };
    assert!(good.validate_with_scripture());

    let unknown_instruction = ScrollTree {
        nodes: vec![ScrollNode::Instruction { name: "conjure".to_string(), args: vec![] }],
    };
    assert!(!unknown_instruction.validate_with_scripture());

    let empty_return = ScrollTree { nodes: vec![ScrollNode::Return("None".to_string())] };
    assert!(!empty_return.validate_with_scripture());
}

#[test]
fn test_tokenize_then_parse_assignment() {
    // end to end: raw source through the tokenizer and the keyword
    // assignment route
    let keywords: Vec<(String, TokenType)> = get_instruction_registry()
        .entries()
        .iter()
        .map(|instr| (instr.keyword.clone(), TokenType::Instruction))
        .collect();
    let mut tokenizer = Tokenizer::new("let flame = \"holy fire\"", keywords);
    let stream = tokenizer.tokenize();
    let mut parser = Parser::new(stream.tokens);
    let tree = parser.parse();
    assert_eq!(tree.nodes.len(), 1);
    assert!(matches!(
        &tree.nodes[0],
        ScrollNode::Assignment { target, value } if target == "flame" && value == "holy fire"
    ));
}

#[test]
fn test_decode_instruction() {
    let parser = Parser::new(vec![]);
    let known = token(TokenType::Instruction, "recall");
    assert_eq!(parser.decode_instruction(&known), Some("recall".to_string()));
    let unknown = token(TokenType::Instruction, "unwritten");
    assert_eq!(parser.decode_instruction(&unknown), None);
}

#[test]
fn test_scroll_parser_stub() {
    let legacy = ScrollParser::new(vec![token(TokenType::Literal, "1")]);
    assert!(legacy.parse().is_empty());
}
