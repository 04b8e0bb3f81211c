use oxiderr_codegen::emit::{define_errors, define_kinds};
use oxiderr_codegen::token::{Expected, GrammarError, Token};

fn kind_entry_tokens(name: &str, message: &str, code: u16, description: &str) -> Vec<Token> {
    vec![
        Token::Ident(name.to_string()),
        Token::Eq,
        Token::LParen,
        Token::StrLit(message.to_string()),
        Token::Comma,
        Token::IntLit(code),
        Token::Comma,
        Token::StrLit(description.to_string()),
        Token::RParen,
    ]
}

fn kind_const_text(name: &str, message: &str, code: u16, description: &str) -> String {
    format!(
        "#[allow(non_upper_case_globals)]\npub const {}: oxiderr::ErrorKind = oxiderr::ErrorKind(\"{}\", \"{}\", {}, \"{}\");\n",
        name, name, message, code, description
    )
}

#[test]
fn kind_single_constant() {
    let tokens = kind_entry_tokens("IoError", "Err-00001", 400, "IO error");
    let out = define_kinds(&tokens).unwrap();
    assert_eq!(out, kind_const_text("IoError", "Err-00001", 400, "IO error"));
}

#[test]
fn kind_two_entries_trailing_comma() {
    let mut tokens = kind_entry_tokens("UnknownError", "Err-00001", 500, "Unexpected error");
    tokens.push(Token::Comma);
    tokens.extend(kind_entry_tokens("IoError", "Err-00001", 400, "IO error"));
    tokens.push(Token::Comma);
    let out = define_kinds(&tokens).unwrap();
    let expected = format!(
        "{}{}",
        kind_const_text("UnknownError", "Err-00001", 500, "Unexpected error"),
        kind_const_text("IoError", "Err-00001", 400, "IO error")
    );
    assert_eq!(out, expected);
}

#[test]
fn kind_empty_input_is_rejected() {
    let tokens: Vec<Token> = vec![];
    let err = define_kinds(&tokens).unwrap_err();
    assert_eq!(err, GrammarError { pos: 0, expected: Expected::EntryName });
}

#[test]
fn kind_missing_description_fails_whole_batch() {
    let tokens = vec![
        Token::Ident("IoError".to_string()),
        Token::Eq,
        Token::LParen,
        Token::StrLit("Err-00001".to_string()),
        Token::Comma,
        Token::IntLit(400),
        Token::Comma,
        Token::RParen,
    ];
    let err = define_kinds(&tokens).unwrap_err();
    assert_eq!(err, GrammarError { pos: 7, expected: Expected::DescriptionLit });
}

#[test]
fn kind_wrong_message_literal_kind() {
    let tokens = vec![
        Token::Ident("IoError".to_string()),
        Token::Eq,
        Token::LParen,
        Token::IntLit(1),
        Token::Comma,
        Token::IntLit(400),
        Token::Comma,
        Token::StrLit("IO error".to_string()),
        Token::RParen,
    ];
    let err = define_kinds(&tokens).unwrap_err();
    assert_eq!(err, GrammarError { pos: 3, expected: Expected::MessageLit });
}

#[test]
fn kind_missing_equals_sign() {
    let tokens = vec![Token::Ident("IoError".to_string()), Token::Comma];
    let err = define_kinds(&tokens).unwrap_err();
    assert_eq!(err, GrammarError { pos: 1, expected: Expected::EqSign });
}

#[test]
fn kind_missing_separator_between_entries() {
    let mut tokens = kind_entry_tokens("UnknownError", "Err-00001", 500, "Unexpected error");
    tokens.extend(kind_entry_tokens("IoError", "Err-00001", 400, "IO error"));
    let err = define_kinds(&tokens).unwrap_err();
    assert_eq!(err, GrammarError { pos: 9, expected: Expected::EntrySeparator });
}

#[test]
fn kind_truncated_input_reports_end_position() {
    let tokens = vec![Token::Ident("IoError".to_string())];
    let err = define_kinds(&tokens).unwrap_err();
    assert_eq!(err, GrammarError { pos: 1, expected: Expected::EqSign });
}

#[test]
fn error_single_type_exact_text() {
    let tokens = vec![
        Token::Ident("FileNotExists".to_string()),
        Token::Eq,
        Token::Ident("IoError".to_string()),
    ];
    let out = define_errors(&tokens).unwrap();
    let expected = "#[derive(Debug, Clone)]\npub struct FileNotExists {\n    class: String,\n    message: String,\n    details: Option<std::collections::BTreeMap<String, serde_value::Value>>,\n}\n\nimpl FileNotExists {\n    #[allow(non_upper_case_globals)]\n    pub const kind: oxiderr::ErrorKind = IoError;\n    pub fn new() -> Self {\n        Self {\n            class: format!(\"{}::{}::{}\", Self::kind.side(), Self::kind.name(), \"FileNotExists\"),\n            message: Self::kind.description().into(),\n            details: None,\n        }\n    }\n    pub fn set_message(mut self, message: String) -> Self {\n        self.message = message;\n        self\n    }\n    pub fn set_details(mut self, details: std::collections::BTreeMap<String, serde_value::Value>) -> Self {\n        self.details = Some(details);\n        self\n    }\n    pub fn convert(error: oxiderr::Error) -> Self {\n        let mut err_clone = error.clone();\n        let mut details = error.details.unwrap_or_default();\n        err_clone.details = None;\n        details.insert(\"origin\".to_string(), serde_value::to_value(err_clone).unwrap());\n        Self {\n            class: format!(\"{}::{}::{}\", Self::kind.side(), Self::kind.name(), \"FileNotExists\"),\n            message: Self::kind.description().into(),\n            details: Some(details),\n        }\n    }\n}\n\nimpl oxiderr::AsError for FileNotExists {\n    fn kind() -> oxiderr::ErrorKind {\n        Self::kind\n    }\n    fn class(&self) -> String {\n        self.class.clone()\n    }\n    fn message(&self) -> String {\n        self.message.clone()\n    }\n    fn details(&self) -> Option<std::collections::BTreeMap<String, serde_value::Value>> {\n        self.details.clone()\n    }\n}\n\nimpl std::error::Error for FileNotExists {}\n\nimpl std::fmt::Display for FileNotExists {\n    fn fmt(&self, f: &mut std::fmt::Formatter) -> std::fmt::Result {\n        write!(f, \"[{}] {} ({}): {}\", Self::kind.message_id(), \"FileNotExists\", Self::kind.code(), self.message())\n    }\n}\n";
    assert_eq!(out, expected);
}

#[test]
fn error_qualified_path_reference() {
    let tokens = vec![
        Token::Ident("NotFoundError".to_string()),
        Token::Eq,
        Token::Ident("crate".to_string()),
        Token::PathSep,
        Token::Ident("kinds".to_string()),
        Token::PathSep,
        Token::Ident("IoError".to_string()),
    ];
    let out = define_errors(&tokens).unwrap();
    assert!(out.contains("pub const kind: oxiderr::ErrorKind = crate::kinds::IoError;"));
    assert!(out.contains("pub struct NotFoundError {"));
}

#[test]
fn error_commas_between_entries_are_optional() {
    let with_comma = vec![
        Token::Ident("FileRead".to_string()),
        Token::Eq,
        Token::Ident("IoError".to_string()),
        Token::Comma,
        Token::Ident("FileNotExists".to_string()),
        Token::Eq,
        Token::Ident("IoError".to_string()),
    ];
    let without_comma = vec![
        Token::Ident("FileRead".to_string()),
        Token::Eq,
        Token::Ident("IoError".to_string()),
        Token::Ident("FileNotExists".to_string()),
        Token::Eq,
        Token::Ident("IoError".to_string()),
    ];
    let a = define_errors(&with_comma).unwrap();
    let b = define_errors(&without_comma).unwrap();
    assert_eq!(a, b);
    assert!(a.contains("pub struct FileRead {"));
    assert!(a.contains("pub struct FileNotExists {"));
    let first = a.find("pub struct FileRead {").unwrap();
    let second = a.find("pub struct FileNotExists {").unwrap();
    assert!(first < second);
}

#[test]
fn error_empty_input_is_empty_output() {
    let tokens: Vec<Token> = vec![];
    assert_eq!(define_errors(&tokens).unwrap(), String::new());
}

#[test]
fn error_missing_kind_reference_fails() {
    let tokens = vec![Token::Ident("FileRead".to_string()), Token::Eq];
    let err = define_errors(&tokens).unwrap_err();
    assert_eq!(err, GrammarError { pos: 2, expected: Expected::PathSegment });
}

#[test]
fn error_dangling_path_separator_fails() {
    let tokens = vec![
        Token::Ident("FileRead".to_string()),
        Token::Eq,
        Token::Ident("kinds".to_string()),
        Token::PathSep,
    ];
    let err = define_errors(&tokens).unwrap_err();
    assert_eq!(err, GrammarError { pos: 4, expected: Expected::PathSegment });
}

use oxiderr_codegen::emit::{define_errors_source, define_kinds_source, CompileError};
use oxiderr_codegen::lexer::{LexError, LexErrorKind};

#[test]
fn source_kinds_two_constants() {
    let src = "UnknownError = (\"Err-00001\", 500, \"Unexpected error\"),\nIoError = (\"Err-00001\", 400, \"IO error\")";
    let out = define_kinds_source(src).unwrap();
    let expected = format!(
        "{}{}",
        kind_const_text("UnknownError", "Err-00001", 500, "Unexpected error"),
        kind_const_text("IoError", "Err-00001", 400, "IO error")
    );
    assert_eq!(out, expected);
}

#[test]
fn source_kind_missing_description() {
    let err = define_kinds_source("IoError = (\"Err-00001\", 400,)").unwrap_err();
    assert_eq!(
        err,
        CompileError::Grammar(GrammarError { pos: 7, expected: Expected::DescriptionLit })
    );
}

#[test]
fn source_errors_three_types() {
    let src = "Unexpected = UnknownError, FileRead = IoError FileNotExists = IoError";
    let out = define_errors_source(src).unwrap();
    assert!(out.contains("pub struct Unexpected {"));
    assert!(out.contains("pub struct FileRead {"));
    assert!(out.contains("pub struct FileNotExists {"));
    assert!(out.contains("pub const kind: oxiderr::ErrorKind = UnknownError;"));
}

#[test]
fn source_error_qualified_path() {
    let out = define_errors_source("NotFound = crate::kinds::IoError").unwrap();
    assert!(out.contains("pub const kind: oxiderr::ErrorKind = crate::kinds::IoError;"));
}

#[test]
fn source_empty_and_blank_inputs() {
    let expected = CompileError::Grammar(GrammarError { pos: 0, expected: Expected::EntryName });
    assert_eq!(define_kinds_source("").unwrap_err(), expected);
    assert_eq!(define_kinds_source("  \n\t ").unwrap_err(), expected);
    assert_eq!(define_errors_source("").unwrap(), String::new());
}

#[test]
fn source_unterminated_string() {
    let err = define_kinds_source("A = (\"oops").unwrap_err();
    assert_eq!(
        err,
        CompileError::Lex(LexError { pos: 5, kind: LexErrorKind::UnterminatedString })
    );
}

#[test]
fn source_code_out_of_range() {
    let err = define_kinds_source("A = (\"m\", 70000, \"d\")").unwrap_err();
    assert_eq!(err, CompileError::Lex(LexError { pos: 10, kind: LexErrorKind::CodeOutOfRange }));
    let ok = define_kinds_source("A = (\"m\", 65535, \"d\")").unwrap();
    assert!(ok.contains("oxiderr::ErrorKind(\"A\", \"m\", 65535, \"d\");"));
}

#[test]
fn source_unexpected_character() {
    let err = define_kinds_source("A # B").unwrap_err();
    assert_eq!(err, CompileError::Lex(LexError { pos: 2, kind: LexErrorKind::UnexpectedChar }));
}

#[test]
fn source_lone_colon() {
    let err = define_errors_source("A = x:y").unwrap_err();
    assert_eq!(err, CompileError::Lex(LexError { pos: 5, kind: LexErrorKind::LonePathColon }));
}
