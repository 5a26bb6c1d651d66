use pyo3_testing::directive::{parse_directive, ImportDirective};
use pyo3_testing::extract::{extract, Annotation, TestDecl};
use pyo3_testing::tokens::{Diag, DiagKind, Token};

fn ident(name: &str) -> Token {
    Token::Ident(name.to_string())
}

#[test]
fn parse_from_import_directive() {
    let toks = vec![
        ident("py_adders"),
        Token::Colon,
        ident("from"),
        ident("adders"),
        ident("import"),
        ident("addone"),
    ];
    let parsed = parse_directive(&toks).unwrap();
    assert_eq!(
        parsed,
        ImportDirective {
            binding: "py_adders".to_string(),
            module: "adders".to_string(),
            function: Some("addone".to_string()),
        }
    );
}

#[test]
fn parse_bare_module_directive() {
    let toks = vec![ident("py_adders"), Token::Colon, ident("import"), ident("adders")];
    let parsed = parse_directive(&toks).unwrap();
    assert_eq!(
        parsed,
        ImportDirective {
            binding: "py_adders".to_string(),
            module: "adders".to_string(),
            function: None,
        }
    );
}

#[test]
fn missing_colon_is_diagnosed() {
    let toks = vec![ident("py_adders"), ident("import"), ident("adders")];
    let err = parse_directive(&toks).unwrap_err();
    assert_eq!(err, Diag { kind: DiagKind::ExpectedColon, at: 0 });
    let msg = err.message();
    assert!(msg.contains("expected a colon"));
}

#[test]
fn wrong_keyword_is_diagnosed() {
    let toks = vec![ident("py_adders"), Token::Colon, ident("frm"), ident("adders")];
    let err = parse_directive(&toks).unwrap_err();
    assert_eq!(err, Diag { kind: DiagKind::ExpectedKeyword, at: 2 });
    assert!(err.message().contains("expected 'from' or 'import' here"));
}

#[test]
fn second_keyword_must_be_import() {
    let toks = vec![
        ident("py_adders"),
        Token::Colon,
        ident("from"),
        ident("adders"),
        ident("from"),
        ident("addone"),
    ];
    let err = parse_directive(&toks).unwrap_err();
    assert_eq!(err, Diag { kind: DiagKind::ExpectedKeyword, at: 4 });
}

#[test]
fn missing_identifier_after_keyword_is_diagnosed() {
    let toks = vec![ident("py_adders"), Token::Colon, ident("import")];
    let err = parse_directive(&toks).unwrap_err();
    assert_eq!(err, Diag { kind: DiagKind::ExpectedIdent, at: 3 });
    assert_eq!(err.message(), "expected identifier");
}

#[test]
fn non_identifier_binding_is_diagnosed() {
    let toks = vec![Token::Other("1".to_string()), Token::Colon, ident("import"), ident("m")];
    let err = parse_directive(&toks).unwrap_err();
    assert_eq!(err, Diag { kind: DiagKind::ExpectedIdent, at: 0 });
}

#[test]
fn trailing_tokens_are_diagnosed() {
    let toks = vec![
        ident("py_adders"),
        Token::Colon,
        ident("import"),
        ident("adders"),
        ident("extra"),
    ];
    let err = parse_directive(&toks).unwrap_err();
    assert_eq!(err, Diag { kind: DiagKind::UnexpectedToken, at: 4 });
    assert_eq!(err.message(), "unexpected token");
}

#[test]
fn empty_payload_reports_missing_colon() {
    let toks: Vec<Token> = vec![];
    let err = parse_directive(&toks).unwrap_err();
    assert_eq!(err, Diag { kind: DiagKind::ExpectedColon, at: 0 });
}

#[test]
fn extract_splits_directives_and_passthrough() {
    let decl = TestDecl {
        annotations: vec![
            Annotation {
                tag: "pyo3import".to_string(),
                payload: vec![ident("py_m"), Token::Colon, ident("import"), ident("m")],
            },
            Annotation { tag: "allow".to_string(), payload: vec![ident("unused_macros")] },
        ],
        signature: "fn test_split()".to_string(),
        body: vec!["assert!(true)".to_string()],
    };
    let case = extract(decl).unwrap();
    assert_eq!(case.directives.len(), 1);
    assert_eq!(case.directives[0].module, "m");
    assert_eq!(case.passthrough.len(), 1);
    assert_eq!(case.passthrough[0].tag, "allow");
    assert_eq!(case.signature, "fn test_split()");
    assert_eq!(case.body, vec!["assert!(true)".to_string()]);
}

#[test]
fn extract_propagates_first_directive_error() {
    let decl = TestDecl {
        annotations: vec![
            Annotation { tag: "allow".to_string(), payload: vec![ident("dead_code")] },
            Annotation {
                tag: "pyo3import".to_string(),
                payload: vec![ident("py_m"), ident("import"), ident("m")],
            },
            Annotation {
                tag: "pyo3import".to_string(),
                payload: vec![ident("py_n"), Token::Colon, ident("frm"), ident("n")],
            },
        ],
        signature: "fn test_bad()".to_string(),
        body: vec![],
    };
    let err = extract(decl).unwrap_err();
    assert_eq!(err, Diag { kind: DiagKind::ExpectedColon, at: 0 });
}

#[test]
fn keyword_named_module_is_accepted() {
    let toks = vec![
        ident("py_m"),
        Token::Colon,
        ident("from"),
        ident("from"),
        ident("import"),
        ident("f"),
    ];
    let parsed = parse_directive(&toks).unwrap();
    assert_eq!(parsed.module, "from");
    assert_eq!(parsed.function, Some("f".to_string()));
}
