use github_backup::filter::{FilterErrorKind, Loc, Scanner, Token};

fn scan(filter: &str) -> Vec<Token> {
    let mut scanner = Scanner::new(filter);
    let mut tokens = Vec::new();
    while let Some(item) = scanner.next_token() {
        match item {
            Ok(token) => tokens.push(token),
            Err(e) => panic!("Error: {}", e.to_string()),
        }
    }
    assert!(scanner.next_token().is_none(), "expected end of sequence, but got an item");
    tokens
}

#[test]
fn lexer_test_empty() {
    assert!(scan("").is_empty());
}

#[test]
fn test_whitespace() {
    assert!(scan("  \t\n").is_empty());
}

#[test]
fn test_parens() {
    let tokens = scan("() []");
    assert!(matches!(
        tokens.as_slice(),
        [Token::LeftParen(..), Token::RightParen(..), Token::LeftBracket(..), Token::RightBracket(..)]
    ));
}

#[test]
fn test_logical_operators() {
    let tokens = scan("&& ||");
    assert!(matches!(tokens.as_slice(), [Token::And(..), Token::Or(..)]));
}

#[test]
fn test_comparison_operators() {
    let tokens = scan("== != contains in startswith endswith > >= < <=");
    assert!(matches!(
        tokens.as_slice(),
        [
            Token::Equals(..),
            Token::NotEquals(..),
            Token::Contains(..),
            Token::In(..),
            Token::StartsWith(..),
            Token::EndsWith(..),
            Token::GreaterThan(..),
            Token::GreaterEqual(..),
            Token::SmallerThan(..),
            Token::SmallerEqual(..),
        ]
    ));
}

#[test]
fn test_string() {
    let tokens = scan("\"hello world\"");
    assert!(matches!(tokens.as_slice(), [Token::String(_, s)] if s == "hello world"));

    let tokens = scan("\"hello \\\"world\\\"\"");
    assert!(matches!(tokens.as_slice(), [Token::String(_, s)] if s == "hello \\\"world\\\""));
}

#[test]
fn test_number() {
    let tokens = scan("123.456");
    assert!(matches!(tokens.as_slice(), [Token::Number(_, s)] if s == "123.456"));
}

#[test]
fn test_identifiers() {
    let tokens = scan("true false null foo.bar-baz");
    assert!(matches!(
        tokens.as_slice(),
        [Token::True(..), Token::False(..), Token::Null(..), Token::Property(_, s)] if s == "foo.bar-baz"
    ));
}

#[test]
fn test_mixed() {
    let tokens = scan("foo == \"bar\" && baz != 123");
    assert!(matches!(
        tokens.as_slice(),
        [
            Token::Property(_, foo),
            Token::Equals(..),
            Token::String(_, bar),
            Token::And(..),
            Token::Property(_, baz),
            Token::NotEquals(..),
            Token::Number(_, n),
        ] if foo == "foo" && bar == "bar" && baz == "baz" && n == "123"
    ));
}

#[test]
fn test_negation() {
    let tokens = scan("repo.public && !release.prerelease && !artifact.source-code");
    assert!(matches!(
        tokens.as_slice(),
        [
            Token::Property(_, a),
            Token::And(..),
            Token::Not(..),
            Token::Property(_, b),
            Token::And(..),
            Token::Not(..),
            Token::Property(_, c),
        ] if a == "repo.public" && b == "release.prerelease" && c == "artifact.source-code"
    ));
}

#[test]
fn test_location() {
    let tokens = scan("true !=\nfalse");
    assert_eq!(
        tokens,
        vec![
            Token::True(Loc { line: 1, column: 1 }),
            Token::NotEquals(Loc { line: 1, column: 6 }),
            Token::False(Loc { line: 2, column: 1 }),
        ]
    );
}

#[test]
fn test_location_display() {
    assert_eq!(Loc::new(0, 0).to_string(), "unknown location");
    assert_eq!(Loc::new(1, 2).to_string(), "line 1, column 2");
    assert_eq!(Loc::new(120, 4096).to_string(), "line 120, column 4096");
}

#[test]
fn test_columns_count_from_one_for_every_operator() {
    let tokens = scan("a > b\n< c");
    assert_eq!(tokens[1], Token::GreaterThan(Loc { line: 1, column: 3 }));
    assert_eq!(tokens[3], Token::SmallerThan(Loc { line: 2, column: 1 }));
}

#[test]
fn test_word_before_line_break() {
    let tokens = scan("foo\nbar");
    assert_eq!(
        tokens,
        vec![
            Token::Property(Loc { line: 1, column: 1 }, "foo".to_string()),
            Token::Property(Loc { line: 2, column: 1 }, "bar".to_string()),
        ]
    );
}

#[test]
fn test_string_ending_in_escaped_backslash() {
    let tokens = scan("\"a\\\\\" x");
    assert_eq!(
        tokens,
        vec![
            Token::String(Loc { line: 1, column: 1 }, "a\\\\".to_string()),
            Token::Property(Loc { line: 1, column: 7 }, "x".to_string()),
        ]
    );
}

#[test]
fn test_number_followed_by_dot() {
    let tokens = scan("1.x");
    assert_eq!(
        tokens,
        vec![
            Token::Number(Loc { line: 1, column: 1 }, "1".to_string()),
            Token::Property(Loc { line: 1, column: 2 }, ".x".to_string()),
        ]
    );
}

#[test]
fn test_unterminated_string() {
    let mut scanner = Scanner::new("a == \"bc");
    assert!(scanner.next_token().unwrap().is_ok());
    assert!(scanner.next_token().unwrap().is_ok());
    let e = scanner.next_token().unwrap().unwrap_err();
    assert_eq!(e.kind, FilterErrorKind::UnterminatedString);
    assert_eq!(e.loc, Loc::new(1, 6));
    assert_eq!(
        e.to_string(),
        "Reached the end of the filter without finding the closing quote for a string starting at line 1, column 6."
    );
    assert!(scanner.next_token().is_none());
}

#[test]
fn test_orphaned_operators() {
    for (text, kind, message) in [
        ("a & b", FilterErrorKind::OrphanedAnd, "Filter included an orphaned '&' at line 1, column 3 which is not a valid operator."),
        ("a | b", FilterErrorKind::OrphanedOr, "Filter included an orphaned '|' at line 1, column 3 which is not a valid operator."),
        ("a = b", FilterErrorKind::OrphanedEquals, "Filter included an orphaned '=' at line 1, column 3 which is not a valid operator."),
    ] {
        let mut scanner = Scanner::new(text);
        assert!(scanner.next_token().unwrap().is_ok());
        let e = scanner.next_token().unwrap().unwrap_err();
        assert_eq!(e.kind, kind);
        assert_eq!(e.to_string(), message);
        assert!(e.to_error().is_user());
        assert_eq!(scanner.next_token(), Some(Ok(Token::Property(Loc::new(1, 5), "b".to_string()))));
    }
}

#[test]
fn test_tokens_collects_everything() {
    let mut scanner = Scanner::new("a & !b");
    let items = scanner.tokens();
    assert_eq!(items.len(), 4);
    assert!(items[1].is_err());
    assert_eq!(items[3], Ok(Token::Property(Loc::new(1, 6), "b".to_string())));
}

#[test]
fn test_lexeme_round_trip() {
    for text in [
        "(", ")", "[", "]", ",", "null", "true", "false", "==", "!=", "contains", "in", "startswith",
        "endswith", ">", ">=", "<", "<=", "!", "&&", "||", "repo.name", "12", "12.5",
    ] {
        let tokens = scan(text);
        assert_eq!(tokens.len(), 1, "{}", text);
        assert_eq!(tokens[0].lexeme(), text);
        assert_eq!(tokens[0].location(), Loc::new(1, 1));
        let again = scan(&tokens[0].to_string());
        assert_eq!(again, tokens);
    }
    let tokens = scan("\"say \\\"hi\\\"\"");
    assert_eq!(tokens[0].lexeme(), "say \\\"hi\\\"");
    assert_eq!(scan(&tokens[0].to_string()), tokens);
}
