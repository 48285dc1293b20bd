use github_backup::filter::globex::{GlobexScanner, GlobexToken};

fn pieces(pattern: &str) -> Vec<GlobexToken> {
    let mut scanner = GlobexScanner::new(pattern);
    let mut out = Vec::new();
    while let Some(token) = scanner.next_token() {
        out.push(token);
    }
    out
}

#[test]
fn globex_test_empty() {
    assert_eq!(pieces(""), vec![]);
}

#[test]
fn globex_literals_and_wildcards() {
    assert_eq!(
        pieces("ab*c?"),
        vec![
            GlobexToken::Literal("ab".to_string()),
            GlobexToken::WildcardMany,
            GlobexToken::Literal("c".to_string()),
            GlobexToken::WildcardOne,
        ]
    );
    assert!(GlobexScanner::is_reserved_char('*'));
    assert!(GlobexScanner::is_reserved_char('?'));
    assert!(!GlobexScanner::is_reserved_char('a'));
}
