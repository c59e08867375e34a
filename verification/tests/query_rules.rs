use margin::query::{contains_alphanumeric, operator_keyword, rendered_term, sanitize_fts_query, strip_structural};

fn chars(s: &str) -> Vec<char> {
    s.chars().collect()
}

#[test]
fn operator_at_the_end_is_dropped() {
    for query in ["hello", "hello world", "", "c++ guide", "a-b_c"] {
        for keyword in ["OR", "or", "Or", "AND", "and", "aNd", "NOT", "not", "NEAR", "near", "nEaR"] {
            for sep in [" ", "\t", "\n", "\u{a0}", "\u{3000}"] {
                assert_eq!(
                    sanitize_fts_query(&format!("{query}{sep}{keyword}")),
                    sanitize_fts_query(query),
                    "{query:?} {sep:?} {keyword:?}"
                );
            }
        }
    }
}

#[test]
fn operators_are_dropped_anywhere() {
    assert_eq!(sanitize_fts_query("OR AND NOT"), "");
    assert_eq!(sanitize_fts_query("NOT hello"), "\"hello\"*");
    assert_eq!(sanitize_fts_query("cats AND dogs"), "\"cats\"* \"dogs\"*");
    assert_eq!(sanitize_fts_query("near NEAR nearby"), "\"nearby\"*");
    // Only whole words are operators.
    assert_eq!(sanitize_fts_query("ORE android notable"), "\"ORE\"* \"android\"* \"notable\"*");
    // A word that becomes an operator only by losing symbols is a term, and quoted.
    assert_eq!(sanitize_fts_query("O+R"), "\"OR\"*");
    assert_eq!(sanitize_fts_query("AND!"), "\"AND\"*");
    // An operator inside quotes or a group is still an operator.
    assert_eq!(sanitize_fts_query("(OR)"), "");
    assert_eq!(sanitize_fts_query("\"and\""), "");
}

#[test]
fn blank_queries_have_the_empty_expression() {
    for query in ["", " ", "   ", "\t", "\n\r\n", "\u{a0}", " \u{2003}\u{3000} "] {
        assert_eq!(sanitize_fts_query(query), "", "{query:?}");
    }
}

#[test]
fn symbols_only_have_the_empty_expression() {
    for query in ["+++", "---", "___", "\"\"", "()", "{}", ":", "^", "' ' '", "-_- +", "* ? !", "\"(':^)\""] {
        assert_eq!(sanitize_fts_query(query), "", "{query:?}");
    }
}

#[test]
fn structural_characters_never_reach_the_expression() {
    assert_eq!(sanitize_fts_query("title:rust"), "\"titlerust\"*");
    assert_eq!(sanitize_fts_query("a\"b'c(d)e{f}g:h^i"), "\"abcdefghi\"*");
    assert_eq!(sanitize_fts_query("(hello) {world}"), "\"hello\"* \"world\"*");
    assert_eq!(sanitize_fts_query("^start"), "\"start\"*");
    assert_eq!(sanitize_fts_query("it's"), "\"its\"*");
    assert_eq!(sanitize_fts_query("\" OR 1=1 --"), "\"11\"*");
    assert_eq!(sanitize_fts_query("a* b?"), "\"a\"* \"b\"*");
    for query in ["x\" OR \"y", "NEAR(a b, 5)", "col : val", "{a b} : c", "^a + \"b\" - c*"] {
        let expr = sanitize_fts_query(query);
        for term in expr.split(' ') {
            assert!(term.starts_with('"') && term.ends_with("\"*"), "{term:?} of {query:?}");
            let inner = &term[1..term.len() - 2];
            assert!(!inner.is_empty());
            assert!(inner.chars().all(|c| c.is_alphanumeric() || c == '-' || c == '_'), "{term:?}");
        }
    }
}

#[test]
fn terms_keep_letters_digits_hyphens_and_underscores() {
    assert_eq!(sanitize_fts_query("hello-world"), "\"hello-world\"*");
    assert_eq!(sanitize_fts_query("snake_case"), "\"snake_case\"*");
    assert_eq!(sanitize_fts_query("c++"), "\"c\"*");
    assert_eq!(sanitize_fts_query("rust2024!"), "\"rust2024\"*");
    assert_eq!(sanitize_fts_query("-x-"), "\"-x-\"*");
    assert_eq!(sanitize_fts_query("a.b,c;d"), "\"abcd\"*");
    assert_eq!(sanitize_fts_query("café"), "\"café\"*");
    assert_eq!(sanitize_fts_query("日本語 テスト"), "\"日本語\"* \"テスト\"*");
    assert_eq!(sanitize_fts_query("٣ ¾"), "\"٣\"* \"¾\"*");
    assert_eq!(sanitize_fts_query("naïve—dash"), "\"naïvedash\"*");
}

#[test]
fn white_space_separates_terms() {
    assert_eq!(sanitize_fts_query("  hello   world  "), "\"hello\"* \"world\"*");
    assert_eq!(sanitize_fts_query("a\tb\nc\r\nd"), "\"a\"* \"b\"* \"c\"* \"d\"*");
    assert_eq!(sanitize_fts_query("a\u{a0}b\u{2028}c"), "\"a\"* \"b\"* \"c\"*");
    // Removing a structural character does not split a word, nor join two.
    assert_eq!(sanitize_fts_query("a:b c\"d"), "\"ab\"* \"cd\"*");
    assert_eq!(sanitize_fts_query("a ( b"), "\"a\"* \"b\"*");
    // A zero-width space is no white space.
    assert_eq!(sanitize_fts_query("a\u{200b}b"), "\"ab\"*");
}

#[test]
fn parts_of_the_sanitizer() {
    assert!(operator_keyword(&chars("or")));
    assert!(operator_keyword(&chars("NeAr")));
    assert!(!operator_keyword(&chars("nor")));
    assert!(!operator_keyword(&chars("")));
    assert!(!operator_keyword(&chars("ΟR"))); // a Greek omicron
    assert!(contains_alphanumeric(&chars("--a--")));
    assert!(contains_alphanumeric(&chars("é")));
    assert!(!contains_alphanumeric(&chars("-_+")));
    assert!(!contains_alphanumeric(&chars("")));
    assert_eq!(strip_structural(&chars("a\"'(){}:^b")), chars("ab"));
    assert_eq!(rendered_term(&chars("c++")), chars("\"c\"*"));
    assert_eq!(rendered_term(&chars("a-b_c")), chars("\"a-b_c\"*"));
}
