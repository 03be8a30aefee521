use valley::token::{LexError, Op, Paren, Token, TokenIter, TokenKind};

fn scanner(text: &str) -> TokenIter {
    TokenIter::new(text.chars().collect())
}

fn token(position: usize, details: TokenKind) -> Option<Result<Token, LexError>> {
    Some(Ok(Token { position, details }))
}

fn op(position: usize, op: Op) -> Option<Result<Token, LexError>> {
    token(position, TokenKind::Op(op))
}

fn unexpected(position: usize, c: char) -> Option<Result<Token, LexError>> {
    Some(Err(LexError {
        position: Some(position),
        message: format!("Unexpected character '{}'", c),
    }))
}

fn end_of_text() -> Option<Result<Token, LexError>> {
    Some(Err(LexError {
        position: None,
        message: "Unexpected end of text while tokenizing.".to_string(),
    }))
}

#[test]
fn maximal_munch_takes_less_eq_whole() {
    let mut tokens = scanner("<=");
    assert_eq!(tokens.next(), op(0, Op::LessEq));
    assert_eq!(tokens.next(), None);
}

#[test]
fn every_two_character_operator_is_one_token() {
    let cases = [
        ("<=", Op::LessEq),
        (">=", Op::GreaterEq),
        ("==", Op::Equals),
        ("!=", Op::NotEquals),
        ("&&", Op::And),
        ("||", Op::Or),
        (":=", Op::Assign),
    ];
    for (text, expected) in cases {
        let mut tokens = scanner(text);
        assert_eq!(tokens.next(), op(0, expected));
        assert_eq!(tokens.next(), None);
    }
}

#[test]
fn every_single_character_token_is_recognised() {
    let mut tokens = scanner("()+-*/");
    assert_eq!(tokens.next(), token(0, TokenKind::Paren(Paren::Left)));
    assert_eq!(tokens.next(), token(1, TokenKind::Paren(Paren::Right)));
    assert_eq!(tokens.next(), op(2, Op::Plus));
    assert_eq!(tokens.next(), op(3, Op::Minus));
    assert_eq!(tokens.next(), op(4, Op::Times));
    assert_eq!(tokens.next(), op(5, Op::DivBy));
    assert_eq!(tokens.next(), None);
}

#[test]
fn blanks_are_skipped_and_positions_point_at_tokens() {
    let mut tokens = scanner("  +   -");
    assert_eq!(tokens.next(), op(2, Op::Plus));
    assert_eq!(tokens.next(), op(6, Op::Minus));
    assert_eq!(tokens.next(), None);
}

#[test]
fn newline_is_a_blank() {
    let mut tokens = scanner("+\n\n -\n");
    assert_eq!(tokens.next(), op(0, Op::Plus));
    assert_eq!(tokens.next(), op(4, Op::Minus));
    assert_eq!(tokens.next(), None);
    assert_eq!(tokens.next(), None);
}

#[test]
fn tab_is_no_blank() {
    let mut tokens = scanner("+\t-");
    assert_eq!(tokens.next(), op(0, Op::Plus));
    assert_eq!(tokens.next(), unexpected(1, '\t'));
}

#[test]
fn prefix_falls_back_and_leaves_the_next_character() {
    let mut tokens = scanner("<7");
    assert_eq!(tokens.next(), op(0, Op::Less));
    assert_eq!(tokens.next(), unexpected(1, '7'));
}

#[test]
fn prefix_falls_back_before_another_token() {
    let mut tokens = scanner("<(>)!+");
    assert_eq!(tokens.next(), op(0, Op::Less));
    assert_eq!(tokens.next(), token(1, TokenKind::Paren(Paren::Left)));
    assert_eq!(tokens.next(), op(2, Op::Greater));
    assert_eq!(tokens.next(), token(3, TokenKind::Paren(Paren::Right)));
    assert_eq!(tokens.next(), op(4, Op::Not));
    assert_eq!(tokens.next(), op(5, Op::Plus));
    assert_eq!(tokens.next(), None);
}

#[test]
fn prefix_falls_back_before_a_blank() {
    let mut tokens = scanner("< =");
    assert_eq!(tokens.next(), op(0, Op::Less));
    assert_eq!(tokens.next(), end_of_text());
    assert_eq!(tokens.next(), None);
}

#[test]
fn three_equal_signs_are_an_operator_and_a_bare_prefix() {
    let mut tokens = scanner("===");
    assert_eq!(tokens.next(), op(0, Op::Equals));
    assert_eq!(tokens.next(), end_of_text());
}

#[test]
fn bare_equal_sign_is_an_error() {
    let mut tokens = scanner("=");
    assert_eq!(tokens.next(), end_of_text());
    assert_eq!(tokens.next(), None);
}

#[test]
fn every_prefix_at_the_end_of_input_is_an_error() {
    for text in ["<", ">", "=", "!", "&", "|", ":", "  <", "+ &"] {
        let items = scanner(text).to_vec();
        let last = items.last().map(|item| match item {
            Ok(_) => None,
            Err(error) => Some((error.position, error.message.clone())),
        });
        assert_eq!(
            last,
            Some(Some((None, "Unexpected end of text while tokenizing.".to_string()))),
            "input {:?}",
            text
        );
    }
}

#[test]
fn bare_prefix_before_another_character_is_an_error_at_that_character() {
    for (text, c) in [("=+", '+'), ("&|", '|'), ("|&", '&'), (":)", ')'), ("& &", ' ')] {
        let mut tokens = scanner(text);
        assert_eq!(tokens.next(), unexpected(1, c), "input {:?}", text);
        assert_eq!(tokens.next(), None);
    }
}

#[test]
fn unrecognised_character_is_reported_at_its_own_position() {
    let mut tokens = scanner("@");
    assert_eq!(tokens.next(), unexpected(0, '@'));
}

#[test]
fn unrecognised_character_behind_blanks_is_reported_at_its_own_position() {
    let mut tokens = scanner("+   @ -");
    assert_eq!(tokens.next(), op(0, Op::Plus));
    assert_eq!(tokens.next(), unexpected(4, '@'));
}

#[test]
fn positions_count_characters_not_bytes() {
    let mut tokens = scanner("\u{e9}");
    assert_eq!(tokens.next(), unexpected(0, '\u{e9}'));
    let mut tokens = scanner("+ \u{e9}");
    assert_eq!(tokens.next(), op(0, Op::Plus));
    assert_eq!(tokens.next(), unexpected(2, '\u{e9}'));
}

#[test]
fn digits_are_unrecognised_while_literals_are_not_scanned() {
    let mut tokens = scanner("(1 + 2) * 3");
    assert_eq!(tokens.next(), token(0, TokenKind::Paren(Paren::Left)));
    assert_eq!(tokens.next(), unexpected(1, '1'));
    assert_eq!(tokens.next(), None);
}

#[test]
fn letters_are_unrecognised_while_names_are_not_scanned() {
    let mut tokens = scanner("if");
    assert_eq!(tokens.next(), unexpected(0, 'i'));
}

#[test]
fn empty_input_has_no_items() {
    let mut tokens = scanner("");
    assert_eq!(tokens.next(), None);
    assert_eq!(tokens.next(), None);
    assert_eq!(scanner("").to_vec(), vec![]);
}

#[test]
fn blank_input_has_no_items() {
    let mut tokens = scanner(" \n  \n");
    assert_eq!(tokens.next(), None);
    assert_eq!(tokens.next(), None);
}

#[test]
fn nothing_follows_an_error() {
    let mut tokens = scanner("@+");
    assert_eq!(tokens.next(), unexpected(0, '@'));
    assert_eq!(tokens.next(), None);
    assert_eq!(tokens.next(), None);
    let mut tokens = scanner("=+ -");
    assert_eq!(tokens.next(), unexpected(1, '+'));
    assert_eq!(tokens.next(), None);
}

#[test]
fn scanning_twice_gives_the_same_sequence() {
    for text in ["", "<=", "  +   -", "<7", "=", "@", "(1 + 2) * 3", "<= >= == != && || :=", "((+))&"] {
        let first = scanner(text).to_vec();
        let second = scanner(text).to_vec();
        assert_eq!(first, second, "input {:?}", text);
        let mut pulled = Vec::new();
        let mut tokens = scanner(text);
        while let Some(item) = tokens.next() {
            pulled.push(item);
        }
        assert_eq!(pulled, first, "input {:?}", text);
    }
}

#[test]
fn token_positions_increase_and_point_at_characters_that_are_no_blanks() {
    let text = " ( <= \n >  ) !=   + -*/ && || := ";
    let chars: Vec<char> = text.chars().collect();
    let items = scanner(text).to_vec();
    assert_eq!(items.len(), 12);
    let mut previous: Option<usize> = None;
    for item in &items {
        let token = item.as_ref().expect("a token");
        assert!(token.position < chars.len());
        assert!(chars[token.position] != ' ' && chars[token.position] != '\n');
        if let Some(before) = previous {
            assert!(before < token.position);
        }
        previous = Some(token.position);
    }
}

#[test]
fn to_vec_lists_tokens_then_the_error() {
    let items = scanner("( <= ) @ +").to_vec();
    assert_eq!(
        items,
        vec![
            Ok(Token { position: 0, details: TokenKind::Paren(Paren::Left) }),
            Ok(Token { position: 2, details: TokenKind::Op(Op::LessEq) }),
            Ok(Token { position: 5, details: TokenKind::Paren(Paren::Right) }),
            Err(LexError {
                position: Some(7),
                message: "Unexpected character '@'".to_string()
            }),
        ]
    );
}

#[test]
fn to_vec_leaves_the_scanner_where_it_is() {
    let mut tokens = scanner("+ - *");
    assert_eq!(tokens.next(), op(0, Op::Plus));
    let rest = tokens.to_vec();
    assert_eq!(
        rest,
        vec![
            Ok(Token { position: 2, details: TokenKind::Op(Op::Minus) }),
            Ok(Token { position: 4, details: TokenKind::Op(Op::Times) }),
        ]
    );
    assert_eq!(tokens.next(), op(2, Op::Minus));
    assert_eq!(tokens.next(), op(4, Op::Times));
    assert_eq!(tokens.next(), None);
}

#[test]
fn to_vec_of_a_halted_scanner_is_empty() {
    let mut tokens = scanner("@ +");
    assert_eq!(tokens.next(), unexpected(0, '@'));
    assert_eq!(tokens.to_vec(), vec![]);
}

#[test]
fn a_clone_scans_on_its_own() {
    let mut tokens = scanner("+ - @");
    assert_eq!(tokens.next(), op(0, Op::Plus));
    let mut copy = tokens.clone();
    assert_eq!(copy.next(), op(2, Op::Minus));
    assert_eq!(copy.next(), unexpected(4, '@'));
    assert_eq!(copy.next(), None);
    assert_eq!(tokens.next(), op(2, Op::Minus));
    let mut late = tokens.clone();
    assert_eq!(tokens.next(), unexpected(4, '@'));
    assert_eq!(tokens.clone().next(), None);
    assert_eq!(late.next(), unexpected(4, '@'));
}
