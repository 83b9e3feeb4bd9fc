use nand2tetris::tokens::tokenizer::JackTokenizer;
use nand2tetris::tokens::{
    trim_start, JackComment, JackIdent, JackInt, JackKeyword, JackString, JackSymbol, JackToken,
};

#[test]
fn test_let_statement_manually() {
    let buff = b"let pointX = 94;";
    let (token, token_size, _, with_terminator) = JackToken::bytes_to_token(buff);
    assert!(with_terminator);
    assert_eq!(token, Some(JackToken::Keyword(JackKeyword::Let)));
    assert_eq!(token_size, 3);
    let (token, token_size, _, with_terminator) = JackToken::bytes_to_token(&buff[4..]);
    assert!(with_terminator);
    assert_eq!(token, Some(JackToken::Ident(JackIdent(b"pointX".to_vec()))));
    assert_eq!(token_size, 6);
    let (token, token_size, _, with_terminator) = JackToken::bytes_to_token(&buff[11..]);
    assert!(with_terminator);
    assert_eq!(token, Some(JackToken::Symbol(JackSymbol::Eq)));
    assert_eq!(token_size, 1);
    let (token, token_size, _, with_terminator) = JackToken::bytes_to_token(&buff[13..]);
    assert!(with_terminator);
    assert_eq!(token, Some(JackToken::IntLiteral(JackInt(b"94".to_vec()))));
    assert_eq!(token_size, 2);
    let (token, token_size, _, with_terminator) = JackToken::bytes_to_token(&buff[15..]);
    assert!(with_terminator);
    assert_eq!(token, Some(JackToken::Symbol(JackSymbol::Semicolon)));
    assert_eq!(token_size, 1);
}

#[test]
fn test_ident_like_keyword_manually() {
    let buff = b"let lett_x = 94;";
    let (token, token_size, _, with_terminator) = JackToken::bytes_to_token(buff);
    assert!(with_terminator);
    assert_eq!(token, Some(JackToken::Keyword(JackKeyword::Let)));
    assert_eq!(token_size, 3);
    let (token, token_size, _, with_terminator) = JackToken::bytes_to_token(&buff[4..]);
    assert!(with_terminator);
    assert_eq!(token, Some(JackToken::Ident(JackIdent(b"lett_x".to_vec()))));
    assert_eq!(token_size, 6);
    let (token, token_size, _, with_terminator) = JackToken::bytes_to_token(&buff[11..]);
    assert!(with_terminator);
    assert_eq!(token, Some(JackToken::Symbol(JackSymbol::Eq)));
    assert_eq!(token_size, 1);
    let (token, token_size, _, with_terminator) = JackToken::bytes_to_token(&buff[13..]);
    assert!(with_terminator);
    assert_eq!(token, Some(JackToken::IntLiteral(JackInt(b"94".to_vec()))));
    assert_eq!(token_size, 2);
    let (token, token_size, _, with_terminator) = JackToken::bytes_to_token(&buff[15..]);
    assert!(with_terminator);
    assert_eq!(token, Some(JackToken::Symbol(JackSymbol::Semicolon)));
    assert_eq!(token_size, 1);
}

#[test]
fn test_ident_without_terminator() {
    let buff = b"lett_x";
    let (token, token_size, _, with_terminator) = JackToken::bytes_to_token(buff);
    assert!(!with_terminator);
    assert_eq!(token, Some(JackToken::Ident(JackIdent(b"lett_x".to_vec()))));
    assert_eq!(token_size, 6);
}

#[test]
fn test_int_without_terminator() {
    let buff = b"199";
    let (token, token_size, _, with_terminator) = JackToken::bytes_to_token(buff);
    assert!(!with_terminator);
    assert_eq!(token, Some(JackToken::IntLiteral(JackInt(b"199".to_vec()))));
    assert_eq!(token_size, 3);
}

#[test]
fn test_int_with_terminator() {
    let buff = b"199 ";
    let (token, token_size, _, with_terminator) = JackToken::bytes_to_token(buff);
    assert!(with_terminator);
    assert_eq!(token, Some(JackToken::IntLiteral(JackInt(b"199".to_vec()))));
    assert_eq!(token_size, 3);
}

#[test]
fn test_symbol() {
    let buff = b"  \n+";
    let (trimed, _, _) = trim_start(buff, 0);
    let (token, token_size, _, with_terminator) = JackToken::bytes_to_token(&buff[trimed..]);
    assert!(with_terminator);
    assert_eq!(token, Some(JackToken::Symbol(JackSymbol::Plus)));
    assert_eq!(token_size, 1);
}

#[test]
fn line_comment_runs_to_line_end() {
    let (token, size, lines, term) = JackToken::bytes_to_token(b"// hi\nlet");
    assert_eq!(token, Some(JackToken::Comment(JackComment(b" hi".to_vec()))));
    assert_eq!((size, lines, term), (6, 0, true));
}

#[test]
fn block_comment_counts_lines() {
    let (token, size, lines, term) = JackToken::bytes_to_token(b"/** a\n*b\n */x");
    assert_eq!(token, Some(JackToken::Comment(JackComment(b" a\n*b\n ".to_vec()))));
    assert_eq!((size, lines, term), (12, 2, true));
}

#[test]
fn unclosed_block_comment() {
    let (token, size, lines, term) = JackToken::bytes_to_token(b"/** a\n");
    assert_eq!(token, Some(JackToken::Comment(JackComment(b" a\n".to_vec()))));
    assert_eq!((size, lines, term), (7, 1, false));
}

#[test]
fn slash_alone_is_divide() {
    let (token, size, _, term) = JackToken::bytes_to_token(b"/ 2");
    assert_eq!(token, Some(JackToken::Symbol(JackSymbol::Divide)));
    assert_eq!((size, term), (1, true));
}

#[test]
fn string_literal_and_unclosed_string() {
    let (token, size, _, term) = JackToken::bytes_to_token(b"\"HI there\";");
    assert_eq!(token, Some(JackToken::StringLiteral(JackString(b"HI there".to_vec()))));
    assert_eq!((size, term), (10, true));
    let (token, size, _, term) = JackToken::bytes_to_token(b"\"open");
    assert_eq!(token, None);
    assert_eq!((size, term), (5, false));
}

#[test]
fn keyword_at_end_of_buffer_is_complete() {
    let (token, size, _, term) = JackToken::bytes_to_token(b"return");
    assert_eq!(token, Some(JackToken::Keyword(JackKeyword::Return)));
    assert_eq!((size, term), (6, true));
}

#[test]
fn empty_buffer_gives_nothing() {
    assert_eq!(JackToken::bytes_to_token(b""), (None, 0, 0, false));
}

#[test]
fn trim_counts_lines_and_columns() {
    assert_eq!(trim_start(b" \t\n  x", 7), (5, 1, 2));
    assert_eq!(trim_start(b"  \r x", 3), (4, 0, 6));
    assert_eq!(trim_start(b"x", 3), (0, 0, 3));
}

#[test]
fn keyword_sizes_and_lookup() {
    assert_eq!(JackKeyword::bytes_to_keyword(b"constructor"), Some(JackKeyword::Constructor));
    assert_eq!(JackKeyword::Constructor.size(), 11);
    assert_eq!(JackKeyword::bytes_to_keyword(b"double"), Some(JackKeyword::Do));
    assert_eq!(JackKeyword::bytes_to_keyword(b"xyz"), None);
    assert!(JackKeyword::Var.is_var_declar());
    assert!(JackKeyword::Null.is_value());
    assert!(JackKeyword::Method.is_function());
    assert!(JackKeyword::Void.is_type());
    assert!(!JackKeyword::Let.is_type());
    assert_eq!(JackKeyword::default(), JackKeyword::Constructor);
}

#[test]
fn symbols_by_byte() {
    assert_eq!(JackSymbol::char_to_symbol(b'~'), Some(JackSymbol::Not));
    assert_eq!(JackSymbol::char_to_symbol(b'a'), None);
    assert!(JackSymbol::Divide.is_op());
    assert!(!JackSymbol::Not.is_op());
    assert!(JackSymbol::Minus.is_unary_op());
}

#[test]
fn int_literal_values() {
    assert_eq!(JackInt(b"32767".to_vec()).to_int(), 32767);
    assert_eq!(JackInt(b"0".to_vec()).to_int(), 0);
    assert_eq!(JackInt(b"094".to_vec()).to_int(), 94);
    assert_eq!(JackInt::parse_int_literal(b"12a"), (JackInt(b"12".to_vec()), 2, true));
    assert_eq!(JackIdent::parse_ident(b"a_1("), (JackIdent(b"a_1".to_vec()), 3, true));
}

#[test]
fn tokenizer_locates_tokens_and_skips_comments() {
    let mut t = JackTokenizer::new(b"let x = 5; // c\n".to_vec(), true);
    let a = t.next_token().unwrap();
    assert_eq!(a.payload, JackToken::Keyword(JackKeyword::Let));
    assert_eq!((a.idx, a.offset, a.size, a.line, a.symbol), (0, 0, 3, 0, 0));
    let b = t.next_token().unwrap();
    assert_eq!(b.payload, JackToken::Ident(JackIdent(b"x".to_vec())));
    assert_eq!((b.idx, b.offset, b.size, b.line, b.symbol), (1, 4, 1, 0, 4));
    let c = t.next_token().unwrap();
    assert_eq!(c.payload, JackToken::Symbol(JackSymbol::Eq));
    assert_eq!(c.offset, 6);
    let d = t.next_token().unwrap();
    assert_eq!(d.payload, JackToken::IntLiteral(JackInt(b"5".to_vec())));
    assert_eq!((d.offset, d.symbol), (8, 8));
    let e = t.next_token().unwrap();
    assert_eq!(e.payload, JackToken::Symbol(JackSymbol::Semicolon));
    assert_eq!(e.idx, 4);
    assert!(t.next_token().is_none());
    assert!(t.next_token().is_none());
}

#[test]
fn tokenizer_keeps_comments_when_asked() {
    let mut t = JackTokenizer::new(b"// note\nreturn;".to_vec(), false);
    let a = t.next_token().unwrap();
    assert_eq!(a.payload, JackToken::Comment(JackComment(b" note".to_vec())));
    let b = t.next_token().unwrap();
    assert_eq!(b.payload, JackToken::Keyword(JackKeyword::Return));
    assert_eq!(b.line, 0);
    let c = t.next_token().unwrap();
    assert_eq!(c.payload, JackToken::Symbol(JackSymbol::Semicolon));
    assert!(t.next_token().is_none());
}
