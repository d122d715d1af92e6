use abuild::lexer::scanner::{AnnasulScanner, ScanError, Scanner};
use abuild::lexer::token::{
    Comment, CommentLineType, CommentType, Identifier, Keyword, Literal, Operator, Token,
};

fn s(x: &str) -> String {
    x.to_string()
}

fn comment(l: CommentLineType, t: CommentType, text: &str) -> Comment {
    Comment { comment_line_type: l, comment_type: t, comment: s(text) }
}

#[test]
fn comments_are_written_with_their_markers() {
    let c = comment(CommentLineType::SingleLine, CommentType::Line, "a\nb");
    assert_eq!(c.to_text(), "//a\n//b\n");
    let c = comment(CommentLineType::SingleLine, CommentType::Inner, "doc");
    assert_eq!(c.to_text(), "///doc\n");
    let c = comment(CommentLineType::SingleLine, CommentType::Outer, "");
    assert_eq!(c.to_text(), "//!\n");
    let c = comment(CommentLineType::MultiLine, CommentType::Line, " x\ny ");
    assert_eq!(c.to_text(), "/* x\ny */");
    let c = comment(CommentLineType::MultiLine, CommentType::Inner, "d");
    assert_eq!(c.to_text(), "/**d*/");
    let c = comment(CommentLineType::MultiLine, CommentType::Outer, "d");
    assert_eq!(c.to_text(), "/*!d*/");
}

#[test]
fn literals_are_written_as_in_source() {
    assert_eq!(Literal::U8(0).to_text(), "0");
    assert_eq!(Literal::U64(1234567890).to_text(), "1234567890");
    assert_eq!(Literal::U128(u128::MAX).to_text(), u128::MAX.to_string());
    assert_eq!(Literal::I8(-128).to_text(), "-128");
    assert_eq!(Literal::I32(-7).to_text(), "-7");
    assert_eq!(Literal::I128(i128::MIN).to_text(), i128::MIN.to_string());
    assert_eq!(Literal::I64(42).to_text(), "42");
    assert_eq!(Literal::Bool(true).to_text(), "true");
    assert_eq!(Literal::Char('\n').to_text(), "'\\n'");
    assert_eq!(Literal::String(s("a\"b")).to_text(), "\"a\\\"b\"");
}

#[test]
fn tokens_are_written_as_in_source() {
    assert_eq!(Token::Keyword(Keyword::Fn).to_text(), "fn");
    assert_eq!(Token::Keyword(Keyword::Crate).to_text(), "crate_");
    assert_eq!(Keyword::SelfType.to_text(), "Self_");
    assert_eq!(Keyword::U128.to_text(), "u128");
    assert_eq!(Token::Identifier(Identifier { inner: s("x1") }).to_text(), "x1");
    assert_eq!(Token::Operator(Operator { inner: s("+=") }).to_text(), "+=");
    assert_eq!(Token::EOF.to_text(), "<EOF>");
    assert_eq!(Token::Literal(Literal::U16(65535)).to_text(), "65535");
}

#[test]
fn white_space_is_skipped_to_the_end() {
    let mut it = AnnasulScanner::new(s("  \t\n \u{3000}")).into_iter();
    assert!(it.next().is_none());
    assert!(it.next().is_none());
    let mut empty = AnnasulScanner::new(s("")).into_iter();
    assert!(empty.next().is_none());
}

#[test]
fn an_unknown_character_is_reported_and_passed_over() {
    let mut it = AnnasulScanner::new(s(" \n x y")).into_iter();
    assert_eq!(it.next(), Some(Err(ScanError::UnknownChar('x'))));
    assert_eq!(it.next(), Some(Err(ScanError::UnknownChar('y'))));
    assert_eq!(it.next(), None);
}
