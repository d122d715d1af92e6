//! The tokens of the language: comments, identifiers, keywords, literals
//! and operators, each with the text it is written as.

use vstd::prelude::*;
use crate::text::{debug_char, debug_str, decimal, format_signed, format_unsigned, push_char, quoted_char, quoted_str, signed_decimal};

verus! {

/// A token.
#[derive(Clone, Debug, PartialEq)]
pub enum Token {
    /// see [Comment]
    Comment(Comment),
    /// see [Identifier]
    Identifier(Identifier),
    /// see [Keyword]
    Keyword(Keyword),
    /// see [Literal]
    Literal(Literal),
    /// see [Operator]
    Operator(Operator),
    /// End of file
    EOF,
}

/// A comment with its text, markers excluded.
#[derive(Clone, Debug, Hash, Ord, PartialOrd, PartialEq, Eq)]
pub struct Comment {
    /// see [CommentLineType]
    pub comment_line_type: CommentLineType,
    /// see [CommentType]
    pub comment_type: CommentType,
    pub comment: String,
}

#[derive(Clone, Copy, Debug, Hash, Ord, PartialOrd, PartialEq, Eq, Structural)]
pub enum CommentType {
    /// e.g. `/// comment`
    Inner,
    /// e.g. `//! comment`
    Outer,
    /// e.g. `// comment`
    Line,
}

#[derive(Clone, Copy, Debug, Hash, Ord, PartialOrd, PartialEq, Eq, Structural)]
pub enum CommentLineType {
    /// e.g. `// comment`
    SingleLine,
    /// e.g. `/* comment */`
    MultiLine,
}

#[derive(Clone, Debug, Hash, Ord, PartialOrd, PartialEq, Eq)]
pub struct Operator {
    pub inner: String,
}

#[derive(Clone, Debug, Hash, Ord, PartialOrd, PartialEq, Eq)]
pub struct Identifier {
    pub inner: String,
}

/// A literal value.
#[derive(Clone, Debug, PartialOrd, PartialEq)]
pub enum Literal {
    U8(u8),
    U16(u16),
    U32(u32),
    U64(u64),
    U128(u128),
    I8(i8),
    I16(i16),
    I32(i32),
    I64(i64),
    I128(i128),
    Bool(bool),
    Char(char),
    String(String),
}

/// The reserved words.
#[derive(Clone, Copy, Debug, Hash, Ord, PartialOrd, PartialEq, Eq, Structural)]
pub enum Keyword {
    Abstract,
    As,
    Async,
    Await,
    Become,
    Box,
    Break,
    Const,
    Continue,
    Crate,
    Do,
    Dyn,
    Else,
    Enum,
    Extern,
    False,
    Final,
    Fn,
    For,
    Gen,
    If,
    Impl,
    In,
    Let,
    Loop,
    Marco,
    Match,
    Mod,
    Move,
    Mut,
    Override,
    Priv,
    Pub,
    Ref,
    Return,
    SelfType,
    SelfValue,
    Static,
    Struct,
    Super,
    Trait,
    True,
    Try,
    Typeof,
    Type,
    Union,
    Unsafe,
    Unsized,
    Use,
    Virtual,
    Where,
    While,
    Yield,
    U8,
    U16,
    U32,
    U64,
    U128,
    I8,
    I16,
    I32,
    I64,
    I128,
    F32,
    F64,
    Bool,
    Char,
    Str,
}

pub open spec fn keyword_text(k: Keyword) -> Seq<char> {
    match k {
        Keyword::Abstract => "abstract"@,
        Keyword::As => "as"@,
        Keyword::Async => "async"@,
        Keyword::Await => "await"@,
        Keyword::Become => "become"@,
        Keyword::Box => "box"@,
        Keyword::Break => "break"@,
        Keyword::Const => "const"@,
        Keyword::Continue => "continue"@,
        Keyword::Crate => "crate_"@,
        Keyword::Do => "do"@,
        Keyword::Dyn => "dyn"@,
        Keyword::Else => "else"@,
        Keyword::Enum => "enum"@,
        Keyword::Extern => "extern"@,
        Keyword::False => "false"@,
        Keyword::Final => "final"@,
        Keyword::Fn => "fn"@,
        Keyword::For => "for"@,
        Keyword::Gen => "gen"@,
        Keyword::If => "if"@,
        Keyword::Impl => "impl"@,
        Keyword::In => "in"@,
        Keyword::Let => "let"@,
        Keyword::Loop => "loop"@,
        Keyword::Marco => "marco"@,
        Keyword::Match => "match"@,
        Keyword::Mod => "mod"@,
        Keyword::Move => "move"@,
        Keyword::Mut => "mut"@,
        Keyword::Override => "override"@,
        Keyword::Priv => "priv"@,
        Keyword::Pub => "pub"@,
        Keyword::Ref => "ref"@,
        Keyword::Return => "return"@,
        Keyword::SelfType => "Self_"@,
        Keyword::SelfValue => "self_"@,
        Keyword::Static => "static"@,
        Keyword::Struct => "struct"@,
        Keyword::Super => "super_"@,
        Keyword::Trait => "trait"@,
        Keyword::True => "true"@,
        Keyword::Try => "try"@,
        Keyword::Typeof => "typeof"@,
        Keyword::Type => "type"@,
        Keyword::Union => "union"@,
        Keyword::Unsafe => "unsafe"@,
        Keyword::Unsized => "unsized"@,
        Keyword::Use => "use"@,
        Keyword::Virtual => "virtual"@,
        Keyword::Where => "where"@,
        Keyword::While => "while"@,
        Keyword::Yield => "yield"@,
        Keyword::U8 => "u8"@,
        Keyword::U16 => "u16"@,
        Keyword::U32 => "u32"@,
        Keyword::U64 => "u64"@,
        Keyword::U128 => "u128"@,
        Keyword::I8 => "i8"@,
        Keyword::I16 => "i16"@,
        Keyword::I32 => "i32"@,
        Keyword::I64 => "i64"@,
        Keyword::I128 => "i128"@,
        Keyword::F32 => "f32"@,
        Keyword::F64 => "f64"@,
        Keyword::Bool => "bool"@,
        Keyword::Char => "char"@,
        Keyword::Str => "str"@,
    }
}

impl Keyword {
    pub fn to_text(&self) -> (r: String)
        ensures
            r@ == keyword_text(*self),
    {
        let s: &str = match self {
            Keyword::Abstract => "abstract",
            Keyword::As => "as",
            Keyword::Async => "async",
            Keyword::Await => "await",
            Keyword::Become => "become",
            Keyword::Box => "box",
            Keyword::Break => "break",
            Keyword::Const => "const",
            Keyword::Continue => "continue",
            Keyword::Crate => "crate_",
            Keyword::Do => "do",
            Keyword::Dyn => "dyn",
            Keyword::Else => "else",
            Keyword::Enum => "enum",
            Keyword::Extern => "extern",
            Keyword::False => "false",
            Keyword::Final => "final",
            Keyword::Fn => "fn",
            Keyword::For => "for",
            Keyword::Gen => "gen",
            Keyword::If => "if",
            Keyword::Impl => "impl",
            Keyword::In => "in",
            Keyword::Let => "let",
            Keyword::Loop => "loop",
            Keyword::Marco => "marco",
            Keyword::Match => "match",
            Keyword::Mod => "mod",
            Keyword::Move => "move",
            Keyword::Mut => "mut",
            Keyword::Override => "override",
            Keyword::Priv => "priv",
            Keyword::Pub => "pub",
            Keyword::Ref => "ref",
            Keyword::Return => "return",
            Keyword::SelfType => "Self_",
            Keyword::SelfValue => "self_",
            Keyword::Static => "static",
            Keyword::Struct => "struct",
            Keyword::Super => "super_",
            Keyword::Trait => "trait",
            Keyword::True => "true",
            Keyword::Try => "try",
            Keyword::Typeof => "typeof",
            Keyword::Type => "type",
            Keyword::Union => "union",
            Keyword::Unsafe => "unsafe",
            Keyword::Unsized => "unsized",
            Keyword::Use => "use",
            Keyword::Virtual => "virtual",
            Keyword::Where => "where",
            Keyword::While => "while",
            Keyword::Yield => "yield",
            Keyword::U8 => "u8",
            Keyword::U16 => "u16",
            Keyword::U32 => "u32",
            Keyword::U64 => "u64",
            Keyword::U128 => "u128",
            Keyword::I8 => "i8",
            Keyword::I16 => "i16",
            Keyword::I32 => "i32",
            Keyword::I64 => "i64",
            Keyword::I128 => "i128",
            Keyword::F32 => "f32",
            Keyword::F64 => "f64",
            Keyword::Bool => "bool",
            Keyword::Char => "char",
            Keyword::Str => "str",
        };
        String::from_str(s)
    }
}

/// `s` with every line break followed by `prefix`.
pub open spec fn prefix_lines(s: Seq<char>, prefix: Seq<char>) -> Seq<char>
    decreases s.len(),
{
    if s.len() == 0 {
        Seq::empty()
    } else {
        prefix_lines(s.drop_last(), prefix) + if s.last() == '\n' {
            seq!['\n'] + prefix
        } else {
            seq![s.last()]
        }
    }
}

/// Each line of `s` (split at line breaks) written after `prefix` and
/// ended with a line break.
pub open spec fn line_comment(prefix: Seq<char>, s: Seq<char>) -> Seq<char> {
    prefix + prefix_lines(s, prefix) + seq!['\n']
}

/// How a comment is written.
pub open spec fn comment_text(c: Comment) -> Seq<char> {
    match (c.comment_line_type, c.comment_type) {
        (CommentLineType::SingleLine, CommentType::Line) => line_comment("//"@, c.comment@),
        (CommentLineType::MultiLine, CommentType::Line) => "/*"@ + c.comment@ + "*/"@,
        (CommentLineType::SingleLine, CommentType::Inner) => line_comment("///"@, c.comment@),
        (CommentLineType::MultiLine, CommentType::Inner) => "/**"@ + c.comment@ + "*/"@,
        (CommentLineType::SingleLine, CommentType::Outer) => line_comment("//!"@, c.comment@),
        (CommentLineType::MultiLine, CommentType::Outer) => "/*!"@ + c.comment@ + "*/"@,
    }
}

fn write_lines(prefix: &str, s: &String) -> (r: String)
    ensures
        r@ == line_comment(prefix@, s@),
{
    let n = s.as_str().unicode_len();
    let mut out = String::from_str(prefix);
    let mut i: usize = 0;
    while i < n
        invariant
            n == s@.len(),
            i <= n,
            out@ == prefix@ + prefix_lines(s@.take(i as int), prefix@),
        decreases n - i,
    {
        let c = s.as_str().get_char(i);
        let ghost before = out@;
        if c == '\n' {
            out = push_char(out, '\n').concat(prefix);
        } else {
            out = push_char(out, c);
        }
        proof {
            assert(s@.take(i + 1).drop_last() =~= s@.take(i as int));
            assert(out@ =~= prefix@ + prefix_lines(s@.take(i + 1), prefix@));
        }
        i = i + 1;
    }
    assert(s@.take(n as int) =~= s@);
    push_char(out, '\n')
}

impl Comment {
    pub fn to_text(&self) -> (r: String)
        ensures
            r@ == comment_text(*self),
    {
        let body = self.comment.as_str();
        match (self.comment_line_type, self.comment_type) {
            (CommentLineType::SingleLine, CommentType::Line) => write_lines("//", &self.comment),
            (CommentLineType::MultiLine, CommentType::Line) => String::from_str("/*").concat(body).concat("*/"),
            (CommentLineType::SingleLine, CommentType::Inner) => write_lines("///", &self.comment),
            (CommentLineType::MultiLine, CommentType::Inner) => String::from_str("/**").concat(body).concat("*/"),
            (CommentLineType::SingleLine, CommentType::Outer) => write_lines("//!", &self.comment),
            (CommentLineType::MultiLine, CommentType::Outer) => String::from_str("/*!").concat(body).concat("*/"),
        }
    }
}

impl Identifier {
    pub fn to_text(&self) -> (r: String)
        ensures
            r@ == self.inner@,
    {
        self.inner.clone()
    }
}

impl Operator {
    pub fn to_text(&self) -> (r: String)
        ensures
            r@ == self.inner@,
    {
        self.inner.clone()
    }
}

/// How a literal is written: integers in decimal, characters and strings
/// quoted.
pub open spec fn literal_text(l: Literal) -> Seq<char> {
    match l {
        Literal::U8(v) => decimal(v as nat),
        Literal::U16(v) => decimal(v as nat),
        Literal::U32(v) => decimal(v as nat),
        Literal::U64(v) => decimal(v as nat),
        Literal::U128(v) => decimal(v as nat),
        Literal::I8(v) => signed_decimal(v as int),
        Literal::I16(v) => signed_decimal(v as int),
        Literal::I32(v) => signed_decimal(v as int),
        Literal::I64(v) => signed_decimal(v as int),
        Literal::I128(v) => signed_decimal(v as int),
        Literal::Bool(b) => if b { "true"@ } else { "false"@ },
        Literal::Char(c) => quoted_char(c),
        Literal::String(s) => quoted_str(s@),
    }
}

impl Literal {
    pub fn to_text(&self) -> (r: String)
        ensures
            r@ == literal_text(*self),
    {
        match self {
            Literal::U8(v) => format_unsigned(*v as u128),
            Literal::U16(v) => format_unsigned(*v as u128),
            Literal::U32(v) => format_unsigned(*v as u128),
            Literal::U64(v) => format_unsigned(*v as u128),
            Literal::U128(v) => format_unsigned(*v),
            Literal::I8(v) => format_signed(*v as i128),
            Literal::I16(v) => format_signed(*v as i128),
            Literal::I32(v) => format_signed(*v as i128),
            Literal::I64(v) => format_signed(*v as i128),
            Literal::I128(v) => format_signed(*v),
            Literal::Bool(b) => if *b { String::from_str("true") } else { String::from_str("false") },
            Literal::Char(c) => debug_char(*c),
            Literal::String(s) => debug_str(s.as_str()),
        }
    }
}

/// How a token is written.
pub open spec fn token_text(t: Token) -> Seq<char> {
    match t {
        Token::Comment(c) => comment_text(c),
        Token::Identifier(i) => i.inner@,
        Token::Keyword(k) => keyword_text(k),
        Token::Literal(l) => literal_text(l),
        Token::Operator(o) => o.inner@,
        Token::EOF => "<EOF>"@,
    }
}

impl Token {
    pub fn to_text(&self) -> (r: String)
        ensures
            r@ == token_text(*self),
    {
        match self {
            Token::Comment(c) => c.to_text(),
            Token::Identifier(i) => i.to_text(),
            Token::Keyword(k) => k.to_text(),
            Token::Literal(l) => l.to_text(),
            Token::Operator(o) => o.to_text(),
            Token::EOF => String::from_str("<EOF>"),
        }
    }
}

} // verus!
