//! The scanner: a state machine over the characters of a source text.

use vstd::prelude::*;
use crate::lexer::token::Token;

verus! {

/// Whether `c` has Unicode's White_Space property, as `char::is_whitespace`
/// documents it.
pub open spec fn white_space(c: char) -> bool {
    ('\u{9}' <= c && c <= '\u{d}') || c == ' ' || c == '\u{85}' || c == '\u{a0}' || c == '\u{1680}'
        || ('\u{2000}' <= c && c <= '\u{200a}') || c == '\u{2028}' || c == '\u{2029}' || c
        == '\u{202f}' || c == '\u{205f}' || c == '\u{3000}'
}

pub fn is_white_space(c: char) -> (r: bool)
    ensures
        r == white_space(c),
{
    ('\u{9}' <= c && c <= '\u{d}') || c == ' ' || c == '\u{85}' || c == '\u{a0}' || c == '\u{1680}'
        || ('\u{2000}' <= c && c <= '\u{200a}') || c == '\u{2028}' || c == '\u{2029}' || c
        == '\u{202f}' || c == '\u{205f}' || c == '\u{3000}'
}

/// Why scanning stopped.
#[derive(Clone, Copy, Debug, PartialEq, Eq, Structural)]
pub enum ScanError {
    /// A character that starts no token.
    UnknownChar(char),
}

/// A scanner over some input.
pub trait Scanner: Sized {
    fn new(input: String) -> Self;
}

#[derive(Clone, Copy, Debug, Hash, Ord, PartialOrd, PartialEq, Eq, Structural)]
enum AnnasulScannerState {
    Initial,
    Whitespace,
    Comment,
}

/// The scanner of the language.
#[derive(Clone, Debug)]
pub struct AnnasulScanner {
    input: String,
    pos: usize,
    state: AnnasulScannerState,
}

/// The scanner, handing out one token after another.
#[derive(Clone, Debug)]
pub struct AnnasulScannerIter {
    annasul_scanner: AnnasulScanner,
}

/// The index of the first character at or after `from` that is not white
/// space, or the length of `s` where there is none.
pub open spec fn skip_white_space(s: Seq<char>, from: int) -> int
    decreases s.len() - from,
{
    if from >= s.len() {
        s.len() as int
    } else if white_space(s[from]) {
        skip_white_space(s, from + 1)
    } else {
        from
    }
}

proof fn lemma_skip_bounds(s: Seq<char>, from: int)
    requires
        0 <= from,
    ensures
        from <= skip_white_space(s, from) || from > s.len(),
        skip_white_space(s, from) <= s.len(),
        skip_white_space(s, from) < s.len() ==> !white_space(s[skip_white_space(s, from)]),
        forall|j: int| from <= j < skip_white_space(s, from) ==> white_space(#[trigger] s[j]),
    decreases s.len() - from,
{
    if from < s.len() && white_space(s[from]) {
        lemma_skip_bounds(s, from + 1);
    }
}

impl AnnasulScanner {
    /// The text being scanned.
    pub closed spec fn text(&self) -> Seq<char> {
        self.input@
    }

    /// How much of the text has been scanned.
    pub closed spec fn position(&self) -> nat {
        self.pos as nat
    }

    pub closed spec fn wf(&self) -> bool {
        self.pos <= self.input@.len()
    }

    pub fn into_iter(self) -> (r: AnnasulScannerIter)
        ensures
            r.scanner() == self,
    {
        AnnasulScannerIter { annasul_scanner: self }
    }
}

impl Scanner for AnnasulScanner {
    fn new(input: String) -> (r: AnnasulScanner)
        ensures
            r.wf(),
            r.text() == input@,
            r.position() == 0,
    {
        AnnasulScanner::start(input)
    }
}

impl AnnasulScanner {
    /// A scanner at the start of `input`.
    pub fn start(input: String) -> (r: AnnasulScanner)
        ensures
            r.wf(),
            r.text() == input@,
            r.position() == 0,
    {
        AnnasulScanner { input, pos: 0, state: AnnasulScannerState::Initial }
    }
}

impl AnnasulScannerIter {
    pub closed spec fn scanner(&self) -> AnnasulScanner {
        self.annasul_scanner
    }

    /// The next token. White space is skipped; at the end of the text there
    /// is none; any other character starts no token yet, and is reported and
    /// passed over.
    pub fn next(&mut self) -> (r: Option<Result<Token, ScanError>>)
        requires
            old(self).scanner().wf(),
        ensures
            final(self).scanner().wf(),
            final(self).scanner().text() == old(self).scanner().text(),
            ({
                let s = old(self).scanner().text();
                let k = skip_white_space(s, old(self).scanner().position() as int);
                if k >= s.len() {
                    r is None && final(self).scanner().position() == s.len()
                } else {
                    r == Some(Err::<Token, ScanError>(ScanError::UnknownChar(s[k])))
                        && final(self).scanner().position() == k + 1
                }
            }),
    {
        let n = self.annasul_scanner.input.as_str().unicode_len();
        proof { lemma_skip_bounds(self.annasul_scanner.input@, self.annasul_scanner.pos as int); }
        loop
            invariant
                n == self.annasul_scanner.input@.len(),
                self.annasul_scanner.input@ == old(self).annasul_scanner.input@,
                old(self).annasul_scanner.pos <= self.annasul_scanner.pos <= n,
                skip_white_space(self.annasul_scanner.input@, self.annasul_scanner.pos as int)
                    == skip_white_space(
                    self.annasul_scanner.input@,
                    old(self).annasul_scanner.pos as int,
                ),
            decreases n - self.annasul_scanner.pos,
        {
            let pos = self.annasul_scanner.pos;
            if pos >= n {
                return None;
            }
            let c = self.annasul_scanner.input.as_str().get_char(pos);
            self.annasul_scanner.pos = pos + 1;
            if !is_white_space(c) {
                return Some(Err(ScanError::UnknownChar(c)));
            }
            match self.annasul_scanner.state {
                AnnasulScannerState::Initial => {
                    self.annasul_scanner.state = AnnasulScannerState::Whitespace;
                },
                AnnasulScannerState::Whitespace | AnnasulScannerState::Comment => {},
            }
        }
    }
}

} // verus!
