//! Tokens of the machine-description language, and the lexer that produces
//! them from source characters.
//!
//! The language has identifiers, the punctuation `:`, `,`, `{`, `}`, and the
//! arrow `=>`.  Whitespace separates tokens and is otherwise ignored.  The
//! executable lexer is proved equal to `lex_from`, the mathematical
//! description of the token stream of a character sequence: `None` exactly on
//! inputs holding a character no token can start with (or a `=` not followed
//! by `>`), and otherwise the token sequence itself, with each identifier
//! taken as long as possible.

use vstd::prelude::*;
use vstd::string::StrSliceExecFns;

verus! {

/// The characters of a string slice, as a vector.
pub fn str_chars(s: &str) -> (r: Vec<char>)
    ensures
        r@ == s@,
{
    let n = s.unicode_len();
    let mut r: Vec<char> = Vec::new();
    let mut i: usize = 0;
    while i < n
        invariant
            n == s@.len(),
            i <= n,
            r@ == s@.subrange(0, i as int),
        decreases n - i,
    {
        r.push(s.get_char(i));
        proof {
            assert(r@ =~= s@.subrange(0, i + 1 as int));
        }
        i = i + 1;
    }
    proof {
        assert(r@ =~= s@);
    }
    r
}

/// One token of the machine-description language.
pub enum Token {
    Ident(String),
    Colon,
    Comma,
    LBrace,
    RBrace,
    Arrow,
}

/// Mathematical model of a token: the identifier text as a character sequence.
pub enum TokenV {
    Ident(Seq<char>),
    Colon,
    Comma,
    LBrace,
    RBrace,
    Arrow,
}

impl View for Token {
    type V = TokenV;

    open spec fn view(&self) -> TokenV {
        match self {
            Token::Ident(s) => TokenV::Ident(s@),
            Token::Colon => TokenV::Colon,
            Token::Comma => TokenV::Comma,
            Token::LBrace => TokenV::LBrace,
            Token::RBrace => TokenV::RBrace,
            Token::Arrow => TokenV::Arrow,
        }
    }
}

impl DeepView for Token {
    type V = TokenV;

    open spec fn deep_view(&self) -> TokenV {
        self.view()
    }
}

/// An ASCII letter or an underscore: what an identifier may start with.
pub open spec fn is_ident_start_char(c: char) -> bool {
    ('a' <= c && c <= 'z') || ('A' <= c && c <= 'Z') || c == '_'
}

/// What an identifier may continue with: a start character or an ASCII digit.
pub open spec fn is_ident_char(c: char) -> bool {
    is_ident_start_char(c) || ('0' <= c && c <= '9')
}

/// Space, tab, line feed or carriage return.
pub open spec fn is_space_char(c: char) -> bool {
    c == ' ' || c == '\t' || c == '\n' || c == '\r'
}

/// The first position at or after `i` holding no identifier character: the
/// maximal-munch end of an identifier starting at `i`.
pub open spec fn ident_end(cs: Seq<char>, i: int) -> int
    decreases cs.len() - i,
{
    if 0 <= i && i < cs.len() && is_ident_char(cs[i]) {
        ident_end(cs, i + 1)
    } else {
        i
    }
}

pub proof fn lemma_ident_end(cs: Seq<char>, i: int)
    requires
        0 <= i <= cs.len(),
    ensures
        i <= ident_end(cs, i) <= cs.len(),
        forall|k: int| i <= k < ident_end(cs, i) ==> is_ident_char(cs[k]),
        ident_end(cs, i) < cs.len() ==> !is_ident_char(cs[ident_end(cs, i)]),
        i < cs.len() && is_ident_char(cs[i]) ==> ident_end(cs, i) > i,
    decreases cs.len() - i,
{
    if i < cs.len() && is_ident_char(cs[i]) {
        lemma_ident_end(cs, i + 1);
    }
}

/// The token stream of `cs` from position `i` on: `None` where no token can
/// be read, otherwise all tokens in order, identifiers maximal.
pub open spec fn lex_from(cs: Seq<char>, i: int) -> Option<Seq<TokenV>>
    decreases cs.len() - i,
    via lex_from_decreases
{
    if i < 0 || i > cs.len() {
        None
    } else if i == cs.len() {
        Some(Seq::empty())
    } else if is_space_char(cs[i]) {
        lex_from(cs, i + 1)
    } else if is_ident_start_char(cs[i]) {
        match lex_from(cs, ident_end(cs, i)) {
            Some(ts) => Some(seq![TokenV::Ident(cs.subrange(i, ident_end(cs, i)))] + ts),
            None => None,
        }
    } else if cs[i] == ':' {
        match lex_from(cs, i + 1) {
            Some(ts) => Some(seq![TokenV::Colon] + ts),
            None => None,
        }
    } else if cs[i] == ',' {
        match lex_from(cs, i + 1) {
            Some(ts) => Some(seq![TokenV::Comma] + ts),
            None => None,
        }
    } else if cs[i] == '{' {
        match lex_from(cs, i + 1) {
            Some(ts) => Some(seq![TokenV::LBrace] + ts),
            None => None,
        }
    } else if cs[i] == '}' {
        match lex_from(cs, i + 1) {
            Some(ts) => Some(seq![TokenV::RBrace] + ts),
            None => None,
        }
    } else if cs[i] == '=' && i + 1 < cs.len() && cs[i + 1] == '>' {
        match lex_from(cs, i + 2) {
            Some(ts) => Some(seq![TokenV::Arrow] + ts),
            None => None,
        }
    } else {
        None
    }
}

#[via_fn]
proof fn lex_from_decreases(cs: Seq<char>, i: int) {
    if 0 <= i && i < cs.len() && !is_space_char(cs[i]) && is_ident_start_char(cs[i]) {
        lemma_ident_end(cs, i);
    }
}

/// Relies on `String::push`: appends exactly the given character.
pub assume_specification[ String::push ](s: &mut String, c: char)
    ensures
        final(s)@ == old(s)@.push(c),
;

/// Copies `cs[i..j]` into a fresh string.
fn copy_range(cs: &Vec<char>, i: usize, j: usize) -> (r: String)
    requires
        i <= j <= cs@.len(),
    ensures
        r@ == cs@.subrange(i as int, j as int),
{
    let mut r = String::new();
    let mut k: usize = i;
    while k < j
        invariant
            i <= k <= j <= cs@.len(),
            r@ == cs@.subrange(i as int, k as int),
        decreases j - k,
    {
        r.push(cs[k]);
        proof {
            assert(r@ =~= cs@.subrange(i as int, k + 1 as int));
        }
        k = k + 1;
    }
    r
}

fn is_ident_start(c: char) -> (r: bool)
    ensures
        r == is_ident_start_char(c),
{
    ('a' <= c && c <= 'z') || ('A' <= c && c <= 'Z') || c == '_'
}

fn is_ident(c: char) -> (r: bool)
    ensures
        r == is_ident_char(c),
{
    is_ident_start(c) || ('0' <= c && c <= '9')
}

fn is_space(c: char) -> (r: bool)
    ensures
        r == is_space_char(c),
{
    c == ' ' || c == '\t' || c == '\n' || c == '\r'
}

/// Reads all tokens of `cs` from position `i` on, exactly as `lex_from`
/// describes: `None` on an input no token can start, the full token stream
/// otherwise.
pub fn tokenize_from(cs: &Vec<char>, i: usize) -> (r: Option<Vec<Token>>)
    requires
        i <= cs@.len(),
    ensures
        r is Some <==> lex_from(cs@, i as int) is Some,
        r matches Some(v) ==> Some(v.deep_view()) == lex_from(cs@, i as int),
    decreases cs@.len() - i,
{
    if i == cs.len() {
        let r: Vec<Token> = Vec::new();
        proof {
            assert(r.deep_view() =~= Seq::<TokenV>::empty());
        }
        Some(r)
    } else {
        let c = cs[i];
        if is_space(c) {
            tokenize_from(cs, i + 1)
        } else if is_ident_start(c) {
            let mut j: usize = i;
            while j < cs.len() && is_ident(cs[j])
                invariant
                    i <= j <= cs@.len(),
                    ident_end(cs@, i as int) == ident_end(cs@, j as int),
                decreases cs@.len() - j,
            {
                j = j + 1;
            }
            proof {
                assert(ident_end(cs@, j as int) == j);
            }
            let name = copy_range(cs, i, j);
            match tokenize_from(cs, j) {
                Some(rest) => Some(prepend(Token::Ident(name), rest)),
                None => None,
            }
        } else if c == ':' {
            match tokenize_from(cs, i + 1) {
                Some(rest) => Some(prepend(Token::Colon, rest)),
                None => None,
            }
        } else if c == ',' {
            match tokenize_from(cs, i + 1) {
                Some(rest) => Some(prepend(Token::Comma, rest)),
                None => None,
            }
        } else if c == '{' {
            match tokenize_from(cs, i + 1) {
                Some(rest) => Some(prepend(Token::LBrace, rest)),
                None => None,
            }
        } else if c == '}' {
            match tokenize_from(cs, i + 1) {
                Some(rest) => Some(prepend(Token::RBrace, rest)),
                None => None,
            }
        } else if c == '=' && i + 1 < cs.len() && cs[i + 1] == '>' {
            match tokenize_from(cs, i + 2) {
                Some(rest) => Some(prepend(Token::Arrow, rest)),
                None => None,
            }
        } else {
            None
        }
    }
}

/// Puts one token in front of a stream.
fn prepend(t: Token, rest: Vec<Token>) -> (r: Vec<Token>)
    ensures
        r.deep_view() == seq![t@] + rest.deep_view(),
{
    let ghost rest0 = rest;
    let mut r = rest;
    r.insert(0, t);
    proof {
        assert(r@ =~= seq![t] + rest0@);
        assert forall|k: int| 0 <= k < r@.len() implies r.deep_view()[k] == (seq![t@]
            + rest0.deep_view())[k] by {
            if k > 0 {
                assert(r@[k] == rest0@[k - 1]);
            }
        }
        assert(r.deep_view() =~= seq![t@] + rest0.deep_view());
    }
    r
}

} // verus!
