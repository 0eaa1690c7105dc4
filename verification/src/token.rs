//! The token alphabet in which annotations, types and visibilities are held.
//!
//! A token sequence is flat: a delimited group is an [`Token::Open`] token, the
//! tokens inside and a [`Token::Close`] token.

use vstd::prelude::*;

verus! {

/// The bracket kind of a delimited group.
#[derive(Clone, Copy, Debug, PartialEq, Eq, Structural)]
pub enum Delimiter {
    /// `( ... )`
    Parenthesis,
    /// `{ ... }`
    Brace,
    /// `[ ... ]`
    Bracket,
}

/// Whether a punctuation character is glued to the token after it.
#[derive(Clone, Copy, Debug, PartialEq, Eq, Structural)]
pub enum Spacing {
    /// The next token stands apart, as the `+` in `a + b`.
    Alone,
    /// The next token follows immediately, as the first `:` of `::`.
    Joint,
}

/// One token of source text.
#[derive(Debug, PartialEq, Eq)]
pub enum Token {
    /// A word: an identifier or a keyword.
    Ident(String),
    /// A single punctuation character.
    Punct(char, Spacing),
    /// A literal, in its source form.
    Literal(String),
    /// The opening bracket of a group.
    Open(Delimiter),
    /// The closing bracket of a group.
    Close(Delimiter),
}

/// The mathematical value of a [`Token`].
pub enum TokenView {
    Ident(Seq<char>),
    Punct(char, Spacing),
    Literal(Seq<char>),
    Open(Delimiter),
    Close(Delimiter),
}

impl View for Token {
    type V = TokenView;

    open spec fn view(&self) -> TokenView {
        match self {
            Token::Ident(s) => TokenView::Ident(s@),
            Token::Punct(c, spacing) => TokenView::Punct(*c, *spacing),
            Token::Literal(s) => TokenView::Literal(s@),
            Token::Open(d) => TokenView::Open(*d),
            Token::Close(d) => TokenView::Close(*d),
        }
    }
}

impl DeepView for Token {
    type V = TokenView;

    open spec fn deep_view(&self) -> TokenView {
        self@
    }
}

impl Clone for Token {
    fn clone(&self) -> (res: Self)
        ensures
            res@ == self@,
    {
        match self {
            Token::Ident(s) => Token::Ident(s.clone()),
            Token::Punct(c, spacing) => Token::Punct(*c, *spacing),
            Token::Literal(s) => Token::Literal(s.clone()),
            Token::Open(d) => Token::Open(*d),
            Token::Close(d) => Token::Close(*d),
        }
    }
}

/// Whether the token is the punctuation character `c`, whatever its spacing.
pub open spec fn is_punct(t: TokenView, c: char) -> bool {
    match t {
        TokenView::Punct(ch, _) => ch == c,
        _ => false,
    }
}

/// Whether the token is the word `word`.
pub open spec fn is_word(t: TokenView, word: Seq<char>) -> bool {
    t == TokenView::Ident(word)
}

impl Token {
    /// Whether this token is the punctuation character `c`.
    pub fn is_punct(&self, c: char) -> (res: bool)
        ensures
            res == is_punct(self@, c),
    {
        match self {
            Token::Punct(ch, _) => *ch == c,
            _ => false,
        }
    }

    /// Whether this token is the word `word`.
    pub fn is_word(&self, word: &str) -> (res: bool)
        ensures
            res == is_word(self@, word@),
    {
        match self {
            Token::Ident(s) => text_eq(s, word),
            _ => false,
        }
    }

    /// Whether this token opens a group of kind `d`.
    pub fn is_open(&self, d: Delimiter) -> (res: bool)
        ensures
            res == (self@ == TokenView::Open(d)),
    {
        match self {
            Token::Open(k) => *k == d,
            _ => false,
        }
    }

    /// Whether this token closes a group of kind `d`.
    pub fn is_close(&self, d: Delimiter) -> (res: bool)
        ensures
            res == (self@ == TokenView::Close(d)),
    {
        match self {
            Token::Close(k) => *k == d,
            _ => false,
        }
    }
}

/// Whether a string holds exactly the given text.
pub fn text_eq(s: &String, text: &str) -> (res: bool)
    ensures
        res == (s@ == text@),
{
    let other = text.to_string();
    *s == other
}

/// Copies the tokens from index `from` up to, not including, index `to`.
pub fn copy_range(tokens: &Vec<Token>, from: usize, to: usize) -> (res: Vec<Token>)
    requires
        from <= to <= tokens.len(),
    ensures
        res.deep_view() == tokens.deep_view().subrange(from as int, to as int),
{
    let mut res: Vec<Token> = Vec::new();
    let mut i: usize = from;
    while i < to
        invariant
            from <= i <= to <= tokens.len(),
            res.deep_view() == tokens.deep_view().subrange(from as int, i as int),
        decreases to - i,
    {
        let ghost before = res.deep_view();
        res.push(tokens[i].clone());
        assert(res.deep_view() =~= before.push(tokens[i as int]@));
        assert(tokens.deep_view().subrange(from as int, i + 1) =~= before.push(tokens[i as int]@));
        i += 1;
    }
    res
}

/// Copies a token sequence.
pub fn clone_tokens(tokens: &Vec<Token>) -> (res: Vec<Token>)
    ensures
        res.deep_view() == tokens.deep_view(),
{
    let res = tokens.clone();
    assert(res.deep_view() =~= tokens.deep_view());
    res
}

/// The source text of one token.
pub open spec fn token_text(t: TokenView) -> Seq<char> {
    match t {
        TokenView::Ident(s) => s,
        TokenView::Punct(c, _) => seq![c],
        TokenView::Literal(s) => s,
        TokenView::Open(Delimiter::Parenthesis) => seq!['('],
        TokenView::Open(Delimiter::Brace) => seq!['{'],
        TokenView::Open(Delimiter::Bracket) => seq!['['],
        TokenView::Close(Delimiter::Parenthesis) => seq![')'],
        TokenView::Close(Delimiter::Brace) => seq!['}'],
        TokenView::Close(Delimiter::Bracket) => seq![']'],
    }
}

/// What separates a token from the one after it: nothing behind a joint
/// punctuation character, one blank behind anything else.
pub open spec fn token_gap(t: TokenView) -> Seq<char> {
    match t {
        TokenView::Punct(_, Spacing::Joint) => Seq::empty(),
        _ => seq![' '],
    }
}

/// The source text of a token sequence: each token's text followed by its gap.
pub open spec fn source_text(ts: Seq<TokenView>) -> Seq<char>
    decreases ts.len(),
{
    if ts.len() == 0 {
        Seq::empty()
    } else {
        source_text(ts.drop_last()) + token_text(ts.last()) + token_gap(ts.last())
    }
}

/// `String::push` of std appends the character to the end of the string.
pub assume_specification[ String::push ](s: &mut String, c: char)
    ensures
        final(s)@ == old(s)@.push(c),
;

impl Delimiter {
    /// The character that opens a group of this kind.
    pub fn open_char(self) -> (c: char)
        ensures
            seq![c] == token_text(TokenView::Open(self)),
    {
        match self {
            Delimiter::Parenthesis => '(',
            Delimiter::Brace => '{',
            Delimiter::Bracket => '[',
        }
    }

    /// The character that closes a group of this kind.
    pub fn close_char(self) -> (c: char)
        ensures
            seq![c] == token_text(TokenView::Close(self)),
    {
        match self {
            Delimiter::Parenthesis => ')',
            Delimiter::Brace => '}',
            Delimiter::Bracket => ']',
        }
    }
}

/// Writes a token sequence out as source text.
pub fn render(tokens: &Vec<Token>) -> (text: String)
    ensures
        text@ == source_text(tokens.deep_view()),
{
    let mut text = String::new();
    let mut i: usize = 0;
    while i < tokens.len()
        invariant
            i <= tokens.len(),
            text@ == source_text(tokens.deep_view().take(i as int)),
        decreases tokens.len() - i,
    {
        let ghost before = text@;
        match &tokens[i] {
            Token::Ident(s) => {
                text.append(s.as_str());
                text.push(' ');
            },
            Token::Punct(c, spacing) => {
                text.push(*c);
                match spacing {
                    Spacing::Alone => {
                        text.push(' ');
                    },
                    Spacing::Joint => {},
                }
            },
            Token::Literal(s) => {
                text.append(s.as_str());
                text.push(' ');
            },
            Token::Open(d) => {
                text.push(d.open_char());
                text.push(' ');
            },
            Token::Close(d) => {
                text.push(d.close_char());
                text.push(' ');
            },
        }
        proof {
            let ts = tokens.deep_view();
            let t = ts[i as int];
            assert(ts.take(i + 1).drop_last() =~= ts.take(i as int));
            assert(ts.take(i + 1).last() == t);
            assert(text@ =~= before + token_text(t) + token_gap(t));
        }
        i += 1;
    }
    assert(tokens.deep_view().take(i as int) =~= tokens.deep_view());
    text
}

} // verus!
