//! Tokens, and the tokenizer that turns text into them.
//!
//! Tokenizing has two phases. Each character is first classified on its own;
//! neighbouring characters that belong to no operator are merged into literal
//! runs. The resulting partial tokens are then resolved from left to right,
//! looking at most one partial token ahead to tell `=` from `==` and the like.

use crate::bounds::{lemma_partial_tokens_len, lemma_resolve_error, lemma_tokenize_tokens};
use crate::error::{optional_partial_view, EvalexprError, EvalexprErrorView, EvalexprResult};
use crate::literal::{bool_literal, int_literal, is_float, is_float_literal, parse_bool, parse_int};
use crate::value::IntType;
use vstd::prelude::*;

verus! {

/// A finished lexical unit.
#[derive(PartialEq, Debug)]
pub enum Token {
    // Arithmetic
    Plus,
    Minus,
    Star,
    Slash,
    Percent,
    // Logic
    Eq,
    Neq,
    Gt,
    Lt,
    Geq,
    Leq,
    And,
    Or,
    Not,
    // Precedence
    LBrace,
    RBrace,
    Whitespace,
    // Complex tokens
    /// A name, as written.
    Identifier(String),
    /// A float literal, as written: text in the float grammar of
    /// [`is_float_literal`].
    Float(String),
    /// An integer literal.
    Int(IntType),
    /// A boolean literal.
    Boolean(bool),
}

/// The mathematical content of a [`Token`].
pub enum TokenView {
    Plus,
    Minus,
    Star,
    Slash,
    Percent,
    Eq,
    Neq,
    Gt,
    Lt,
    Geq,
    Leq,
    And,
    Or,
    Not,
    LBrace,
    RBrace,
    Whitespace,
    Identifier(Seq<char>),
    Float(Seq<char>),
    Int(IntType),
    Boolean(bool),
}

/// A lexical unit that may still need the unit after it to become a token.
#[derive(PartialEq, Debug)]
pub enum PartialToken {
    /// A token that one character settles.
    Token(Token),
    /// A run of characters that belong to no operator.
    Literal(String),
    /// `=`
    Eq,
    /// `!`
    ExclamationMark,
    /// `>`
    Gt,
    /// `<`
    Lt,
    /// `&`
    Ampersand,
    /// `|`
    VerticalBar,
}

/// The mathematical content of a [`PartialToken`].
pub enum PartialTokenView {
    Token(TokenView),
    Literal(Seq<char>),
    Eq,
    ExclamationMark,
    Gt,
    Lt,
    Ampersand,
    VerticalBar,
}

impl View for Token {
    type V = TokenView;

    open spec fn view(&self) -> TokenView {
        match self {
            Token::Plus => TokenView::Plus,
            Token::Minus => TokenView::Minus,
            Token::Star => TokenView::Star,
            Token::Slash => TokenView::Slash,
            Token::Percent => TokenView::Percent,
            Token::Eq => TokenView::Eq,
            Token::Neq => TokenView::Neq,
            Token::Gt => TokenView::Gt,
            Token::Lt => TokenView::Lt,
            Token::Geq => TokenView::Geq,
            Token::Leq => TokenView::Leq,
            Token::And => TokenView::And,
            Token::Or => TokenView::Or,
            Token::Not => TokenView::Not,
            Token::LBrace => TokenView::LBrace,
            Token::RBrace => TokenView::RBrace,
            Token::Whitespace => TokenView::Whitespace,
            Token::Identifier(name) => TokenView::Identifier(name@),
            Token::Float(text) => TokenView::Float(text@),
            Token::Int(number) => TokenView::Int(*number),
            Token::Boolean(flag) => TokenView::Boolean(*flag),
        }
    }
}

impl View for PartialToken {
    type V = PartialTokenView;

    open spec fn view(&self) -> PartialTokenView {
        match self {
            PartialToken::Token(token) => PartialTokenView::Token(token@),
            PartialToken::Literal(run) => PartialTokenView::Literal(run@),
            PartialToken::Eq => PartialTokenView::Eq,
            PartialToken::ExclamationMark => PartialTokenView::ExclamationMark,
            PartialToken::Gt => PartialTokenView::Gt,
            PartialToken::Lt => PartialTokenView::Lt,
            PartialToken::Ampersand => PartialTokenView::Ampersand,
            PartialToken::VerticalBar => PartialTokenView::VerticalBar,
        }
    }
}

impl Clone for Token {
    /// A copy with the same view.
    fn clone(&self) -> (copy: Self)
        ensures
            copy@ == self@,
    {
        match self {
            Token::Plus => Token::Plus,
            Token::Minus => Token::Minus,
            Token::Star => Token::Star,
            Token::Slash => Token::Slash,
            Token::Percent => Token::Percent,
            Token::Eq => Token::Eq,
            Token::Neq => Token::Neq,
            Token::Gt => Token::Gt,
            Token::Lt => Token::Lt,
            Token::Geq => Token::Geq,
            Token::Leq => Token::Leq,
            Token::And => Token::And,
            Token::Or => Token::Or,
            Token::Not => Token::Not,
            Token::LBrace => Token::LBrace,
            Token::RBrace => Token::RBrace,
            Token::Whitespace => Token::Whitespace,
            Token::Identifier(name) => Token::Identifier(name.clone()),
            Token::Float(text) => Token::Float(text.clone()),
            Token::Int(number) => Token::Int(*number),
            Token::Boolean(flag) => Token::Boolean(*flag),
        }
    }
}

impl Clone for PartialToken {
    /// A copy with the same view.
    fn clone(&self) -> (copy: Self)
        ensures
            copy@ == self@,
    {
        match self {
            PartialToken::Token(token) => PartialToken::Token(token.clone()),
            PartialToken::Literal(run) => PartialToken::Literal(run.clone()),
            PartialToken::Eq => PartialToken::Eq,
            PartialToken::ExclamationMark => PartialToken::ExclamationMark,
            PartialToken::Gt => PartialToken::Gt,
            PartialToken::Lt => PartialToken::Lt,
            PartialToken::Ampersand => PartialToken::Ampersand,
            PartialToken::VerticalBar => PartialToken::VerticalBar,
        }
    }
}

impl TokenView {
    /// Whether the token can end a value expression: a closing brace, an
    /// identifier or a literal. An opening brace cannot.
    pub open spec fn is_value(self) -> bool {
        self is RBrace || self is Identifier || self is Float || self is Int || self is Boolean
    }
}

impl Token {
    /// Whether this token can end a value expression.
    pub fn is_value(&self) -> (value: bool)
        ensures
            value == self@.is_value(),
    {
        match self {
            Token::Plus => false,
            Token::Minus => false,
            Token::Star => false,
            Token::Slash => false,
            Token::Percent => false,
            Token::Eq => false,
            Token::Neq => false,
            Token::Gt => false,
            Token::Lt => false,
            Token::Geq => false,
            Token::Leq => false,
            Token::And => false,
            Token::Or => false,
            Token::Not => false,
            Token::LBrace => false,
            Token::RBrace => true,
            Token::Whitespace => false,
            Token::Identifier(_) => true,
            Token::Float(_) => true,
            Token::Int(_) => true,
            Token::Boolean(_) => true,
        }
    }
}

/// Whether `c` is a white-space character of Unicode: one of the twenty-five
/// code points that Unicode marks as `White_Space`.
pub open spec fn is_whitespace_char(c: char) -> bool {
    ||| ('\u{0009}' <= c && c <= '\u{000D}')
    ||| c == '\u{0020}'
    ||| c == '\u{0085}'
    ||| c == '\u{00A0}'
    ||| c == '\u{1680}'
    ||| ('\u{2000}' <= c && c <= '\u{200A}')
    ||| c == '\u{2028}'
    ||| c == '\u{2029}'
    ||| c == '\u{202F}'
    ||| c == '\u{205F}'
    ||| c == '\u{3000}'
}

/// `char::is_whitespace` tells whether Unicode marks the character as
/// `White_Space`; the contract lists the code points that it marks so.
pub assume_specification[ char::is_whitespace ](c: char) -> (white: bool)
    ensures
        white == is_whitespace_char(c),
;

/// `String::push` appends one character to the end of the string.
pub assume_specification[ std::string::String::push ](text: &mut std::string::String, c: char)
    ensures
        final(text)@ == old(text)@.push(c),
;

/// The partial token that one character gives on its own.
pub open spec fn classify(c: char) -> PartialTokenView {
    if c == '+' {
        PartialTokenView::Token(TokenView::Plus)
    } else if c == '-' {
        PartialTokenView::Token(TokenView::Minus)
    } else if c == '*' {
        PartialTokenView::Token(TokenView::Star)
    } else if c == '/' {
        PartialTokenView::Token(TokenView::Slash)
    } else if c == '%' {
        PartialTokenView::Token(TokenView::Percent)
    } else if c == '=' {
        PartialTokenView::Eq
    } else if c == '!' {
        PartialTokenView::ExclamationMark
    } else if c == '>' {
        PartialTokenView::Gt
    } else if c == '<' {
        PartialTokenView::Lt
    } else if c == '&' {
        PartialTokenView::Ampersand
    } else if c == '|' {
        PartialTokenView::VerticalBar
    } else if c == '(' {
        PartialTokenView::Token(TokenView::LBrace)
    } else if c == ')' {
        PartialTokenView::Token(TokenView::RBrace)
    } else if is_whitespace_char(c) {
        PartialTokenView::Token(TokenView::Whitespace)
    } else {
        PartialTokenView::Literal(seq![c])
    }
}

/// Appends `next` to a merged sequence: a literal run that follows a literal
/// run is joined to it, anything else becomes a new entry.
pub open spec fn push_merged(
    merged: Seq<PartialTokenView>,
    next: PartialTokenView,
) -> Seq<PartialTokenView> {
    if merged.len() == 0 {
        seq![next]
    } else {
        match (merged.last(), next) {
            (
                PartialTokenView::Literal(run),
                PartialTokenView::Literal(more),
            ) => merged.drop_last().push(PartialTokenView::Literal(run + more)),
            _ => merged.push(next),
        }
    }
}

/// The partial tokens of a text: its characters classified one by one, with
/// neighbouring literal runs merged into one.
pub open spec fn partial_tokens(text: Seq<char>) -> Seq<PartialTokenView>
    decreases text.len(),
{
    if text.len() == 0 {
        Seq::empty()
    } else {
        push_merged(partial_tokens(text.drop_last()), classify(text.last()))
    }
}

/// The token that a literal run becomes: an integer if it is an integer
/// literal, else a float if it is a float literal, else a boolean if it is
/// `true` or `false`, else an identifier.
pub open spec fn literal_token(run: Seq<char>) -> TokenView {
    match int_literal(run) {
        Some(number) => TokenView::Int(number),
        None => if is_float_literal(run) {
            TokenView::Float(run)
        } else {
            match bool_literal(run) {
                Some(flag) => TokenView::Boolean(flag),
                None => TokenView::Identifier(run),
            }
        },
    }
}

/// The token that `first` resolves to when `second` follows it, and how many
/// partial tokens that uses up; `None` where `first` cannot be resolved.
pub open spec fn resolve_first(first: PartialTokenView, second: Option<PartialTokenView>) -> Option<
    (TokenView, int),
> {
    match first {
        PartialTokenView::Token(token) => Some((token, 1)),
        PartialTokenView::Literal(run) => Some((literal_token(run), 1)),
        PartialTokenView::Eq => if second == Some(PartialTokenView::Eq) {
            Some((TokenView::Eq, 2))
        } else {
            None
        },
        PartialTokenView::ExclamationMark => if second == Some(PartialTokenView::Eq) {
            Some((TokenView::Eq, 2))
        } else {
            Some((TokenView::Not, 1))
        },
        PartialTokenView::Gt => if second == Some(PartialTokenView::Eq) {
            Some((TokenView::Geq, 2))
        } else {
            Some((TokenView::Gt, 1))
        },
        PartialTokenView::Lt => if second == Some(PartialTokenView::Eq) {
            Some((TokenView::Leq, 2))
        } else {
            Some((TokenView::Lt, 1))
        },
        PartialTokenView::Ampersand => if second == Some(PartialTokenView::Ampersand) {
            Some((TokenView::And, 2))
        } else {
            None
        },
        PartialTokenView::VerticalBar => if second == Some(PartialTokenView::VerticalBar) {
            Some((TokenView::Or, 2))
        } else {
            None
        },
    }
}

/// The partial token after the first one, if there is one.
pub open spec fn second_of(parts: Seq<PartialTokenView>) -> Option<PartialTokenView> {
    if parts.len() > 1 {
        Some(parts[1])
    } else {
        None
    }
}

/// Puts the tokens `done` in front of a result.
pub open spec fn prepend(
    done: Seq<TokenView>,
    rest: Result<Seq<TokenView>, EvalexprErrorView>,
) -> Result<Seq<TokenView>, EvalexprErrorView> {
    match rest {
        Ok(tokens) => Ok(done + tokens),
        Err(error) => Err(error),
    }
}

/// The tokens that a sequence of partial tokens resolves to, from left to
/// right, or the error of the first partial token that cannot be resolved.
///
/// A step uses up one partial token, or two where the second completed the
/// first, so never more than are left; the test of `used` only shows that the
/// recursion ends.
pub open spec fn resolve(parts: Seq<PartialTokenView>) -> Result<Seq<TokenView>, EvalexprErrorView>
    decreases parts.len(),
{
    if parts.len() == 0 {
        Ok(Seq::empty())
    } else {
        match resolve_first(parts[0], second_of(parts)) {
            Some((token, used)) => if 1 <= used <= parts.len() {
                prepend(seq![token], resolve(parts.skip(used)))
            } else {
                Ok(Seq::empty())
            },
            None => Err(
                EvalexprErrorView::UnmatchedPartialToken {
                    first: parts[0],
                    second: second_of(parts),
                },
            ),
        }
    }
}

/// What tokenizing `text` gives: its tokens in order, or the error of the
/// first partial token that cannot be resolved.
pub open spec fn tokenize_spec(text: Seq<char>) -> Result<Seq<TokenView>, EvalexprErrorView> {
    resolve(partial_tokens(text))
}

/// The views of a sequence of partial tokens.
pub open spec fn partial_views(parts: Seq<PartialToken>) -> Seq<PartialTokenView> {
    parts.map_values(|part: PartialToken| part@)
}

/// The views of a sequence of tokens.
pub open spec fn token_views(tokens: Seq<Token>) -> Seq<TokenView> {
    tokens.map_values(|token: Token| token@)
}

/// The view of the result of tokenizing.
pub open spec fn tokens_result_view(result: EvalexprResult<Vec<Token>>) -> Result<
    Seq<TokenView>,
    EvalexprErrorView,
> {
    match result {
        Ok(tokens) => Ok(token_views(tokens@)),
        Err(error) => Err(error@),
    }
}

/// Classifies one character, without looking at its neighbours.
pub fn char_to_partial_token(c: char) -> (partial: PartialToken)
    ensures
        partial@ == classify(c),
{
    match c {
        '+' => PartialToken::Token(Token::Plus),
        '-' => PartialToken::Token(Token::Minus),
        '*' => PartialToken::Token(Token::Star),
        '/' => PartialToken::Token(Token::Slash),
        '%' => PartialToken::Token(Token::Percent),
        '=' => PartialToken::Eq,
        '!' => PartialToken::ExclamationMark,
        '>' => PartialToken::Gt,
        '<' => PartialToken::Lt,
        '&' => PartialToken::Ampersand,
        '|' => PartialToken::VerticalBar,
        '(' => PartialToken::Token(Token::LBrace),
        ')' => PartialToken::Token(Token::RBrace),
        c => {
            if c.is_whitespace() {
                PartialToken::Token(Token::Whitespace)
            } else {
                let mut run = String::new();
                run.push(c);
                assert(run@ =~= seq![c]);
                PartialToken::Literal(run)
            }
        },
    }
}

/// Converts a string to its partial tokens.
pub fn str_to_tokens(string: &str) -> (result: Vec<PartialToken>)
    ensures
        partial_views(result@) == partial_tokens(string@),
        result@.len() <= string@.len(),
{
    let mut result: Vec<PartialToken> = Vec::new();
    assert(partial_views(result@) =~= partial_tokens(string@.take(0)));
    for c in it: string.chars()
        invariant
            it.seq() == string@,
            partial_views(result@) == partial_tokens(string@.take(it.index())),
    {
        let ghost before = partial_views(result@);
        let ghost prefix = string@.take(it.index() + 1);
        let partial = char_to_partial_token(c);
        let merged = match partial {
            PartialToken::Literal(text) => match result.pop() {
                Some(PartialToken::Literal(run)) => {
                    let mut run = run;
                    run.append(text.as_str());
                    PartialToken::Literal(run)
                },
                Some(other) => {
                    result.push(other);
                    PartialToken::Literal(text)
                },
                None => PartialToken::Literal(text),
            },
            other => other,
        };
        result.push(merged);
        proof {
            assert(prefix.drop_last() =~= string@.take(it.index()));
            assert(prefix.last() == c);
            assert(partial_views(result@) =~= push_merged(before, classify(c)));
        }
    }
    proof {
        assert(string@.take(string@.len() as int) =~= string@);
        lemma_partial_tokens_len(string@);
    }
    result
}

/// Resolves one literal run to the token it spells.
pub fn literal_to_token(literal: &String) -> (token: Token)
    ensures
        token@ == literal_token(literal@),
{
    if let Some(number) = parse_int(literal.as_str()) {
        Token::Int(number)
    } else if is_float(literal.as_str()) {
        Token::Float(literal.clone())
    } else if let Some(flag) = parse_bool(literal.as_str()) {
        Token::Boolean(flag)
    } else {
        Token::Identifier(literal.clone())
    }
}

/// Copies an optional partial token.
fn clone_second(second: Option<&PartialToken>) -> (copy: Option<PartialToken>)
    ensures
        optional_partial_view(copy) == match second {
            Some(partial) => Some(partial@),
            None => None,
        },
{
    match second {
        Some(partial) => Some(partial.clone()),
        None => None,
    }
}

/// Resolves all partial tokens to tokens, reading each with the one after it.
pub fn resolve_literals(tokens: &[PartialToken]) -> (result: EvalexprResult<Vec<Token>>)
    ensures
        tokens_result_view(result) == resolve(partial_views(tokens@)),
{
    let ghost parts = partial_views(tokens@);
    let mut result: Vec<Token> = Vec::new();
    let mut i: usize = 0;
    assert(parts.skip(0) =~= parts);
    assert(token_views(result@) + resolve(parts)->Ok_0 =~= resolve(parts)->Ok_0);
    while i < tokens.len()
        invariant
            i <= tokens.len(),
            parts == partial_views(tokens@),
            resolve(parts) == prepend(token_views(result@), resolve(parts.skip(i as int))),
        decreases tokens.len() - i,
    {
        let ghost rest = parts.skip(i as int);
        let ghost done = token_views(result@);
        let first = &tokens[i];
        let second: Option<&PartialToken> = if i + 1 < tokens.len() {
            Some(&tokens[i + 1])
        } else {
            None
        };
        assert(rest[0] == first@);
        assert(second_of(rest) == match second {
            Some(partial) => Some(partial@),
            None => None,
        });
        let mut cutoff: usize = 2;
        let token = match first {
            PartialToken::Token(token) => {
                cutoff = 1;
                token.clone()
            },
            PartialToken::Literal(literal) => {
                cutoff = 1;
                literal_to_token(literal)
            },
            PartialToken::Eq => match second {
                Some(PartialToken::Eq) => Token::Eq,
                _ => return Err(
                    EvalexprError::unmatched_partial_token(first.clone(), clone_second(second)),
                ),
            },
            PartialToken::ExclamationMark => match second {
                Some(PartialToken::Eq) => Token::Eq,
                _ => {
                    cutoff = 1;
                    Token::Not
                },
            },
            PartialToken::Gt => match second {
                Some(PartialToken::Eq) => Token::Geq,
                _ => {
                    cutoff = 1;
                    Token::Gt
                },
            },
            PartialToken::Lt => match second {
                Some(PartialToken::Eq) => Token::Leq,
                _ => {
                    cutoff = 1;
                    Token::Lt
                },
            },
            PartialToken::Ampersand => match second {
                Some(PartialToken::Ampersand) => Token::And,
                _ => return Err(
                    EvalexprError::unmatched_partial_token(first.clone(), clone_second(second)),
                ),
            },
            PartialToken::VerticalBar => match second {
                Some(PartialToken::VerticalBar) => Token::Or,
                _ => return Err(
                    EvalexprError::unmatched_partial_token(first.clone(), clone_second(second)),
                ),
            },
        };
        assert(resolve_first(rest[0], second_of(rest)) == Some((token@, cutoff as int)));
        result.push(token);
        i += cutoff;
        proof {
            assert(rest.skip(cutoff as int) =~= parts.skip(i as int));
            assert(token_views(result@) =~= done.push(token@));
            match resolve(parts.skip(i as int)) {
                Ok(tail) => {
                    assert(done + (seq![token@] + tail) =~= done.push(token@) + tail);
                },
                Err(_) => {},
            }
        }
    }
    assert(token_views(result@) + Seq::<TokenView>::empty() =~= token_views(result@));
    Ok(result)
}

/// Splits `string` into tokens. White space is kept, as `Token::Whitespace`.
/// Fails on the first `=`, `&` or `|` that no second character completes, and
/// in no other way.
pub fn tokenize(string: &str) -> (result: EvalexprResult<Vec<Token>>)
    ensures
        tokens_result_view(result) == tokenize_spec(string@),
        result matches Ok(tokens) ==> tokens@.len() <= string@.len(),
        result matches Err(error) ==> error@ is UnmatchedPartialToken,
{
    let parts = str_to_tokens(string);
    let result = resolve_literals(parts.as_slice());
    proof {
        if result is Ok {
            lemma_tokenize_tokens(string@);
        } else {
            lemma_resolve_error(partial_tokens(string@));
        }
    }
    result
}

} // verus!
