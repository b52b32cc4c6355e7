//! How tokenizing behaves under concatenation of texts.

use crate::bounds::lemma_partial_tokens_len;
use crate::error::EvalexprErrorView;
use crate::token::{
    classify, is_whitespace_char, partial_tokens, prepend, push_merged, resolve, resolve_first,
    second_of, tokenize_spec, PartialTokenView, TokenView,
};
use vstd::prelude::*;

verus! {

/// Whether no literal run can reach from the end of `front` into the start of
/// `back`: one of the two is empty, or one of the two characters at the seam
/// belongs to no literal run.
pub open spec fn runs_end_at_seam(front: Seq<char>, back: Seq<char>) -> bool {
    ||| front.len() == 0
    ||| back.len() == 0
    ||| !(classify(front.last()) is Literal)
    ||| !(classify(back[0]) is Literal)
}

/// Whether `=` is the first of `back` and could complete the last of `front`,
/// where that is a character that reads ahead.
pub open spec fn pairs_at_seam(front: Seq<PartialTokenView>, back: Seq<PartialTokenView>) -> bool {
    &&& front.len() > 0
    &&& back.len() > 0
    &&& back[0] == PartialTokenView::Eq
    &&& !(front.last() is Token)
    &&& !(front.last() is Literal)
}

/// The last partial token of a text whose last character belongs to no
/// literal run is that character's own.
pub proof fn lemma_partial_tokens_last(text: Seq<char>)
    requires
        text.len() > 0,
        !(classify(text.last()) is Literal),
    ensures
        partial_tokens(text).len() > 0,
        partial_tokens(text).last() == classify(text.last()),
{
    let before = partial_tokens(text.drop_last());
    assert(partial_tokens(text) == push_merged(before, classify(text.last())));
}

/// Where no literal run crosses the seam, the partial tokens of `front + back`
/// are those of `front` followed by those of `back`.
pub proof fn lemma_partial_tokens_concat(front: Seq<char>, back: Seq<char>)
    requires
        runs_end_at_seam(front, back),
    ensures
        partial_tokens(front + back) == partial_tokens(front) + partial_tokens(back),
    decreases back.len(),
{
    let left = partial_tokens(front);
    if back.len() == 0 {
        assert(front + back =~= front);
        assert(left + partial_tokens(back) =~= left);
    } else {
        let next = classify(back.last());
        let right = partial_tokens(back.drop_last());
        assert((front + back).drop_last() =~= front + back.drop_last());
        assert((front + back).last() == back.last());
        if back.len() == 1 {
            assert(back.drop_last() =~= Seq::<char>::empty());
            assert(front + back.drop_last() =~= front);
            assert(left + right =~= left);
            if left.len() == 0 {
                assert(left + seq![next] =~= seq![next]);
            } else {
                lemma_partial_tokens_len(front);
                if front.len() > 0 && !(classify(front.last()) is Literal) {
                    lemma_partial_tokens_last(front);
                }
                assert(push_merged(left, next) =~= left + seq![next]);
            }
        } else {
            assert(back.drop_last()[0] == back[0]);
            lemma_partial_tokens_concat(front, back.drop_last());
            lemma_partial_tokens_len(back.drop_last());
            assert((left + right).last() == right.last());
            assert((left + right).drop_last() =~= left + right.drop_last());
            assert(push_merged(left + right, next) =~= left + push_merged(right, next));
        }
    }
}

/// Partial tokens that resolve on their own resolve to the same tokens when
/// more partial tokens follow, unless the first of those is a `=` that could
/// complete the last of them.
pub proof fn lemma_resolve_concat(front: Seq<PartialTokenView>, back: Seq<PartialTokenView>)
    requires
        resolve(front) is Ok,
        !pairs_at_seam(front, back),
    ensures
        resolve(front + back) == prepend(resolve(front)->Ok_0, resolve(back)),
    decreases front.len(),
{
    if front.len() == 0 {
        assert(front + back =~= back);
        match resolve(back) {
            Ok(tokens) => {
                assert(Seq::<TokenView>::empty() + tokens =~= tokens);
            },
            Err(_) => {},
        }
    } else {
        let whole = front + back;
        assert(whole[0] == front[0]);
        let step = resolve_first(front[0], second_of(front));
        assert(step is Some);
        let (token, used) = step->Some_0;
        assert(resolve_first(whole[0], second_of(whole)) == step) by {
            if front.len() >= 2 {
                assert(whole[1] == front[1]);
            } else if back.len() > 0 {
                assert(whole[1] == back[0]);
                assert(front.last() == front[0]);
            }
        }
        let rest = front.skip(used);
        assert(whole.skip(used) =~= rest + back);
        if rest.len() > 0 {
            assert(rest.last() == front.last());
        }
        lemma_resolve_concat(rest, back);
        let middle = resolve(rest)->Ok_0;
        match resolve(back) {
            Ok(tokens) => {
                assert(seq![token] + (middle + tokens) =~= (seq![token] + middle) + tokens);
            },
            Err(_) => {},
        }
    }
}

/// Tokenizing two texts one after the other gives the tokens of the first
/// followed by the tokens of the second, whenever each text can be tokenized
/// on its own and white space separates them: the first ends in a white-space
/// character or the second starts with one, or one of them is empty.
pub proof fn lemma_tokenize_concat(first: Seq<char>, second: Seq<char>)
    requires
        tokenize_spec(first) is Ok,
        tokenize_spec(second) is Ok,
        first.len() == 0 || second.len() == 0 || is_whitespace_char(first.last())
            || is_whitespace_char(second[0]),
    ensures
        tokenize_spec(first + second) == Ok::<Seq<TokenView>, EvalexprErrorView>(
            tokenize_spec(first)->Ok_0 + tokenize_spec(second)->Ok_0,
        ),
{
    let gap = PartialTokenView::Token(TokenView::Whitespace);
    let left = partial_tokens(first);
    let right = partial_tokens(second);
    lemma_partial_tokens_concat(first, second);
    lemma_partial_tokens_len(first);
    lemma_partial_tokens_len(second);
    if first.len() > 0 && second.len() > 0 {
        if is_whitespace_char(first.last()) {
            assert(classify(first.last()) == gap);
            lemma_partial_tokens_last(first);
        } else {
            assert(classify(second[0]) == gap);
            lemma_partial_tokens_first(second);
        }
    }
    lemma_resolve_concat(left, right);
}

/// The first partial token of a text whose first character belongs to no
/// literal run is that character's own.
pub proof fn lemma_partial_tokens_first(text: Seq<char>)
    requires
        text.len() > 0,
        !(classify(text[0]) is Literal),
    ensures
        partial_tokens(text).len() > 0,
        partial_tokens(text)[0] == classify(text[0]),
    decreases text.len(),
{
    let before = partial_tokens(text.drop_last());
    assert(partial_tokens(text) == push_merged(before, classify(text.last())));
    if text.len() > 1 {
        assert(text.drop_last()[0] == text[0]);
        lemma_partial_tokens_first(text.drop_last());
    }
}

/// Tokenizing two texts joined by a white-space character gives the tokens of
/// the first, a white-space token, and the tokens of the second, whenever each
/// text can be tokenized on its own.
pub proof fn lemma_tokenize_separated(first: Seq<char>, space: char, second: Seq<char>)
    requires
        is_whitespace_char(space),
        tokenize_spec(first) is Ok,
        tokenize_spec(second) is Ok,
    ensures
        tokenize_spec(first + seq![space] + second) == Ok::<Seq<TokenView>, EvalexprErrorView>(
            tokenize_spec(first)->Ok_0 + seq![TokenView::Whitespace] + tokenize_spec(second)->Ok_0,
        ),
{
    let gap = PartialTokenView::Token(TokenView::Whitespace);
    let middle = seq![space];
    assert(classify(space) == gap);
    assert(middle.drop_last() =~= Seq::<char>::empty());
    assert(partial_tokens(middle) =~= seq![gap]) by {
        assert(partial_tokens(middle) == push_merged(
            partial_tokens(middle.drop_last()),
            classify(middle.last()),
        ));
    }
    assert(partial_tokens(middle).skip(1) =~= Seq::<PartialTokenView>::empty());
    assert(tokenize_spec(middle) == Ok::<Seq<TokenView>, EvalexprErrorView>(
        seq![TokenView::Whitespace],
    )) by {
        let parts = partial_tokens(middle);
        assert(resolve(parts.skip(1)) == Ok::<Seq<TokenView>, EvalexprErrorView>(Seq::empty()));
        assert(seq![TokenView::Whitespace] + Seq::<TokenView>::empty() =~= seq![
            TokenView::Whitespace,
        ]);
    }
    lemma_tokenize_concat(first, middle);
    lemma_tokenize_concat(first + middle, second);
}

} // verus!
