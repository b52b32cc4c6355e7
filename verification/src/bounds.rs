//! What holds of every result of the two phases of tokenizing: how long they
//! can be, which entries can stand side by side, and which tokens and errors
//! can come out.

use crate::error::EvalexprErrorView;
use crate::token::{
    classify, partial_tokens, push_merged, resolve, resolve_first, second_of, tokenize_spec,
    PartialTokenView, TokenView,
};
use vstd::prelude::*;

verus! {

/// Whether every character of a run starts or continues a literal run:
/// none is white space or part of an operator.
pub open spec fn plain_run(run: Seq<char>) -> bool {
    forall|i: int| 0 <= i < run.len() ==> (#[trigger] classify(run[i])) is Literal
}

/// Whether a partial token is one that text can give: not the token `!=`,
/// which no single character spells, and, for a literal run, not empty and
/// free of characters that are tokens of their own.
pub open spec fn from_text(part: PartialTokenView) -> bool {
    match part {
        PartialTokenView::Token(token) => token != TokenView::Neq,
        PartialTokenView::Literal(run) => run.len() > 0 && plain_run(run),
        _ => true,
    }
}

/// Whether every entry is one that text can give.
pub open spec fn all_from_text(parts: Seq<PartialTokenView>) -> bool {
    forall|i: int| 0 <= i < parts.len() ==> from_text(#[trigger] parts[i])
}

/// Whether no two literal runs stand side by side.
pub open spec fn runs_apart(parts: Seq<PartialTokenView>) -> bool {
    forall|i: int, j: int|
        0 <= i && j == i + 1 && j < parts.len() ==> !(#[trigger] parts[i] is Literal
            && #[trigger] parts[j] is Literal)
}

/// The merged sequence is no longer than the text, and empty only for the
/// empty text.
pub proof fn lemma_partial_tokens_len(text: Seq<char>)
    ensures
        partial_tokens(text).len() <= text.len(),
        text.len() > 0 ==> partial_tokens(text).len() > 0,
    decreases text.len(),
{
    if text.len() > 0 {
        lemma_partial_tokens_len(text.drop_last());
    }
}

/// The merged sequence holds only entries that text can give: literal runs
/// are not empty and hold no operator or white-space character.
pub proof fn lemma_partial_tokens_from_text(text: Seq<char>)
    ensures
        all_from_text(partial_tokens(text)),
    decreases text.len(),
{
    if text.len() > 0 {
        let before = partial_tokens(text.drop_last());
        let next = classify(text.last());
        let merged = partial_tokens(text);
        lemma_partial_tokens_from_text(text.drop_last());
        assert(merged == push_merged(before, next));
        if before.len() > 0 && before.last() is Literal && next is Literal {
            let run = before.last()->Literal_0;
            let joined = run + seq![text.last()];
            assert(from_text(before[before.len() - 1]));
            assert(merged =~= before.drop_last().push(PartialTokenView::Literal(joined)));
            assert forall|i: int| 0 <= i < joined.len() implies (#[trigger] classify(
                joined[i],
            )) is Literal by {
                if i < run.len() {
                    assert(joined[i] == run[i]);
                } else {
                    assert(joined[i] == text.last());
                }
            }
            assert forall|i: int| 0 <= i < merged.len() implies from_text(
                #[trigger] merged[i],
            ) by {
                if i < merged.len() - 1 {
                    assert(merged[i] == before[i]);
                }
            }
        } else {
            assert(merged =~= before.push(next));
            assert(next is Literal ==> next->Literal_0 =~= seq![text.last()]);
            assert(from_text(next)) by {
                if next is Literal {
                    assert(next->Literal_0[0] == text.last());
                }
            }
            assert forall|i: int| 0 <= i < merged.len() implies from_text(
                #[trigger] merged[i],
            ) by {
                if i < before.len() {
                    assert(merged[i] == before[i]);
                }
            }
        }
    }
}

/// The merged sequence never holds two literal runs side by side: every run is
/// as long as it can be.
pub proof fn lemma_partial_tokens_runs_apart(text: Seq<char>)
    ensures
        runs_apart(partial_tokens(text)),
    decreases text.len(),
{
    if text.len() > 0 {
        let before = partial_tokens(text.drop_last());
        let next = classify(text.last());
        let merged = partial_tokens(text);
        lemma_partial_tokens_runs_apart(text.drop_last());
        assert(merged == push_merged(before, next));
        if before.len() > 0 && before.last() is Literal && next is Literal {
            let joined = before.last()->Literal_0 + next->Literal_0;
            assert(merged =~= before.drop_last().push(PartialTokenView::Literal(joined)));
            assert forall|i: int, j: int| 0 <= i && j == i + 1 && j < merged.len() implies !(
            #[trigger] merged[i] is Literal && #[trigger] merged[j] is Literal) by {
                assert(merged[i] == before[i]);
                assert(before[j] is Literal <==> merged[j] is Literal);
            }
        } else {
            assert(merged =~= before.push(next));
            assert forall|i: int, j: int| 0 <= i && j == i + 1 && j < merged.len() implies !(
            #[trigger] merged[i] is Literal && #[trigger] merged[j] is Literal) by {
                assert(merged[i] == before[i]);
                if j < before.len() {
                    assert(merged[j] == before[j]);
                }
            }
        }
    }
}

/// A step of resolving uses up one partial token or two, and never more than
/// are left.
pub proof fn lemma_step_within_bounds(parts: Seq<PartialTokenView>)
    requires
        parts.len() > 0,
        resolve_first(parts[0], second_of(parts)) is Some,
    ensures
        1 <= resolve_first(parts[0], second_of(parts))->Some_0.1 <= 2,
        resolve_first(parts[0], second_of(parts))->Some_0.1 <= parts.len(),
{
}

/// Resolving uses up one or two partial tokens for each token, and gives the
/// token `!=` only where it was among the partial tokens.
pub proof fn lemma_resolve_tokens(parts: Seq<PartialTokenView>)
    requires
        resolve(parts) is Ok,
    ensures
        resolve(parts)->Ok_0.len() <= parts.len() <= 2 * resolve(parts)->Ok_0.len(),
        (forall|i: int|
            0 <= i < parts.len() ==> #[trigger] parts[i] != PartialTokenView::Token(
                TokenView::Neq,
            )) ==> (forall|i: int|
            0 <= i < resolve(parts)->Ok_0.len() ==> #[trigger] resolve(parts)->Ok_0[i]
                != TokenView::Neq),
    decreases parts.len(),
{
    if parts.len() > 0 {
        let step = resolve_first(parts[0], second_of(parts));
        let (token, used) = step->Some_0;
        let rest = parts.skip(used);
        let tokens = resolve(parts)->Ok_0;
        lemma_resolve_tokens(rest);
        assert(tokens =~= seq![token] + resolve(rest)->Ok_0);
        if forall|i: int|
            0 <= i < parts.len() ==> #[trigger] parts[i] != PartialTokenView::Token(
                TokenView::Neq,
            ) {
            assert(parts[0] != PartialTokenView::Token(TokenView::Neq));
            assert(token != TokenView::Neq);
            assert forall|i: int| 0 <= i < rest.len() implies #[trigger] rest[i]
                != PartialTokenView::Token(TokenView::Neq) by {
                assert(rest[i] == parts[i + used]);
            }
            assert forall|i: int| 0 <= i < tokens.len() implies #[trigger] tokens[i]
                != TokenView::Neq by {
                if i > 0 {
                    assert(tokens[i] == resolve(rest)->Ok_0[i - 1]);
                }
            }
        }
    }
}

/// Resolving fails only with an unmatched partial token: a `=`, `&` or `|`
/// that is not followed by its twin. The error carries that partial token and
/// the one after it.
pub proof fn lemma_resolve_error(parts: Seq<PartialTokenView>)
    requires
        resolve(parts) is Err,
    ensures
        exists|at: int|
            0 <= at < parts.len() && resolve(parts)->Err_0 == (
            EvalexprErrorView::UnmatchedPartialToken {
                first: parts[at],
                second: second_of(parts.skip(at)),
            }) && (parts[at] == PartialTokenView::Eq || parts[at] == PartialTokenView::Ampersand
                || parts[at] == PartialTokenView::VerticalBar) && second_of(parts.skip(at))
                != Some(parts[at]),
    decreases parts.len(),
{
    let step = resolve_first(parts[0], second_of(parts));
    if step is None {
        assert(parts.skip(0) =~= parts);
    } else {
        let used = step->Some_0.1;
        let rest = parts.skip(used);
        lemma_resolve_error(rest);
        let at = choose|at: int|
            0 <= at < rest.len() && resolve(rest)->Err_0 == (
            EvalexprErrorView::UnmatchedPartialToken {
                first: rest[at],
                second: second_of(rest.skip(at)),
            }) && (rest[at] == PartialTokenView::Eq || rest[at] == PartialTokenView::Ampersand
                || rest[at] == PartialTokenView::VerticalBar) && second_of(rest.skip(at)) != Some(
                rest[at],
            );
        assert(rest.skip(at) =~= parts.skip(at + used));
        assert(rest[at] == parts[at + used]);
    }
}

/// Tokenizing gives at most one token for each character, and never the token
/// `!=`: the characters `!` and `=` side by side resolve to the token `==`.
pub proof fn lemma_tokenize_tokens(text: Seq<char>)
    requires
        tokenize_spec(text) is Ok,
    ensures
        tokenize_spec(text)->Ok_0.len() <= text.len(),
        forall|i: int|
            0 <= i < tokenize_spec(text)->Ok_0.len() ==> #[trigger] tokenize_spec(text)->Ok_0[i]
                != TokenView::Neq,
{
    let parts = partial_tokens(text);
    lemma_partial_tokens_len(text);
    lemma_partial_tokens_from_text(text);
    assert forall|i: int| 0 <= i < parts.len() implies #[trigger] parts[i]
        != PartialTokenView::Token(TokenView::Neq) by {
        assert(from_text(parts[i]));
    }
    lemma_resolve_tokens(parts);
}

} // verus!
