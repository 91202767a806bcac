//! What holds of the converter over every state and every event.

use vstd::prelude::*;

use crate::amount::{all_digits, is_amount_prefix, is_digit, splits_as_amount};
use crate::currency::{leading_code, lemma_label_leads_with_code, Currency};
use crate::exchange::{outcome_of, FailureReason, OutcomeView, QuoteView, ReplyView};
use crate::machine::{
    effect_of, next_state, phase_of, request_of, selections_differ, valid_form, with_from,
    with_to, ConverterView, EffectView, EventView, FormView, Phase,
};

verus! {

/// Picking as source the currency that is the target makes the two change
/// places: the pick becomes the source, the former source becomes the
/// target, and the two still differ.
pub proof fn lemma_select_from_swaps(form: FormView, pick: Currency)
    requires
        selections_differ(form),
        form.selected_to == pick,
    ensures
        with_from(form, pick).selected_from == pick,
        with_from(form, pick).selected_to == form.selected_from,
        with_from(form, pick).amount == form.amount,
        selections_differ(with_from(form, pick)),
{
}

/// Picking as target the currency that is the source makes the two change
/// places: the pick becomes the target, the former target becomes the
/// source, and the two still differ.
pub proof fn lemma_select_to_swaps(form: FormView, pick: Currency)
    requires
        selections_differ(form),
        form.selected_from == pick,
    ensures
        with_to(form, pick).selected_to == pick,
        with_to(form, pick).selected_from == form.selected_to,
        with_to(form, pick).amount == form.amount,
        selections_differ(with_to(form, pick)),
{
}

/// No event brings the two selections together.
pub proof fn lemma_selections_stay_apart(state: ConverterView, event: EventView)
    requires
        selections_differ(state.form),
    ensures
        selections_differ(next_state(state, event).form),
{
}

/// No event leaves the form with an amount that breaks the amount
/// grammar, or with two equal selections.
pub proof fn lemma_form_stays_valid(state: ConverterView, event: EventView)
    requires
        valid_form(state.form),
    ensures
        valid_form(next_state(state, event).form),
{
}

/// A string follows the amount grammar exactly when it holds nothing but
/// digits and decimal points, and no more than one decimal point.
pub proof fn lemma_amount_prefix_by_characters(s: Seq<char>)
    ensures
        is_amount_prefix(s) <==> {
            &&& forall|k: int| 0 <= k < s.len() ==> is_digit(#[trigger] s[k]) || s[k] == '.'
            &&& forall|p: int, q: int|
                0 <= p < q < s.len() ==> !(#[trigger] s[p] == '.' && #[trigger] s[q] == '.')
        },
{
    let by_characters = {
        &&& forall|k: int| 0 <= k < s.len() ==> is_digit(#[trigger] s[k]) || s[k] == '.'
        &&& forall|p: int, q: int|
            0 <= p < q < s.len() ==> !(#[trigger] s[p] == '.' && #[trigger] s[q] == '.')
    };
    if is_amount_prefix(s) {
        let (i, j) = choose|i: int, j: int| splits_as_amount(s, i, j);
        assert forall|k: int| 0 <= k < s.len() implies is_digit(#[trigger] s[k]) || s[k] == '.' by {
            if k < i {
                assert(s.subrange(0, i)[k] == s[k]);
            } else if k >= j {
                assert(s.subrange(j, s.len() as int)[k - j] == s[k]);
            }
        }
        assert forall|p: int, q: int| 0 <= p < q < s.len() implies !(#[trigger] s[p] == '.'
            && #[trigger] s[q] == '.') by {
            if p < i {
                assert(s.subrange(0, i)[p] == s[p]);
            } else if p >= j {
                assert(s.subrange(j, s.len() as int)[p - j] == s[p]);
            }
            if q < i {
                assert(s.subrange(0, i)[q] == s[q]);
            } else if q >= j {
                assert(s.subrange(j, s.len() as int)[q - j] == s[q]);
            }
        }
    }
    if by_characters {
        if exists|p: int| 0 <= p < s.len() && s[p] == '.' {
            let p = choose|p: int| 0 <= p < s.len() && s[p] == '.';
            assert(all_digits(s.subrange(0, p))) by {
                assert forall|k: int| 0 <= k < p implies is_digit(#[trigger] s.subrange(0, p)[k]) by {
                    assert(s.subrange(0, p)[k] == s[k]);
                }
            }
            assert(all_digits(s.subrange(p + 1, s.len() as int))) by {
                assert forall|k: int| 0 <= k < s.len() - p - 1 implies is_digit(
                    #[trigger] s.subrange(p + 1, s.len() as int)[k],
                ) by {
                    assert(s.subrange(p + 1, s.len() as int)[k] == s[k + p + 1]);
                }
            }
            assert(splits_as_amount(s, p, p + 1));
        } else {
            assert(all_digits(s.subrange(0, s.len() as int))) by {
                assert forall|k: int| 0 <= k < s.len() implies is_digit(
                    #[trigger] s.subrange(0, s.len() as int)[k],
                ) by {
                    assert(s.subrange(0, s.len() as int)[k] == s[k]);
                }
            }
            assert(splits_as_amount(s, s.len() as int, s.len() as int));
        }
    }
}

/// An amount that does not follow the grammar changes nothing and asks
/// for nothing.
pub proof fn lemma_rejected_amount_is_absorbed(state: ConverterView, text: Seq<char>)
    requires
        !is_amount_prefix(text),
    ensures
        next_state(state, EventView::SetAmount(text)) == state,
        effect_of(state, EventView::SetAmount(text)) == EffectView::Nothing,
{
}

/// An amount that follows the grammar replaces the amount, and nothing
/// else.
pub proof fn lemma_accepted_amount_is_stored(state: ConverterView, text: Seq<char>)
    requires
        is_amount_prefix(text),
    ensures
        next_state(state, EventView::SetAmount(text)).form.amount == text,
        next_state(state, EventView::SetAmount(text)).form.selected_from
            == state.form.selected_from,
        next_state(state, EventView::SetAmount(text)).form.selected_to == state.form.selected_to,
        next_state(state, EventView::SetAmount(text)).outcome == state.outcome,
{
}

/// Edits and picks are taken in every phase; they leave the outcome, and
/// with it the phase, as they were, and send no request.
pub proof fn lemma_edits_send_nothing(state: ConverterView, event: EventView)
    requires
        event is SetAmount || event is SelectFrom || event is SelectTo,
    ensures
        next_state(state, event).outcome == state.outcome,
        effect_of(state, event) == EffectView::Nothing,
{
}

/// A submission makes the converter pending, leaves the form alone and
/// asks for the request that the form stands for: the codes of the two
/// selections, which are what their labels lead with, and the amount.
pub proof fn lemma_submission_sends_the_form(state: ConverterView)
    ensures
        next_state(state, EventView::SubmitConversion).outcome == OutcomeView::Pending,
        phase_of(next_state(state, EventView::SubmitConversion).outcome) == Phase::Pending,
        next_state(state, EventView::SubmitConversion).form == state.form,
        effect_of(state, EventView::SubmitConversion) == EffectView::Convert(
            request_of(state.form),
        ),
        leading_code(state.form.selected_from.label_text()) == Some(request_of(state.form).from),
        leading_code(state.form.selected_to.label_text()) == Some(request_of(state.form).to),
        request_of(state.form).amount == state.form.amount,
{
    lemma_label_leads_with_code(state.form.selected_from);
    lemma_label_leads_with_code(state.form.selected_to);
}

/// Every reply brings the converter back to idle, whatever it was before,
/// and leaves the form alone.
pub proof fn lemma_reply_returns_to_idle(state: ConverterView, reply: ReplyView)
    ensures
        phase_of(next_state(state, EventView::ReceiveResult(reply)).outcome) == Phase::Idle,
        next_state(state, EventView::ReceiveResult(reply)).form == state.form,
        effect_of(state, EventView::ReceiveResult(reply)) == EffectView::Nothing,
{
}

/// A reply succeeds exactly when it was decoded and reports success; a
/// decoded reply that reports no success fails as rejected by the service.
pub proof fn lemma_rejection_fails(state: ConverterView, quote: QuoteView)
    ensures
        !quote.success ==> next_state(
            state,
            EventView::ReceiveResult(ReplyView::Decoded(quote)),
        ).outcome == (OutcomeView::Failed { reason: FailureReason::RemoteRejected }),
        quote.success ==> next_state(
            state,
            EventView::ReceiveResult(ReplyView::Decoded(quote)),
        ).outcome == (OutcomeView::Succeeded {
            requested_amount: quote.amount,
            from: quote.from,
            to: quote.to,
            converted_amount: quote.result,
        }),
{
}

/// Replies are applied in the order in which they arrive, not in the
/// order of the requests: after two submissions, when the second request's
/// reply arrives before the first's, the outcome is what the reply that
/// arrived last amounts to.
pub proof fn lemma_last_reply_wins(
    state: ConverterView,
    first_reply: ReplyView,
    second_reply: ReplyView,
)
    ensures
        ({
            let submitted = next_state(
                next_state(state, EventView::SubmitConversion),
                EventView::SubmitConversion,
            );
            let halfway = next_state(submitted, EventView::ReceiveResult(second_reply));
            let settled = next_state(halfway, EventView::ReceiveResult(first_reply));
            &&& submitted.outcome == OutcomeView::Pending
            &&& halfway.outcome == outcome_of(second_reply)
            &&& settled.outcome == outcome_of(first_reply)
            &&& settled.form == state.form
        }),
{
}

} // verus!
