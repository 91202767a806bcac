//! The conversion state machine: the form the user edits, the outcome of
//! the latest conversion, and the transition that every event goes through.

use vstd::prelude::*;
use vstd::string::*;

use crate::amount::{is_amount_prefix, is_valid_prefix, splits_as_amount};
use crate::currency::{lemma_codes_are_unique, Currency};
use crate::exchange::{
    classify, outcome_of, ConversionOutcome, ConversionRequest, ExchangeReply, OutcomeView,
    ReplyView, RequestView,
};

verus! {

/// What the user has entered: the amount as typed and the two selections.
/// The two selections always differ, and the amount always follows the
/// amount grammar.
#[derive(Debug)]
pub struct FormState {
    amount: String,
    selected_from: Currency,
    selected_to: Currency,
}

/// A [`FormState`] as plain values.
pub ghost struct FormView {
    pub amount: Seq<char>,
    pub selected_from: Currency,
    pub selected_to: Currency,
}

/// The two selections differ.
pub open spec fn selections_differ(form: FormView) -> bool {
    form.selected_from != form.selected_to
}

/// What holds of every form: the two selections differ, and the amount
/// follows the amount grammar.
pub open spec fn valid_form(form: FormView) -> bool {
    selections_differ(form) && is_amount_prefix(form.amount)
}

impl View for FormState {
    type V = FormView;

    closed spec fn view(&self) -> FormView {
        FormView {
            amount: self.amount@,
            selected_from: self.selected_from,
            selected_to: self.selected_to,
        }
    }
}

/// The form after the source currency was picked: where the pick is the
/// current target, the two selections change places.
pub open spec fn with_from(form: FormView, currency: Currency) -> FormView {
    FormView {
        amount: form.amount,
        selected_from: currency,
        selected_to: if currency == form.selected_to {
            form.selected_from
        } else {
            form.selected_to
        },
    }
}

/// The form after the target currency was picked: where the pick is the
/// current source, the two selections change places.
pub open spec fn with_to(form: FormView, currency: Currency) -> FormView {
    FormView {
        amount: form.amount,
        selected_from: if currency == form.selected_from {
            form.selected_to
        } else {
            form.selected_from
        },
        selected_to: currency,
    }
}

/// The form after `text` was offered for the amount field: taken where it
/// follows the amount grammar, dropped where it does not.
pub open spec fn with_amount(form: FormView, text: Seq<char>) -> FormView {
    if is_amount_prefix(text) {
        FormView { amount: text, selected_from: form.selected_from, selected_to: form.selected_to }
    } else {
        form
    }
}

/// The request that a form stands for: the codes of its two selections and
/// its amount, verbatim.
pub open spec fn request_of(form: FormView) -> RequestView {
    RequestView {
        from: form.selected_from.code_text(),
        to: form.selected_to.code_text(),
        amount: form.amount,
    }
}

impl FormState {
    /// Holds of every form there is: see [`valid_form`].
    #[verifier::type_invariant]
    spec fn well_formed(&self) -> bool {
        self.selected_from != self.selected_to && is_amount_prefix(self.amount@)
    }

    /// The form at start-up: one unit, from roubles to dollars.
    pub fn new() -> (form: FormState)
        ensures
            form@.amount == "1.00"@,
            form@.selected_from == Currency::RUB,
            form@.selected_to == Currency::USD,
            valid_form(form@),
    {
        proof {
            reveal_strlit("1.00");
            assert(splits_as_amount("1.00"@, 1, 2));
        }
        FormState {
            amount: String::from_str("1.00"),
            selected_from: Currency::RUB,
            selected_to: Currency::USD,
        }
    }

    /// The amount as typed. It follows the amount grammar.
    pub fn amount(&self) -> (text: &str)
        ensures
            text@ == self@.amount,
            is_amount_prefix(text@),
    {
        proof {
            use_type_invariant(self);
        }
        self.amount.as_str()
    }

    /// The source currency. It is never the target currency.
    pub fn selected_from(&self) -> (currency: Currency)
        ensures
            currency == self@.selected_from,
            currency != self@.selected_to,
    {
        proof {
            use_type_invariant(self);
        }
        self.selected_from
    }

    /// The target currency. It is never the source currency.
    pub fn selected_to(&self) -> (currency: Currency)
        ensures
            currency == self@.selected_to,
            currency != self@.selected_from,
    {
        proof {
            use_type_invariant(self);
        }
        self.selected_to
    }

    /// Offers `text` for the amount field.
    pub fn set_amount(self, text: String) -> (form: FormState)
        ensures
            form@ == with_amount(self@, text@),
            valid_form(form@),
    {
        proof {
            use_type_invariant(&self);
        }
        if is_valid_prefix(text.as_str()) {
            FormState {
                amount: text,
                selected_from: self.selected_from,
                selected_to: self.selected_to,
            }
        } else {
            self
        }
    }

    /// Picks the source currency.
    pub fn select_from(self, currency: Currency) -> (form: FormState)
        ensures
            form@ == with_from(self@, currency),
            valid_form(form@),
    {
        proof {
            use_type_invariant(&self);
        }
        let selected_to = if currency == self.selected_to {
            self.selected_from
        } else {
            self.selected_to
        };
        FormState { amount: self.amount, selected_from: currency, selected_to }
    }

    /// Picks the target currency.
    pub fn select_to(self, currency: Currency) -> (form: FormState)
        ensures
            form@ == with_to(self@, currency),
            valid_form(form@),
    {
        proof {
            use_type_invariant(&self);
        }
        let selected_from = if currency == self.selected_from {
            self.selected_to
        } else {
            self.selected_from
        };
        FormState { amount: self.amount, selected_from, selected_to: currency }
    }

    /// The request that the form stands for. Its two codes differ, and
    /// its amount follows the amount grammar.
    pub fn request(&self) -> (request: ConversionRequest)
        ensures
            request@ == request_of(self@),
            request@.from != request@.to,
            is_amount_prefix(request@.amount),
    {
        proof {
            use_type_invariant(self);
            if self.selected_from.code_text() == self.selected_to.code_text() {
                lemma_codes_are_unique(self.selected_from, self.selected_to);
            }
        }
        ConversionRequest {
            from: String::from_str(self.selected_from.code()),
            to: String::from_str(self.selected_to.code()),
            amount: self.amount.clone(),
        }
    }
}

/// What can happen to the converter.
#[derive(Clone, Debug, PartialEq, Eq)]
pub enum Event {
    /// The text of the amount field was edited.
    SetAmount(String),
    /// A source currency was picked.
    SelectFrom(Currency),
    /// A target currency was picked.
    SelectTo(Currency),
    /// The conversion was asked for.
    SubmitConversion,
    /// The answer to a request arrived.
    ReceiveResult(ExchangeReply),
}

/// An [`Event`] as plain values.
pub ghost enum EventView {
    SetAmount(Seq<char>),
    SelectFrom(Currency),
    SelectTo(Currency),
    SubmitConversion,
    ReceiveResult(ReplyView),
}

impl View for Event {
    type V = EventView;

    open spec fn view(&self) -> EventView {
        match self {
            Event::SetAmount(text) => EventView::SetAmount(text@),
            Event::SelectFrom(currency) => EventView::SelectFrom(*currency),
            Event::SelectTo(currency) => EventView::SelectTo(*currency),
            Event::SubmitConversion => EventView::SubmitConversion,
            Event::ReceiveResult(reply) => EventView::ReceiveResult(reply@),
        }
    }
}

/// What the converter asks its surroundings to do after a transition.
#[derive(Clone, Debug, PartialEq, Eq)]
pub enum Effect {
    /// Nothing.
    Nothing,
    /// Send this request, and hand the reply back as
    /// [`Event::ReceiveResult`].
    Convert(ConversionRequest),
}

/// An [`Effect`] as plain values.
pub ghost enum EffectView {
    Nothing,
    Convert(RequestView),
}

impl View for Effect {
    type V = EffectView;

    open spec fn view(&self) -> EffectView {
        match self {
            Effect::Nothing => EffectView::Nothing,
            Effect::Convert(request) => EffectView::Convert(request@),
        }
    }
}

/// Whether a request is out.
#[derive(Clone, Copy, Debug, PartialEq, Eq, Structural)]
pub enum Phase {
    Idle,
    Pending,
}

/// The converter: the form and the outcome of the latest conversion.
#[derive(Debug)]
pub struct CurrencyConverter {
    form: FormState,
    outcome: ConversionOutcome,
}

/// A [`CurrencyConverter`] as plain values.
pub ghost struct ConverterView {
    pub form: FormView,
    pub outcome: OutcomeView,
}

impl View for CurrencyConverter {
    type V = ConverterView;

    closed spec fn view(&self) -> ConverterView {
        ConverterView { form: self.form@, outcome: self.outcome@ }
    }
}

/// The phase that goes with an outcome: pending while the outcome is, idle
/// otherwise.
pub open spec fn phase_of(outcome: OutcomeView) -> Phase {
    if outcome is Pending {
        Phase::Pending
    } else {
        Phase::Idle
    }
}

/// The form after an event: edits and picks change it, the rest leave it.
pub open spec fn next_form(form: FormView, event: EventView) -> FormView {
    match event {
        EventView::SetAmount(text) => with_amount(form, text),
        EventView::SelectFrom(currency) => with_from(form, currency),
        EventView::SelectTo(currency) => with_to(form, currency),
        EventView::SubmitConversion => form,
        EventView::ReceiveResult(_) => form,
    }
}

/// The outcome after an event: a submission makes it pending, a reply
/// replaces it by what the reply amounts to, the rest leave it.
pub open spec fn next_outcome(outcome: OutcomeView, event: EventView) -> OutcomeView {
    match event {
        EventView::SubmitConversion => OutcomeView::Pending,
        EventView::ReceiveResult(reply) => outcome_of(reply),
        _ => outcome,
    }
}

/// The converter after an event.
pub open spec fn next_state(state: ConverterView, event: EventView) -> ConverterView {
    ConverterView {
        form: next_form(state.form, event),
        outcome: next_outcome(state.outcome, event),
    }
}

/// What an event asks of the surroundings: a submission asks for the
/// request that the form stands for, the rest ask for nothing.
pub open spec fn effect_of(state: ConverterView, event: EventView) -> EffectView {
    match event {
        EventView::SubmitConversion => EffectView::Convert(request_of(state.form)),
        _ => EffectView::Nothing,
    }
}

impl CurrencyConverter {
    /// The converter at start-up: the start-up form, and no conversion yet.
    pub fn new() -> (converter: CurrencyConverter)
        ensures
            converter@.form.amount == "1.00"@,
            converter@.form.selected_from == Currency::RUB,
            converter@.form.selected_to == Currency::USD,
            converter@.outcome == OutcomeView::Idle,
            valid_form(converter@.form),
    {
        CurrencyConverter { form: FormState::new(), outcome: ConversionOutcome::Idle }
    }

    /// The window title.
    pub fn title(&self) -> (title: String)
        ensures
            title@ == "Currency converter"@,
    {
        String::from_str("Currency converter")
    }

    /// The form as it stands.
    pub fn form(&self) -> (form: &FormState)
        ensures
            form@ == self@.form,
            valid_form(self@.form),
    {
        proof {
            use_type_invariant(&self.form);
        }
        &self.form
    }

    /// The outcome of the latest conversion.
    pub fn outcome(&self) -> (outcome: &ConversionOutcome)
        ensures
            outcome@ == self@.outcome,
    {
        &self.outcome
    }

    /// Whether a request is out.
    pub fn phase(&self) -> (phase: Phase)
        ensures
            phase == phase_of(self@.outcome),
    {
        if self.outcome.is_pending() {
            Phase::Pending
        } else {
            Phase::Idle
        }
    }

    /// Takes the converter through one event, and says what to do next.
    /// No event is refused: an amount that does not follow the grammar
    /// changes nothing, and a reply that reports a failure becomes a failed
    /// outcome.
    pub fn update(self, event: Event) -> (next: (CurrencyConverter, Effect))
        ensures
            next.0@ == next_state(self@, event@),
            next.1@ == effect_of(self@, event@),
            valid_form(next.0@.form),
    {
        proof {
            use_type_invariant(&self.form);
        }
        match event {
            Event::SetAmount(text) => {
                let form = self.form.set_amount(text);
                (CurrencyConverter { form, outcome: self.outcome }, Effect::Nothing)
            },
            Event::SelectFrom(currency) => {
                let form = self.form.select_from(currency);
                (CurrencyConverter { form, outcome: self.outcome }, Effect::Nothing)
            },
            Event::SelectTo(currency) => {
                let form = self.form.select_to(currency);
                (CurrencyConverter { form, outcome: self.outcome }, Effect::Nothing)
            },
            Event::SubmitConversion => {
                let request = self.form.request();
                (
                    CurrencyConverter { form: self.form, outcome: ConversionOutcome::Pending },
                    Effect::Convert(request),
                )
            },
            Event::ReceiveResult(reply) => {
                let outcome = classify(reply);
                (CurrencyConverter { form: self.form, outcome }, Effect::Nothing)
            },
        }
    }
}

} // verus!
