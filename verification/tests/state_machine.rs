use currency_converter::amount::is_valid_prefix;
use currency_converter::currency::Currency;
use currency_converter::exchange::{
    ConversionOutcome, ConversionRequest, ExchangeReply, FailureReason, RateQuote,
};
use currency_converter::machine::{CurrencyConverter, Effect, Event, FormState, Phase};

fn reply(success: bool, amount: i64, result: f64) -> ExchangeReply {
    ExchangeReply::Decoded(RateQuote {
        success,
        from: String::from("RUB"),
        to: String::from("USD"),
        amount,
        result: format!("{}", result),
    })
}

fn run(converter: CurrencyConverter, event: Event) -> CurrencyConverter {
    converter.update(event).0
}

#[test]
fn converter_starts_with_one_rouble_in_dollars() {
    let converter = CurrencyConverter::new();
    assert_eq!(converter.form().amount(), "1.00");
    assert_eq!(converter.form().selected_from(), Currency::RUB);
    assert_eq!(converter.form().selected_to(), Currency::USD);
    assert_eq!(converter.outcome(), &ConversionOutcome::Idle);
    assert_eq!(converter.phase(), Phase::Idle);
    assert_eq!(converter.title(), "Currency converter");
}

#[test]
fn picking_the_target_as_source_swaps() {
    for a in Currency::all() {
        for b in Currency::all() {
            if a == b {
                continue;
            }
            let form = FormState::new().select_to(b).select_from(a).select_to(b);
            assert_eq!((form.selected_from(), form.selected_to()), (a, b));
            let form = form.select_from(b);
            assert_eq!(form.selected_from(), b);
            assert_eq!(form.selected_to(), a);
            assert_ne!(form.selected_from(), form.selected_to());
        }
    }
}

#[test]
fn picking_the_source_as_target_swaps() {
    for a in Currency::all() {
        for b in Currency::all() {
            if a == b {
                continue;
            }
            let form = FormState::new().select_to(b).select_from(a).select_to(b);
            let form = form.select_to(a);
            assert_eq!(form.selected_from(), b);
            assert_eq!(form.selected_to(), a);
        }
    }
}

#[test]
fn picking_another_currency_keeps_the_other_selection() {
    let form = FormState::new().select_from(Currency::EUR);
    assert_eq!((form.selected_from(), form.selected_to()), (Currency::EUR, Currency::USD));
    let form = form.select_to(Currency::JPY);
    assert_eq!((form.selected_from(), form.selected_to()), (Currency::EUR, Currency::JPY));
    let form = form.select_from(Currency::EUR);
    assert_eq!((form.selected_from(), form.selected_to()), (Currency::EUR, Currency::JPY));
}

#[test]
fn selections_never_meet() {
    let mut converter = CurrencyConverter::new();
    for a in Currency::all() {
        for b in Currency::all() {
            converter = run(converter, Event::SelectFrom(a));
            assert_ne!(converter.form().selected_from(), converter.form().selected_to());
            converter = run(converter, Event::SelectTo(b));
            assert_ne!(converter.form().selected_from(), converter.form().selected_to());
            assert_eq!(converter.form().selected_to(), b);
        }
    }
}

#[test]
fn rejected_keystroke_keeps_the_amount() {
    let converter = CurrencyConverter::new();
    let (converter, effect) = converter.update(Event::SetAmount(String::from("12.5a")));
    assert_eq!(converter.form().amount(), "1.00");
    assert_eq!(effect, Effect::Nothing);
    let (converter, effect) = converter.update(Event::SetAmount(String::from("12.5")));
    assert_eq!(converter.form().amount(), "12.5");
    assert_eq!(effect, Effect::Nothing);
    assert_eq!(converter.outcome(), &ConversionOutcome::Idle);
}

#[test]
fn amount_may_be_cleared() {
    let converter = run(CurrencyConverter::new(), Event::SetAmount(String::new()));
    assert_eq!(converter.form().amount(), "");
}

#[test]
fn submission_sends_the_form_and_waits() {
    let converter = run(CurrencyConverter::new(), Event::SetAmount(String::from("100")));
    let (converter, effect) = converter.update(Event::SubmitConversion);
    assert_eq!(
        effect,
        Effect::Convert(ConversionRequest {
            from: String::from("RUB"),
            to: String::from("USD"),
            amount: String::from("100"),
        })
    );
    assert_eq!(converter.outcome(), &ConversionOutcome::Pending);
    assert_eq!(converter.phase(), Phase::Pending);
    assert_eq!(converter.form().amount(), "100");
}

#[test]
fn successful_conversion_is_reported() {
    let converter = run(CurrencyConverter::new(), Event::SetAmount(String::from("100")));
    let converter = run(converter, Event::SubmitConversion);
    let (converter, effect) = converter.update(Event::ReceiveResult(reply(true, 100, 1.35)));
    assert_eq!(effect, Effect::Nothing);
    assert_eq!(
        converter.outcome(),
        &ConversionOutcome::Succeeded {
            requested_amount: 100,
            from: String::from("RUB"),
            to: String::from("USD"),
            converted_amount: String::from("1.35"),
        }
    );
    assert_eq!(converter.phase(), Phase::Idle);
    assert_eq!(converter.outcome().summary(), "100 RUB = 1.35 USD");
}

#[test]
fn rejected_conversion_fails_and_returns_to_idle() {
    let converter = run(CurrencyConverter::new(), Event::SubmitConversion);
    let converter = run(converter, Event::ReceiveResult(reply(false, 0, 0.0)));
    assert_eq!(
        converter.outcome(),
        &ConversionOutcome::Failed { reason: FailureReason::RemoteRejected }
    );
    assert_eq!(converter.phase(), Phase::Idle);
}

#[test]
fn transport_and_decode_failures_are_told_apart() {
    let converter = run(CurrencyConverter::new(), Event::SubmitConversion);
    let converter = run(converter, Event::ReceiveResult(ExchangeReply::Unreachable));
    assert_eq!(
        converter.outcome(),
        &ConversionOutcome::Failed { reason: FailureReason::TransportFailure }
    );
    assert_eq!(converter.phase(), Phase::Idle);
    let converter = run(converter, Event::SubmitConversion);
    let converter = run(converter, Event::ReceiveResult(ExchangeReply::Undecodable));
    assert_eq!(
        converter.outcome(),
        &ConversionOutcome::Failed { reason: FailureReason::DecodeFailure }
    );
    assert_eq!(converter.phase(), Phase::Idle);
}

#[test]
fn converter_stays_usable_after_a_failure() {
    let converter = run(CurrencyConverter::new(), Event::SubmitConversion);
    let converter = run(converter, Event::ReceiveResult(ExchangeReply::Unreachable));
    let converter = run(converter, Event::SetAmount(String::from("3")));
    let (converter, effect) = converter.update(Event::SubmitConversion);
    assert_eq!(converter.phase(), Phase::Pending);
    assert!(matches!(effect, Effect::Convert(_)));
}

#[test]
fn edits_while_pending_are_stored_and_send_nothing() {
    let converter = run(CurrencyConverter::new(), Event::SubmitConversion);
    let (converter, effect) = converter.update(Event::SetAmount(String::from("42.")));
    assert_eq!(effect, Effect::Nothing);
    let (converter, effect) = converter.update(Event::SelectFrom(Currency::USD));
    assert_eq!(effect, Effect::Nothing);
    let (converter, effect) = converter.update(Event::SelectTo(Currency::CHF));
    assert_eq!(effect, Effect::Nothing);
    assert_eq!(converter.form().amount(), "42.");
    assert_eq!(converter.form().selected_from(), Currency::USD);
    assert_eq!(converter.form().selected_to(), Currency::CHF);
    assert_eq!(converter.phase(), Phase::Pending);
    assert_eq!(converter.outcome(), &ConversionOutcome::Pending);
}

#[test]
fn reply_that_arrives_last_wins() {
    let converter = run(CurrencyConverter::new(), Event::SubmitConversion);
    let converter = run(converter, Event::SetAmount(String::from("200")));
    let converter = run(converter, Event::SubmitConversion);
    assert_eq!(converter.phase(), Phase::Pending);
    let converter = run(converter, Event::ReceiveResult(reply(true, 200, 2.7)));
    assert_eq!(converter.outcome().summary(), "200 RUB = 2.7 USD");
    assert_eq!(converter.phase(), Phase::Idle);
    let converter = run(converter, Event::ReceiveResult(reply(true, 1, 0.0135)));
    assert_eq!(converter.outcome().summary(), "1 RUB = 0.0135 USD");
    assert_eq!(converter.phase(), Phase::Idle);
    assert_eq!(converter.form().amount(), "200");
}

#[test]
fn unasked_reply_is_applied_all_the_same() {
    let converter = run(CurrencyConverter::new(), Event::ReceiveResult(reply(true, 5, 0.07)));
    assert_eq!(converter.outcome().summary(), "5 RUB = 0.07 USD");
}

#[test]
fn request_names_the_codes_of_the_selections() {
    for a in Currency::all() {
        for b in Currency::all() {
            if a == b {
                continue;
            }
            let form = FormState::new().select_to(b).select_from(a).select_to(b);
            let request = form.request();
            assert_eq!(request.from, a.code());
            assert_eq!(request.to, b.code());
            assert_eq!(request.amount, "1.00");
        }
    }
}

#[test]
fn amount_always_follows_the_grammar() {
    let offers = ["", ".", "12", "12.", "1.2.3", "-5", "abc", "0.5", "5e3", "007"];
    let mut converter = CurrencyConverter::new();
    for offer in offers.iter() {
        let before = String::from(converter.form().amount());
        converter = run(converter, Event::SetAmount(String::from(*offer)));
        assert!(is_valid_prefix(converter.form().amount()));
        if is_valid_prefix(offer) {
            assert_eq!(converter.form().amount(), *offer);
        } else {
            assert_eq!(converter.form().amount(), before);
        }
    }
    assert_eq!(converter.form().amount(), "007");
}
