//! The catalogue of supported currencies.

use vstd::prelude::*;
use vstd::string::*;

verus! {

/// One of the supported currencies. The set is closed.
#[derive(Clone, Copy, Debug, PartialEq, Eq, Hash, Structural)]
pub enum Currency {
    USD,
    EUR,
    RUB,
    GBP,
    CAD,
    AUD,
    JPY,
    INR,
    NZD,
    CHF,
}

/// An upper-case ASCII letter.
pub open spec fn is_upper(c: char) -> bool {
    'A' <= c && c <= 'Z'
}

/// What stands at the head of a display label: its first three characters,
/// if there are that many and each is an upper-case letter.
pub open spec fn leading_code(label: Seq<char>) -> Option<Seq<char>> {
    if label.len() >= 3 && is_upper(label[0]) && is_upper(label[1]) && is_upper(label[2]) {
        Some(label.subrange(0, 3))
    } else {
        None
    }
}

impl Currency {
    /// The catalogue, in the order in which it is offered for selection.
    pub open spec fn catalogue() -> Seq<Currency> {
        seq![
            Currency::USD,
            Currency::EUR,
            Currency::RUB,
            Currency::GBP,
            Currency::CAD,
            Currency::AUD,
            Currency::JPY,
            Currency::INR,
            Currency::NZD,
            Currency::CHF,
        ]
    }

    /// The three-letter code that names the currency on the wire.
    pub open spec fn code_text(self) -> Seq<char> {
        match self {
            Currency::USD => "USD"@,
            Currency::EUR => "EUR"@,
            Currency::RUB => "RUB"@,
            Currency::GBP => "GBP"@,
            Currency::CAD => "CAD"@,
            Currency::AUD => "AUD"@,
            Currency::JPY => "JPY"@,
            Currency::INR => "INR"@,
            Currency::NZD => "NZD"@,
            Currency::CHF => "CHF"@,
        }
    }

    /// The label under which the currency is shown.
    pub open spec fn label_text(self) -> Seq<char> {
        match self {
            Currency::USD => "USD - US Dollar"@,
            Currency::EUR => "EUR - Euro"@,
            Currency::RUB => "RUB - Russian Ruble"@,
            Currency::GBP => "GBP - British Pound"@,
            Currency::CAD => "CAD - Canadian Dollar"@,
            Currency::AUD => "AUD - Australian Dollar"@,
            Currency::JPY => "JPY - Japanese Yen"@,
            Currency::INR => "INR - Indian Rupee"@,
            Currency::NZD => "NZD - New Zealand Dollar"@,
            Currency::CHF => "CHF - Swiss Franc"@,
        }
    }

    /// All currencies, each once, in catalogue order.
    pub fn all() -> (list: Vec<Currency>)
        ensures
            list@ == Currency::catalogue(),
    {
        let list = vec![
            Currency::USD,
            Currency::EUR,
            Currency::RUB,
            Currency::GBP,
            Currency::CAD,
            Currency::AUD,
            Currency::JPY,
            Currency::INR,
            Currency::NZD,
            Currency::CHF,
        ];
        assert(list@ =~= Currency::catalogue());
        list
    }

    /// The currency's wire code.
    pub fn code(self) -> (text: &'static str)
        ensures
            text@ == self.code_text(),
    {
        match self {
            Currency::USD => "USD",
            Currency::EUR => "EUR",
            Currency::RUB => "RUB",
            Currency::GBP => "GBP",
            Currency::CAD => "CAD",
            Currency::AUD => "AUD",
            Currency::JPY => "JPY",
            Currency::INR => "INR",
            Currency::NZD => "NZD",
            Currency::CHF => "CHF",
        }
    }

    /// The currency's display label.
    pub fn label(self) -> (text: &'static str)
        ensures
            text@ == self.label_text(),
    {
        match self {
            Currency::USD => "USD - US Dollar",
            Currency::EUR => "EUR - Euro",
            Currency::RUB => "RUB - Russian Ruble",
            Currency::GBP => "GBP - British Pound",
            Currency::CAD => "CAD - Canadian Dollar",
            Currency::AUD => "AUD - Australian Dollar",
            Currency::JPY => "JPY - Japanese Yen",
            Currency::INR => "INR - Indian Rupee",
            Currency::NZD => "NZD - New Zealand Dollar",
            Currency::CHF => "CHF - Swiss Franc",
        }
    }
}

/// Extracts the wire code from a display label: its leading three
/// upper-case letters, or nothing where the label does not begin with them.
pub fn currency_code<'a>(label: &'a str) -> (code: Option<&'a str>)
    ensures
        match code {
            Some(text) => leading_code(label@) == Some(text@),
            None => leading_code(label@) is None,
        },
{
    let n = label.unicode_len();
    if n < 3 {
        return None;
    }
    let a = label.get_char(0);
    let b = label.get_char(1);
    let c = label.get_char(2);
    if a >= 'A' && a <= 'Z' && b >= 'A' && b <= 'Z' && c >= 'A' && c <= 'Z' {
        Some(label.substring_char(0, 3))
    } else {
        None
    }
}

/// Makes the text of every code and label known to the prover.
proof fn reveal_catalogue_texts()
    ensures
        forall|c: Currency| #[trigger] c.code_text().len() == 3,
        forall|c: Currency| #[trigger] c.label_text().len() >= 3,
        forall|c: Currency, k: int| 0 <= k < 3 ==> #[trigger] c.label_text()[k] == c.code_text()[k],
        forall|c: Currency, k: int| 0 <= k < 3 ==> is_upper(#[trigger] c.code_text()[k]),
        forall|a: Currency, b: Currency| #[trigger]
            a.code_text() == #[trigger] b.code_text() ==> a == b,
{
    reveal_strlit("USD");
    reveal_strlit("EUR");
    reveal_strlit("RUB");
    reveal_strlit("GBP");
    reveal_strlit("CAD");
    reveal_strlit("AUD");
    reveal_strlit("JPY");
    reveal_strlit("INR");
    reveal_strlit("NZD");
    reveal_strlit("CHF");
    reveal_strlit("USD - US Dollar");
    reveal_strlit("EUR - Euro");
    reveal_strlit("RUB - Russian Ruble");
    reveal_strlit("GBP - British Pound");
    reveal_strlit("CAD - Canadian Dollar");
    reveal_strlit("AUD - Australian Dollar");
    reveal_strlit("JPY - Japanese Yen");
    reveal_strlit("INR - Indian Rupee");
    reveal_strlit("NZD - New Zealand Dollar");
    reveal_strlit("CHF - Swiss Franc");
    assert forall|a: Currency, b: Currency| #[trigger]
        a.code_text() == #[trigger] b.code_text() implies a == b by {
        let x = a.code_text();
        let y = b.code_text();
        assert(x[0] == y[0] && x[1] == y[1] && x[2] == y[2]);
    }
}

/// Every code is exactly three upper-case letters.
pub proof fn lemma_code_is_three_upper_case_letters(c: Currency)
    ensures
        c.code_text().len() == 3,
        forall|k: int| 0 <= k < 3 ==> is_upper(#[trigger] c.code_text()[k]),
{
    reveal_catalogue_texts();
}

/// No two currencies share a code.
pub proof fn lemma_codes_are_unique(a: Currency, b: Currency)
    requires
        a.code_text() == b.code_text(),
    ensures
        a == b,
{
    reveal_catalogue_texts();
}

/// The code read off a currency's label is the currency's code.
pub proof fn lemma_label_leads_with_code(c: Currency)
    ensures
        leading_code(c.label_text()) == Some(c.code_text()),
{
    reveal_catalogue_texts();
    assert(c.label_text().subrange(0, 3) =~= c.code_text());
}

/// The catalogue holds every currency, and none of them twice.
pub proof fn lemma_catalogue_is_complete(c: Currency)
    ensures
        Currency::catalogue().len() == 10,
        exists|i: int| 0 <= i < 10 && Currency::catalogue()[i] == c,
        forall|i: int, j: int|
            0 <= i < j < 10 ==> Currency::catalogue()[i] != Currency::catalogue()[j],
{
    let all = Currency::catalogue();
    match c {
        Currency::USD => assert(all[0] == c),
        Currency::EUR => assert(all[1] == c),
        Currency::RUB => assert(all[2] == c),
        Currency::GBP => assert(all[3] == c),
        Currency::CAD => assert(all[4] == c),
        Currency::AUD => assert(all[5] == c),
        Currency::JPY => assert(all[6] == c),
        Currency::INR => assert(all[7] == c),
        Currency::NZD => assert(all[8] == c),
        Currency::CHF => assert(all[9] == c),
    }
}

} // verus!
