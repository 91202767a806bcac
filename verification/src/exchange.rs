//! The exchange client's side of the wire: the request it sends and how
//! what comes back is read as the outcome of a conversion.

use vstd::prelude::*;
use vstd::string::*;

use crate::decimal::{integer_text, integer_to_text};

verus! {

/// The address of the conversion service.
pub const ENDPOINT: &'static str = "https://api.apilayer.com/exchangerates_data/convert";

/// One conversion to ask for: two wire codes and the amount as typed.
#[derive(Clone, Debug, PartialEq, Eq)]
pub struct ConversionRequest {
    pub from: String,
    pub to: String,
    pub amount: String,
}

/// A [`ConversionRequest`] as plain text.
pub ghost struct RequestView {
    pub from: Seq<char>,
    pub to: Seq<char>,
    pub amount: Seq<char>,
}

impl View for ConversionRequest {
    type V = RequestView;

    open spec fn view(&self) -> RequestView {
        RequestView { from: self.from@, to: self.to@, amount: self.amount@ }
    }
}

/// The address to fetch for `request`: the endpoint, then the target code,
/// the source code, the amount and the access credential as query
/// parameters, each verbatim.
pub open spec fn url_text(request: RequestView, credential: Seq<char>) -> Seq<char> {
    ENDPOINT@ + "?to="@ + request.to + "&from="@ + request.from + "&amount="@ + request.amount
        + "&apikey="@ + credential
}

/// Builds the address to fetch for `request`.
pub fn request_url(request: &ConversionRequest, credential: &str) -> (url: String)
    ensures
        url@ == url_text(request@, credential@),
{
    let mut url = String::from_str(ENDPOINT);
    url.append("?to=");
    url.append(request.to.as_str());
    url.append("&from=");
    url.append(request.from.as_str());
    url.append("&amount=");
    url.append(request.amount.as_str());
    url.append("&apikey=");
    url.append(credential);
    url
}

/// Why a conversion failed.
#[derive(Clone, Copy, Debug, PartialEq, Eq, Structural)]
pub enum FailureReason {
    /// The service could not be reached, or the connection broke.
    TransportFailure,
    /// The service answered, but not in the expected shape.
    DecodeFailure,
    /// The service answered that it did not carry out the conversion.
    RemoteRejected,
}

/// The body of the service's answer, decoded. The converted amount is kept
/// as the decimal text in which it is shown.
#[derive(Clone, Debug, PartialEq, Eq)]
pub struct RateQuote {
    pub success: bool,
    pub from: String,
    pub to: String,
    pub amount: i64,
    pub result: String,
}

/// What became of one request.
#[derive(Clone, Debug, PartialEq, Eq)]
pub enum ExchangeReply {
    /// No answer arrived.
    Unreachable,
    /// An answer arrived that could not be decoded.
    Undecodable,
    /// An answer arrived and was decoded.
    Decoded(RateQuote),
}

/// The status of the latest conversion.
#[derive(Clone, Debug, PartialEq, Eq)]
pub enum ConversionOutcome {
    Idle,
    Pending,
    Succeeded { requested_amount: i64, from: String, to: String, converted_amount: String },
    Failed { reason: FailureReason },
}

/// A [`RateQuote`] as plain values.
pub ghost struct QuoteView {
    pub success: bool,
    pub from: Seq<char>,
    pub to: Seq<char>,
    pub amount: int,
    pub result: Seq<char>,
}

/// An [`ExchangeReply`] as plain values.
pub ghost enum ReplyView {
    Unreachable,
    Undecodable,
    Decoded(QuoteView),
}

/// A [`ConversionOutcome`] as plain values.
pub ghost enum OutcomeView {
    Idle,
    Pending,
    Succeeded { requested_amount: int, from: Seq<char>, to: Seq<char>, converted_amount: Seq<char> },
    Failed { reason: FailureReason },
}

impl View for RateQuote {
    type V = QuoteView;

    open spec fn view(&self) -> QuoteView {
        QuoteView {
            success: self.success,
            from: self.from@,
            to: self.to@,
            amount: self.amount as int,
            result: self.result@,
        }
    }
}

impl View for ExchangeReply {
    type V = ReplyView;

    open spec fn view(&self) -> ReplyView {
        match self {
            ExchangeReply::Unreachable => ReplyView::Unreachable,
            ExchangeReply::Undecodable => ReplyView::Undecodable,
            ExchangeReply::Decoded(quote) => ReplyView::Decoded(quote@),
        }
    }
}

impl View for ConversionOutcome {
    type V = OutcomeView;

    open spec fn view(&self) -> OutcomeView {
        match self {
            ConversionOutcome::Idle => OutcomeView::Idle,
            ConversionOutcome::Pending => OutcomeView::Pending,
            ConversionOutcome::Succeeded { requested_amount, from, to, converted_amount } => {
                OutcomeView::Succeeded {
                    requested_amount: *requested_amount as int,
                    from: from@,
                    to: to@,
                    converted_amount: converted_amount@,
                }
            },
            ConversionOutcome::Failed { reason } => OutcomeView::Failed { reason: *reason },
        }
    }
}

/// How a reply is read: a decoded answer that reports success succeeds with
/// what it echoes and the converted amount; everything else fails, each for
/// its own reason.
pub open spec fn outcome_of(reply: ReplyView) -> OutcomeView {
    match reply {
        ReplyView::Unreachable => OutcomeView::Failed { reason: FailureReason::TransportFailure },
        ReplyView::Undecodable => OutcomeView::Failed { reason: FailureReason::DecodeFailure },
        ReplyView::Decoded(quote) => if quote.success {
            OutcomeView::Succeeded {
                requested_amount: quote.amount,
                from: quote.from,
                to: quote.to,
                converted_amount: quote.result,
            }
        } else {
            OutcomeView::Failed { reason: FailureReason::RemoteRejected }
        },
    }
}

/// Reads a reply as the outcome of the conversion.
pub fn classify(reply: ExchangeReply) -> (outcome: ConversionOutcome)
    ensures
        outcome@ == outcome_of(reply@),
{
    match reply {
        ExchangeReply::Unreachable => ConversionOutcome::Failed {
            reason: FailureReason::TransportFailure,
        },
        ExchangeReply::Undecodable => ConversionOutcome::Failed {
            reason: FailureReason::DecodeFailure,
        },
        ExchangeReply::Decoded(quote) => {
            if quote.success {
                ConversionOutcome::Succeeded {
                    requested_amount: quote.amount,
                    from: quote.from,
                    to: quote.to,
                    converted_amount: quote.result,
                }
            } else {
                ConversionOutcome::Failed { reason: FailureReason::RemoteRejected }
            }
        },
    }
}

/// The line that reports an outcome to the user: nothing while idle, a
/// notice while a request is out, the equation of the two amounts after a
/// success, and one message for every failure.
pub open spec fn summary_text(outcome: OutcomeView) -> Seq<char> {
    match outcome {
        OutcomeView::Idle => Seq::empty(),
        OutcomeView::Pending => "Loading..."@,
        OutcomeView::Succeeded { requested_amount, from, to, converted_amount } => {
            integer_text(requested_amount) + " "@ + from + " = "@ + converted_amount + " "@ + to
        },
        OutcomeView::Failed { .. } => "Conversion failed"@,
    }
}

impl ConversionOutcome {
    /// Whether a request is out and unanswered.
    pub fn is_pending(&self) -> (pending: bool)
        ensures
            pending == (self@ is Pending),
    {
        match self {
            ConversionOutcome::Pending => true,
            _ => false,
        }
    }

    /// The line that reports this outcome to the user.
    pub fn summary(&self) -> (line: String)
        ensures
            line@ == summary_text(self@),
    {
        match self {
            ConversionOutcome::Idle => String::new(),
            ConversionOutcome::Pending => String::from_str("Loading..."),
            ConversionOutcome::Succeeded { requested_amount, from, to, converted_amount } => {
                let mut line = integer_to_text(*requested_amount);
                line.append(" ");
                line.append(from.as_str());
                line.append(" = ");
                line.append(converted_amount.as_str());
                line.append(" ");
                line.append(to.as_str());
                line
            },
            ConversionOutcome::Failed { .. } => String::from_str("Conversion failed"),
        }
    }
}

} // verus!
