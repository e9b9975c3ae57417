//! Reading the two rates out of the provider's answers.
//!
//! The answer for today is a JSON object with one member per pair, named like
//! `USD_CHF`, whose value is the rate. The answer for a past day has, under the
//! pair's name, an object with one member per date. A rate is taken out as the
//! text of its JSON value; turning that text into a number is left to the
//! caller, who hands the outcome to `rate_samples`.

use crate::json;
use crate::rate::RateSample;
use vstd::prelude::*;

verus! {

/// Why no rate could be read out of an answer.
#[derive(Clone, Copy, Debug, PartialEq, Eq, Structural)]
pub enum ExtractionError {
    /// An answer is not JSON, or is JSON but not an object.
    MalformedPayload,
    /// An answer lacks the pair, or the answer for the past day lacks the date.
    KeyNotFound,
    /// The text found is not a finite number.
    NotANumber,
}

/// What one answer holds for the pair that was asked for.
#[derive(Debug, PartialEq, Eq)]
pub enum Quote {
    /// The answer is not a JSON object.
    Malformed,
    /// The answer is a JSON object without the member looked for.
    Missing,
    /// The member's value, as compact JSON text.
    Text(String),
}

/// A `Quote` with its text as a sequence of characters.
pub enum QuoteView {
    Malformed,
    Missing,
    Text(Seq<char>),
}

impl View for Quote {
    type V = QuoteView;

    open spec fn view(&self) -> QuoteView {
        match self {
            Quote::Malformed => QuoteView::Malformed,
            Quote::Missing => QuoteView::Missing,
            Quote::Text(text) => QuoteView::Text(text@),
        }
    }
}

/// The name under which a pair is quoted: the two codes with `_` between them.
pub open spec fn pair_key(cur1: Seq<char>, cur2: Seq<char>) -> Seq<char> {
    cur1 + seq!['_'] + cur2
}

/// The compact text of the JSON object that an answer holds, if it holds one.
pub open spec fn payload(raw: Seq<char>) -> Option<Seq<char>> {
    match json::parsed(raw) {
        Some(value) => if json::holds_object(value) {
            Some(value)
        } else {
            None
        },
        None => None,
    }
}

/// What today's answer `raw` holds under `key`.
pub open spec fn current_quote_of(raw: Seq<char>, key: Seq<char>) -> QuoteView {
    match payload(raw) {
        None => QuoteView::Malformed,
        Some(object) => match json::member(object, key) {
            None => QuoteView::Missing,
            Some(value) => QuoteView::Text(value),
        },
    }
}

/// What the answer `raw` for a past day holds under `key` and then `date`.
pub open spec fn historical_quote_of(raw: Seq<char>, key: Seq<char>, date: Seq<char>) -> QuoteView {
    match payload(raw) {
        None => QuoteView::Malformed,
        Some(object) => match json::member(object, key) {
            None => QuoteView::Missing,
            Some(by_date) => match json::member(by_date, date) {
                None => QuoteView::Missing,
                Some(value) => QuoteView::Text(value),
            },
        },
    }
}

/// The two rate texts that a pair of quotes gives, or the error.
///
/// A malformed answer counts before a missing member, whichever of the two
/// answers it is in.
pub open spec fn texts_of(today: QuoteView, yesterday: QuoteView) -> Result<
    (Seq<char>, Seq<char>),
    ExtractionError,
> {
    match (today, yesterday) {
        (QuoteView::Malformed, _) => Err(ExtractionError::MalformedPayload),
        (_, QuoteView::Malformed) => Err(ExtractionError::MalformedPayload),
        (QuoteView::Missing, _) => Err(ExtractionError::KeyNotFound),
        (_, QuoteView::Missing) => Err(ExtractionError::KeyNotFound),
        (QuoteView::Text(t), QuoteView::Text(y)) => Ok((t, y)),
    }
}

/// The two samples that the parsed rate texts give, or `NotANumber`.
///
/// `None` stands for a text that is no number at all. An infinity and
/// not-a-number are numbers to the parser, but no rates.
pub open spec fn samples_of(today: Option<RateSample>, yesterday: Option<RateSample>) -> Result<
    (RateSample, RateSample),
    ExtractionError,
> {
    match (today, yesterday) {
        (Some(t), Some(y)) => if t.is_finite() && y.is_finite() {
            Ok((t, y))
        } else {
            Err(ExtractionError::NotANumber)
        },
        _ => Err(ExtractionError::NotANumber),
    }
}

/// Builds the name under which the pair is quoted.
pub fn make_pair_key(cur1: &str, cur2: &str) -> (key: String)
    ensures
        key@ == pair_key(cur1@, cur2@),
{
    let mut key = String::from_str(cur1);
    key.append("_");
    key.append(cur2);
    proof {
        reveal_strlit("_");
    }
    key
}

/// Parses an answer and keeps it if it is a JSON object.
fn read_payload(raw: &str) -> (result: Option<serde_json::Value>)
    ensures
        match result {
            Some(object) => payload(raw@) == Some(json::text_of(object)),
            None => payload(raw@) is None,
        },
{
    match json::parse(raw) {
        Ok(value) => if json::is_object(&value) {
            Some(value)
        } else {
            None
        },
        Err(_) => None,
    }
}

/// Looks the pair up in today's answer.
pub fn current_quote(raw: &str, key: &str) -> (quote: Quote)
    ensures
        quote@ == current_quote_of(raw@, key@),
{
    match read_payload(raw) {
        None => Quote::Malformed,
        Some(object) => match json::get(&object, key) {
            None => Quote::Missing,
            Some(value) => Quote::Text(json::to_text(value)),
        },
    }
}

/// Looks the pair, and under it the date, up in the answer for a past day.
pub fn historical_quote(raw: &str, key: &str, date: &str) -> (quote: Quote)
    ensures
        quote@ == historical_quote_of(raw@, key@, date@),
{
    match read_payload(raw) {
        None => Quote::Malformed,
        Some(object) => match json::get(&object, key) {
            None => Quote::Missing,
            Some(by_date) => match json::get(by_date, date) {
                None => Quote::Missing,
                Some(value) => Quote::Text(json::to_text(value)),
            },
        },
    }
}

/// Puts the quotes of the two answers together.
///
/// Gives both texts if both were found. Otherwise `MalformedPayload` if either
/// answer was malformed, and `KeyNotFound` if not.
pub fn rate_texts(today: Quote, yesterday: Quote) -> (result: Result<(String, String), ExtractionError>)
    ensures
        match result {
            Ok(texts) => texts_of(today@, yesterday@) == Ok::<
                (Seq<char>, Seq<char>),
                ExtractionError,
            >((texts.0@, texts.1@)),
            Err(e) => texts_of(today@, yesterday@) == Err::<(Seq<char>, Seq<char>), ExtractionError>(
                e,
            ),
        },
{
    match (today, yesterday) {
        (Quote::Malformed, _) => Err(ExtractionError::MalformedPayload),
        (_, Quote::Malformed) => Err(ExtractionError::MalformedPayload),
        (Quote::Missing, _) => Err(ExtractionError::KeyNotFound),
        (_, Quote::Missing) => Err(ExtractionError::KeyNotFound),
        (Quote::Text(t), Quote::Text(y)) => Ok((t, y)),
    }
}

/// Reads the texts of today's and yesterday's rate out of the two answers.
///
/// `exchange_rates_raw` holds the answer for today and the one for
/// `yesterday_date`, in that order. The result is the pair of texts, today's
/// first, or the error that `texts_of` gives for what the answers hold.
pub fn get_prices_from_api_response(
    cur1: &str,
    cur2: &str,
    exchange_rates_raw: (String, String),
    yesterday_date: &str,
) -> (result: Result<(String, String), ExtractionError>)
    ensures
        match result {
            Ok(texts) => texts_of(
                current_quote_of(exchange_rates_raw.0@, pair_key(cur1@, cur2@)),
                historical_quote_of(exchange_rates_raw.1@, pair_key(cur1@, cur2@), yesterday_date@),
            ) == Ok::<(Seq<char>, Seq<char>), ExtractionError>((texts.0@, texts.1@)),
            Err(e) => texts_of(
                current_quote_of(exchange_rates_raw.0@, pair_key(cur1@, cur2@)),
                historical_quote_of(exchange_rates_raw.1@, pair_key(cur1@, cur2@), yesterday_date@),
            ) == Err::<(Seq<char>, Seq<char>), ExtractionError>(e),
        },
        result is Err ==> result != Err::<(String, String), ExtractionError>(
            ExtractionError::NotANumber,
        ),
{
    let key = make_pair_key(cur1, cur2);
    let today = current_quote(exchange_rates_raw.0.as_str(), key.as_str());
    let yesterday = historical_quote(exchange_rates_raw.1.as_str(), key.as_str(), yesterday_date);
    rate_texts(today, yesterday)
}

/// Accepts the two parsed rates if both are finite numbers.
///
/// Each argument is what parsing a rate text as a single-precision number gave:
/// the number's bits, or `None` where the text is no number. The result is
/// `Ok` with the two samples if and only if both are there and finite, and
/// `NotANumber` otherwise.
pub fn rate_samples(today: Option<RateSample>, yesterday: Option<RateSample>) -> (result: Result<
    (RateSample, RateSample),
    ExtractionError,
>)
    ensures
        result == samples_of(today, yesterday),
{
    match (today, yesterday) {
        (Some(t), Some(y)) => {
            if t.check_finite() && y.check_finite() {
                Ok((t, y))
            } else {
                Err(ExtractionError::NotANumber)
            }
        },
        _ => Err(ExtractionError::NotANumber),
    }
}

} // verus!
