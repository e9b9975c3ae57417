//! One turn of the session: what a typed line asks for, and what a finished
//! lookup gives.

use crate::codes::{is_input_valid_currency_pair, validation, ValidationError};
use crate::extract::{rate_samples, samples_of, ExtractionError};
use crate::fetch::FetchError;
use crate::history::{Record, RecordView};
use crate::rate::{
    colour_of, compare_keys, direction, lemma_finite_is_comparable, trend_between, Colour,
    ComparisonError, RateSample, Trend,
};
use vstd::prelude::*;

verus! {

/// What a line that the user typed asks for.
#[derive(Debug, PartialEq, Eq)]
pub enum Command {
    /// Show the history.
    History,
    /// End the session.
    Quit,
    /// Look the rate of this pair up: base code, then quote code.
    Lookup(String, String),
    /// The line names no known currency pair.
    Rejected(ValidationError),
}

/// What a session remembers from one lookup to the next.
#[derive(Clone, Copy, Debug, PartialEq, Eq, Structural)]
pub struct Session {
    /// The user has been told that no access key is configured.
    pub credential_reported: bool,
}

/// A `Command` with its codes as sequences of characters.
pub enum CommandView {
    History,
    Quit,
    Lookup(Seq<char>, Seq<char>),
    Rejected(ValidationError),
}

impl View for Command {
    type V = CommandView;

    open spec fn view(&self) -> CommandView {
        match self {
            Command::History => CommandView::History,
            Command::Quit => CommandView::Quit,
            Command::Lookup(base, quote) => CommandView::Lookup(base@, quote@),
            Command::Rejected(e) => CommandView::Rejected(*e),
        }
    }
}

/// A character that counts as white space: a blank, a tab, a line break and
/// the other characters that Unicode lists under `White_Space`.
pub open spec fn is_space(c: char) -> bool {
    ||| '\u{9}' <= c && c <= '\u{d}'
    ||| c == ' '
    ||| c == '\u{85}'
    ||| c == '\u{a0}'
    ||| c == '\u{1680}'
    ||| '\u{2000}' <= c && c <= '\u{200a}'
    ||| c == '\u{2028}'
    ||| c == '\u{2029}'
    ||| c == '\u{202f}'
    ||| c == '\u{205f}'
    ||| c == '\u{3000}'
}

/// `text` without the white space at its start.
pub open spec fn skip_spaces(text: Seq<char>) -> Seq<char>
    decreases text.len(),
{
    if text.len() > 0 && is_space(text.first()) {
        skip_spaces(text.drop_first())
    } else {
        text
    }
}

/// `text` without the white space at its end.
pub open spec fn drop_spaces(text: Seq<char>) -> Seq<char>
    decreases text.len(),
{
    if text.len() > 0 && is_space(text.last()) {
        drop_spaces(text.drop_last())
    } else {
        text
    }
}

/// `text` without the white space at either end.
pub open spec fn trimmed(text: Seq<char>) -> Seq<char> {
    drop_spaces(skip_spaces(text))
}

/// The command that `line` stands for: `h` asks for the history, `q` ends the
/// session, and every other line is taken as a currency pair.
pub open spec fn command_of(line: Seq<char>, codes: Seq<String>) -> CommandView {
    if line == seq!['h'] {
        CommandView::History
    } else if line == seq!['q'] {
        CommandView::Quit
    } else {
        match validation(line, codes) {
            Ok(pair) => CommandView::Lookup(pair.0, pair.1),
            Err(e) => CommandView::Rejected(e),
        }
    }
}

/// The record of a lookup of `cur1` against `cur2` whose two rate texts were
/// parsed to `today` and `yesterday`, or `NotANumber`.
pub open spec fn lookup_of(
    cur1: Seq<char>,
    cur2: Seq<char>,
    today: Option<RateSample>,
    yesterday: Option<RateSample>,
) -> Result<RecordView, ExtractionError> {
    match samples_of(today, yesterday) {
        Ok(rates) => Ok(
            RecordView {
                currency1: cur1,
                currency2: cur2,
                rate: rates.0,
                trend: direction(rates.0, rates.1),
            },
        ),
        Err(e) => Err(e),
    }
}

impl Session {
    /// A session in which nothing has been reported yet.
    pub fn new() -> (session: Session)
        ensures
            !session.credential_reported,
    {
        Session { credential_reported: false }
    }

    /// Tells whether a failed fetch is to be shown to the user.
    ///
    /// Every failure is shown, but a missing access key only the first time:
    /// it will be missing for the rest of the session. No failure ends the
    /// session.
    pub fn fetch_failed(&mut self, error: FetchError) -> (report: bool)
        ensures
            report == !(error == FetchError::MissingCredential && old(self).credential_reported),
            final(self).credential_reported == (old(self).credential_reported || error
                == FetchError::MissingCredential),
    {
        match error {
            FetchError::MissingCredential => {
                let first = !self.credential_reported;
                self.credential_reported = true;
                first
            },
            FetchError::NetworkError => true,
            FetchError::UpstreamError => true,
        }
    }
}

/// Tells whether `c` counts as white space.
pub fn check_space(c: char) -> (space: bool)
    ensures
        space == is_space(c),
{
    (c >= '\u{9}' && c <= '\u{d}') || c == ' ' || c == '\u{85}' || c == '\u{a0}' || c == '\u{1680}'
        || (c >= '\u{2000}' && c <= '\u{200a}') || c == '\u{2028}' || c == '\u{2029}' || c
        == '\u{202f}' || c == '\u{205f}' || c == '\u{3000}'
}

/// Takes the white space off both ends of a line that was read.
///
/// What stands between the first and the last character that is no white
/// space is kept as it is; a line of white space alone gives the empty text.
pub fn get_user_input(line: &str) -> (input: String)
    ensures
        input@ == trimmed(line@),
{
    let n = line.unicode_len();
    let mut start: usize = 0;
    assert(line@.subrange(0, n as int) =~= line@);
    while start < n && check_space(line.get_char(start))
        invariant
            n == line@.len(),
            start <= n,
            skip_spaces(line@) == skip_spaces(line@.subrange(start as int, n as int)),
        decreases n - start,
    {
        proof {
            let rest = line@.subrange(start as int, n as int);
            assert(rest.drop_first() =~= line@.subrange(start + 1, n as int));
        }
        start += 1;
    }
    let mut end: usize = n;
    while end > start && check_space(line.get_char(end - 1))
        invariant
            n == line@.len(),
            start <= end <= n,
            drop_spaces(line@.subrange(start as int, n as int)) == drop_spaces(
                line@.subrange(start as int, end as int),
            ),
        decreases end - start,
    {
        proof {
            let rest = line@.subrange(start as int, end as int);
            assert(rest.drop_last() =~= line@.subrange(start as int, end - 1));
        }
        end -= 1;
    }
    String::from_str(line.substring_char(start, end))
}

/// Tells whether `line` is the single character `c`.
fn is_single(line: &str, c: char) -> (result: bool)
    ensures
        result == (line@ == seq![c]),
{
    if line.unicode_len() == 1 {
        let first = line.get_char(0);
        proof {
            if first == c {
                assert(line@ =~= seq![c]);
            }
        }
        first == c
    } else {
        false
    }
}

/// Decides what to do with a line that the user typed.
///
/// The line is taken as it is: whoever read it has removed the line break and
/// the blanks around it.
pub fn read_command(line: &str, currency_vector: &Vec<String>) -> (command: Command)
    ensures
        command@ == command_of(line@, currency_vector@),
{
    if is_single(line, 'h') {
        Command::History
    } else if is_single(line, 'q') {
        Command::Quit
    } else {
        match is_input_valid_currency_pair(line, currency_vector) {
            Ok(pair) => Command::Lookup(pair.0, pair.1),
            Err(e) => Command::Rejected(e),
        }
    }
}

/// Makes the record of a lookup from the two parsed rates.
///
/// `today` and `yesterday` are what parsing the two rate texts gave: the
/// number's bits, or `None` for a text that is no number. If both are finite
/// numbers the record holds the pair, today's rate and the trend; two finite
/// numbers always have one. Otherwise the result is `NotANumber`.
pub fn get_price_struct(
    cur1: &str,
    cur2: &str,
    today: Option<RateSample>,
    yesterday: Option<RateSample>,
) -> (result: Result<Record, ExtractionError>)
    ensures
        match result {
            Ok(record) => lookup_of(cur1@, cur2@, today, yesterday) == Ok::<
                RecordView,
                ExtractionError,
            >(record@),
            Err(e) => lookup_of(cur1@, cur2@, today, yesterday) == Err::<RecordView, ExtractionError>(
                e,
            ),
        },
        result matches Ok(record) ==> record.rate.is_finite() && trend_between(
            today->0,
            yesterday->0,
        ) == Ok::<Trend, ComparisonError>(record.trend),
        result matches Err(e) ==> e == ExtractionError::NotANumber,
{
    match rate_samples(today, yesterday) {
        Err(e) => Err(e),
        Ok(rates) => {
            proof {
                lemma_finite_is_comparable(rates.0, rates.1);
            }
            Ok(
                Record {
                    currency1: String::from_str(cur1),
                    currency2: String::from_str(cur2),
                    rate: rates.0,
                    trend: compare_keys(rates.0, rates.1),
                },
            )
        },
    }
}

/// Decides how the rate of a lookup is printed.
///
/// Gives today's rate and the colour to print it in: red if it fell since
/// yesterday, green if it rose, plain if it did not move. Fails with
/// `NotANumber` unless both parsed rates are finite numbers.
pub fn print_exchange_rate(today: Option<RateSample>, yesterday: Option<RateSample>) -> (result:
    Result<(RateSample, Colour), ExtractionError>)
    ensures
        result == match samples_of(today, yesterday) {
            Ok(rates) => Ok::<(RateSample, Colour), ExtractionError>(
                (rates.0, colour_of(direction(rates.0, rates.1))),
            ),
            Err(e) => Err(e),
        },
{
    match rate_samples(today, yesterday) {
        Err(e) => Err(e),
        Ok(rates) => Ok((rates.0, compare_keys(rates.0, rates.1).colour())),
    }
}

} // verus!
