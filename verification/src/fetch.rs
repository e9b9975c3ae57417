//! The two requests of a lookup and what their replies amount to.
//!
//! A lookup asks the provider twice: for the rate now and for the rate on a
//! past day. The library writes the two addresses and judges the two replies.
//! Sending the requests is the caller's part.

use vstd::prelude::*;

verus! {

/// Why a lookup got no answers from the provider.
#[derive(Clone, Copy, Debug, PartialEq, Eq, Structural)]
pub enum FetchError {
    /// No access key is configured.
    MissingCredential,
    /// A request did not get through.
    NetworkError,
    /// The provider replied with a status other than success.
    UpstreamError,
}

/// What came back for one request.
#[derive(Debug, PartialEq, Eq)]
pub enum Reply {
    /// Nothing came back: the request failed on the way.
    Unreachable,
    /// The provider replied.
    Answered { status: u16, body: String },
}

/// A `Reply` with its body as a sequence of characters.
pub enum ReplyView {
    Unreachable,
    Answered { status: u16, body: Seq<char> },
}

impl View for Reply {
    type V = ReplyView;

    open spec fn view(&self) -> ReplyView {
        match self {
            Reply::Unreachable => ReplyView::Unreachable,
            Reply::Answered { status, body } => ReplyView::Answered { status: *status, body: body@ },
        }
    }
}

/// The address asked for the rate of the pair now.
pub open spec fn today_url(cur1: Seq<char>, cur2: Seq<char>, api_key: Seq<char>) -> Seq<char> {
    "https://free.currconv.com/api/v7/convert?q="@ + cur1 + "_"@ + cur2
        + "&compact=ultra&apiKey="@ + api_key
}

/// The address asked for the rate of the pair on `date`.
pub open spec fn past_url(cur1: Seq<char>, cur2: Seq<char>, date: Seq<char>, api_key: Seq<char>) -> Seq<
    char,
> {
    "https://free.currconv.com/api/v7/convert?q="@ + cur1 + "_"@ + cur2 + "&compact=ultra&date="@
        + date + "&apiKey="@ + api_key
}

/// A status from 200 to 299.
pub open spec fn is_success(status: u16) -> bool {
    200 <= status && status <= 299
}

/// The error that a reply stands for, if any.
pub open spec fn failure_of(reply: ReplyView) -> Option<FetchError> {
    match reply {
        ReplyView::Unreachable => Some(FetchError::NetworkError),
        ReplyView::Answered { status, body } => if is_success(status) {
            None
        } else {
            Some(FetchError::UpstreamError)
        },
    }
}

/// The two bodies if both replies are successes, else the first failure:
/// today's reply is judged before yesterday's.
pub open spec fn responses_of(today: ReplyView, yesterday: ReplyView) -> Result<
    (Seq<char>, Seq<char>),
    FetchError,
> {
    match (failure_of(today), failure_of(yesterday)) {
        (Some(e), _) => Err(e),
        (None, Some(e)) => Err(e),
        (None, None) => Ok((today->body, yesterday->body)),
    }
}

/// Writes the two addresses to ask: the one for today first, then the one for
/// `yesterday_date`.
///
/// Fails with `MissingCredential`, and only so, when there is no access key.
pub fn request_urls(cur1: &str, cur2: &str, yesterday_date: &str, api_key: Option<&str>) -> (result:
    Result<(String, String), FetchError>)
    ensures
        api_key is None <==> result == Err::<(String, String), FetchError>(
            FetchError::MissingCredential,
        ),
        api_key matches Some(key) ==> {
            &&& result matches Ok(urls)
            &&& urls.0@ == today_url(cur1@, cur2@, key@)
            &&& urls.1@ == past_url(cur1@, cur2@, yesterday_date@, key@)
        },
{
    match api_key {
        None => Err(FetchError::MissingCredential),
        Some(key) => {
            let mut today = String::from_str("https://free.currconv.com/api/v7/convert?q=");
            today.append(cur1);
            today.append("_");
            today.append(cur2);
            today.append("&compact=ultra&apiKey=");
            today.append(key);
            let mut past = String::from_str("https://free.currconv.com/api/v7/convert?q=");
            past.append(cur1);
            past.append("_");
            past.append(cur2);
            past.append("&compact=ultra&date=");
            past.append(yesterday_date);
            past.append("&apiKey=");
            past.append(key);
            Ok((today, past))
        },
    }
}

/// Judges the two replies of a lookup.
///
/// Gives the two bodies, today's first, if both requests got through and both
/// replies report success. A request that did not get through is a
/// `NetworkError`, a reply with another status an `UpstreamError`.
pub fn raw_responses(today: Reply, yesterday: Reply) -> (result: Result<(String, String), FetchError>)
    ensures
        match result {
            Ok(bodies) => responses_of(today@, yesterday@) == Ok::<(Seq<char>, Seq<char>), FetchError>(
                (bodies.0@, bodies.1@),
            ),
            Err(e) => responses_of(today@, yesterday@) == Err::<(Seq<char>, Seq<char>), FetchError>(e),
        },
        result is Err ==> result != Err::<(String, String), FetchError>(
            FetchError::MissingCredential,
        ),
{
    match today {
        Reply::Unreachable => Err(FetchError::NetworkError),
        Reply::Answered { status: today_status, body: today_body } => {
            if today_status < 200 || today_status > 299 {
                return Err(FetchError::UpstreamError);
            }
            match yesterday {
                Reply::Unreachable => Err(FetchError::NetworkError),
                Reply::Answered { status: yesterday_status, body: yesterday_body } => {
                    if yesterday_status < 200 || yesterday_status > 299 {
                        Err(FetchError::UpstreamError)
                    } else {
                        Ok((today_body, yesterday_body))
                    }
                },
            }
        },
    }
}

} // verus!
