use fx_lookup::extract::{
    current_quote, get_prices_from_api_response, historical_quote, make_pair_key, rate_samples,
    rate_texts, ExtractionError, Quote,
};
use fx_lookup::rate::RateSample;

fn raw(today: &str, yesterday: &str) -> (String, String) {
    (today.to_string(), yesterday.to_string())
}

fn texts(today: &str, yesterday: &str) -> Result<(String, String), ExtractionError> {
    Ok((today.to_string(), yesterday.to_string()))
}

fn sample(x: f32) -> RateSample {
    RateSample::from_bits(x.to_bits())
}

const DATE: &str = "2024-03-14";

#[test]
fn both_rates_are_read_as_text() {
    let answers = raw(r#"{"USD_CHF":0.91}"#, r#"{"USD_CHF":{"2024-03-14":0.89}}"#);
    assert_eq!(get_prices_from_api_response("USD", "CHF", answers, DATE), texts("0.91", "0.89"));
}

#[test]
fn the_requested_pair_is_the_one_looked_up() {
    let answers = raw(
        r#"{"USD_CHF":0.91,"EUR_GBP":0.85}"#,
        r#"{"USD_CHF":{"2024-03-14":0.89},"EUR_GBP":{"2024-03-14":0.86}}"#,
    );
    assert_eq!(get_prices_from_api_response("EUR", "GBP", answers, DATE), texts("0.85", "0.86"));
}

#[test]
fn the_requested_date_is_the_one_looked_up() {
    let answers = raw(
        r#"{"USD_CHF":0.91}"#,
        r#"{"USD_CHF":{"2024-03-13":0.5,"2024-03-14":0.89,"2024-03-15":0.7}}"#,
    );
    assert_eq!(get_prices_from_api_response("USD", "CHF", answers, DATE), texts("0.91", "0.89"));
}

#[test]
fn the_text_is_the_compact_form_of_the_value() {
    let answers = raw(
        "  {  \"USD_CHF\" :\n 0.9100 }  ",
        "{\"USD_CHF\": { \"2024-03-14\" :\t1 } }",
    );
    assert_eq!(get_prices_from_api_response("USD", "CHF", answers, DATE), texts("0.91", "1"));
}

#[test]
fn a_value_that_is_no_number_is_still_read_as_text() {
    let answers = raw(r#"{"USD_CHF":"0.91"}"#, r#"{"USD_CHF":{"2024-03-14":null}}"#);
    assert_eq!(
        get_prices_from_api_response("USD", "CHF", answers, DATE),
        texts("\"0.91\"", "null")
    );
}

#[test]
fn missing_pair_today_is_key_not_found() {
    let answers = raw(r#"{"EUR_USD":1.08}"#, r#"{"USD_CHF":{"2024-03-14":0.89}}"#);
    assert_eq!(
        get_prices_from_api_response("USD", "CHF", answers, DATE),
        Err(ExtractionError::KeyNotFound)
    );
    let answers = raw("{}", r#"{"USD_CHF":{"2024-03-14":0.89}}"#);
    assert_eq!(
        get_prices_from_api_response("USD", "CHF", answers, DATE),
        Err(ExtractionError::KeyNotFound)
    );
}

#[test]
fn missing_pair_yesterday_is_key_not_found() {
    let answers = raw(r#"{"USD_CHF":0.91}"#, "{}");
    assert_eq!(
        get_prices_from_api_response("USD", "CHF", answers, DATE),
        Err(ExtractionError::KeyNotFound)
    );
}

#[test]
fn missing_date_is_key_not_found() {
    let answers = raw(r#"{"USD_CHF":0.91}"#, r#"{"USD_CHF":{"2024-03-13":0.89}}"#);
    assert_eq!(
        get_prices_from_api_response("USD", "CHF", answers, DATE),
        Err(ExtractionError::KeyNotFound)
    );
}

#[test]
fn pair_without_dates_is_key_not_found() {
    let answers = raw(r#"{"USD_CHF":0.91}"#, r#"{"USD_CHF":0.89}"#);
    assert_eq!(
        get_prices_from_api_response("USD", "CHF", answers, DATE),
        Err(ExtractionError::KeyNotFound)
    );
}

#[test]
fn the_pair_is_looked_up_in_the_order_given() {
    let answers = raw(r#"{"CHF_USD":1.1}"#, r#"{"CHF_USD":{"2024-03-14":1.12}}"#);
    assert_eq!(
        get_prices_from_api_response("USD", "CHF", answers, DATE),
        Err(ExtractionError::KeyNotFound)
    );
}

#[test]
fn text_that_is_not_json_is_malformed() {
    for bad in ["", "not json", "{", r#"{"USD_CHF":}"#, r#"{"USD_CHF":0.91} trailing"#, "{'USD_CHF':1}"] {
        let answers = raw(bad, r#"{"USD_CHF":{"2024-03-14":0.89}}"#);
        assert_eq!(
            get_prices_from_api_response("USD", "CHF", answers, DATE),
            Err(ExtractionError::MalformedPayload),
            "today {:?}",
            bad
        );
        let answers = raw(r#"{"USD_CHF":0.91}"#, bad);
        assert_eq!(
            get_prices_from_api_response("USD", "CHF", answers, DATE),
            Err(ExtractionError::MalformedPayload),
            "yesterday {:?}",
            bad
        );
    }
}

#[test]
fn json_that_is_no_object_is_malformed() {
    for bad in ["[]", "[0.91]", "0.91", "\"USD_CHF\"", "null", "true"] {
        let answers = raw(bad, r#"{"USD_CHF":{"2024-03-14":0.89}}"#);
        assert_eq!(
            get_prices_from_api_response("USD", "CHF", answers, DATE),
            Err(ExtractionError::MalformedPayload),
            "today {:?}",
            bad
        );
    }
}

#[test]
fn a_malformed_answer_counts_before_a_missing_key() {
    let answers = raw("{}", "oops");
    assert_eq!(
        get_prices_from_api_response("USD", "CHF", answers, DATE),
        Err(ExtractionError::MalformedPayload)
    );
    let answers = raw("oops", "{}");
    assert_eq!(
        get_prices_from_api_response("USD", "CHF", answers, DATE),
        Err(ExtractionError::MalformedPayload)
    );
}

#[test]
fn pair_key_joins_the_codes_with_an_underscore() {
    assert_eq!(make_pair_key("USD", "CHF"), "USD_CHF");
    assert_eq!(make_pair_key("", ""), "_");
    assert_eq!(make_pair_key("a_b", "c"), "a_b_c");
}

#[test]
fn current_quote_of_each_kind() {
    assert_eq!(current_quote(r#"{"USD_CHF":0.91}"#, "USD_CHF"), Quote::Text("0.91".to_string()));
    assert_eq!(current_quote(r#"{"USD_CHF":0.91}"#, "USD_EUR"), Quote::Missing);
    assert_eq!(current_quote(r#"["USD_CHF"]"#, "USD_CHF"), Quote::Malformed);
    assert_eq!(current_quote("USD_CHF", "USD_CHF"), Quote::Malformed);
    assert_eq!(
        current_quote(r#"{"USD_CHF":{"a":[1,2]}}"#, "USD_CHF"),
        Quote::Text(r#"{"a":[1,2]}"#.to_string())
    );
}

#[test]
fn historical_quote_of_each_kind() {
    let answer = r#"{"USD_CHF":{"2024-03-14":0.89}}"#;
    assert_eq!(historical_quote(answer, "USD_CHF", DATE), Quote::Text("0.89".to_string()));
    assert_eq!(historical_quote(answer, "USD_CHF", "2024-03-15"), Quote::Missing);
    assert_eq!(historical_quote(answer, "USD_EUR", DATE), Quote::Missing);
    assert_eq!(historical_quote(r#"{"USD_CHF":[0.89]}"#, "USD_CHF", DATE), Quote::Missing);
    assert_eq!(historical_quote("[]", "USD_CHF", DATE), Quote::Malformed);
    assert_eq!(historical_quote("{", "USD_CHF", DATE), Quote::Malformed);
}

#[test]
fn quotes_are_put_together_by_rank_of_failure() {
    let text = |s: &str| Quote::Text(s.to_string());
    assert_eq!(rate_texts(text("1"), text("2")), texts("1", "2"));
    assert_eq!(rate_texts(text("1"), Quote::Missing), Err(ExtractionError::KeyNotFound));
    assert_eq!(rate_texts(Quote::Missing, text("2")), Err(ExtractionError::KeyNotFound));
    assert_eq!(rate_texts(Quote::Missing, Quote::Missing), Err(ExtractionError::KeyNotFound));
    assert_eq!(rate_texts(text("1"), Quote::Malformed), Err(ExtractionError::MalformedPayload));
    assert_eq!(rate_texts(Quote::Malformed, text("2")), Err(ExtractionError::MalformedPayload));
    assert_eq!(rate_texts(Quote::Missing, Quote::Malformed), Err(ExtractionError::MalformedPayload));
    assert_eq!(rate_texts(Quote::Malformed, Quote::Missing), Err(ExtractionError::MalformedPayload));
    assert_eq!(
        rate_texts(Quote::Malformed, Quote::Malformed),
        Err(ExtractionError::MalformedPayload)
    );
}

#[test]
fn finite_numbers_are_accepted_as_rates() {
    assert_eq!(
        rate_samples(Some(sample(0.91)), Some(sample(0.89))),
        Ok((sample(0.91), sample(0.89)))
    );
    assert_eq!(rate_samples(Some(sample(0.0)), Some(sample(-1.5))), Ok((sample(0.0), sample(-1.5))));
    assert_eq!(
        rate_samples(Some(sample(f32::MAX)), Some(sample(f32::MIN))),
        Ok((sample(f32::MAX), sample(f32::MIN)))
    );
}

#[test]
fn text_that_did_not_parse_is_not_a_number() {
    assert_eq!(rate_samples(None, Some(sample(0.89))), Err(ExtractionError::NotANumber));
    assert_eq!(rate_samples(Some(sample(0.91)), None), Err(ExtractionError::NotANumber));
    assert_eq!(rate_samples(None, None), Err(ExtractionError::NotANumber));
}

#[test]
fn numbers_that_are_not_finite_are_not_a_number() {
    for bad in [f32::NAN, f32::INFINITY, f32::NEG_INFINITY] {
        assert_eq!(
            rate_samples(Some(sample(bad)), Some(sample(0.89))),
            Err(ExtractionError::NotANumber)
        );
        assert_eq!(
            rate_samples(Some(sample(0.91)), Some(sample(bad))),
            Err(ExtractionError::NotANumber)
        );
    }
}

#[test]
fn extracted_texts_parse_to_the_quoted_rates() {
    let answers = raw(r#"{"USD_CHF":0.91}"#, r#"{"USD_CHF":{"2024-03-14":0.89}}"#);
    let (today, yesterday) = get_prices_from_api_response("USD", "CHF", answers, DATE).unwrap();
    let parse = |s: &str| s.parse::<f32>().ok().map(sample);
    assert_eq!(
        rate_samples(parse(&today), parse(&yesterday)),
        Ok((sample(0.91), sample(0.89)))
    );
    let answers = raw(r#"{"USD_CHF":"0.91"}"#, r#"{"USD_CHF":{"2024-03-14":0.89}}"#);
    let (today, yesterday) = get_prices_from_api_response("USD", "CHF", answers, DATE).unwrap();
    assert_eq!(rate_samples(parse(&today), parse(&yesterday)), Err(ExtractionError::NotANumber));
    let answers = raw(r#"{"USD_CHF":1e39}"#, r#"{"USD_CHF":{"2024-03-14":0.89}}"#);
    let (today, yesterday) = get_prices_from_api_response("USD", "CHF", answers, DATE).unwrap();
    assert_eq!(rate_samples(parse(&today), parse(&yesterday)), Err(ExtractionError::NotANumber));
}
