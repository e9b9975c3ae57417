use fx_lookup::history::{
    get_history_from_db, insert_outcome, insert_record_into_db, print_records, read_row, Line,
    Record, Row, StoreError,
};
use fx_lookup::rate::{Colour, RateSample, Trend};

fn sample(x: f32) -> RateSample {
    RateSample::from_bits(x.to_bits())
}

fn record(cur1: &str, cur2: &str, rate: f32, trend: Trend) -> Record {
    Record { currency1: cur1.to_string(), currency2: cur2.to_string(), rate: sample(rate), trend }
}

fn row(cur1: &str, cur2: &str, rate: f32, color: &str) -> Row {
    Row { cur1: cur1.to_string(), cur2: cur2.to_string(), rate: sample(rate), color: color.to_string() }
}

#[test]
fn a_record_becomes_a_row_with_the_word_of_its_trend() {
    assert_eq!(
        insert_record_into_db(&record("USD", "CHF", 0.91, Trend::Increased)),
        row("USD", "CHF", 0.91, "green")
    );
    assert_eq!(
        insert_record_into_db(&record("EUR", "GBP", 0.85, Trend::Decreased)),
        row("EUR", "GBP", 0.85, "red")
    );
    assert_eq!(
        insert_record_into_db(&record("JPY", "USD", 0.0067, Trend::Unchanged)),
        row("JPY", "USD", 0.0067, "normal")
    );
}

#[test]
fn trend_words() {
    assert_eq!(Trend::Decreased.token(), "red");
    assert_eq!(Trend::Increased.token(), "green");
    assert_eq!(Trend::Unchanged.token(), "normal");
}

#[test]
fn trend_words_read_back() {
    for trend in [Trend::Decreased, Trend::Increased, Trend::Unchanged] {
        assert_eq!(Trend::from_token(&trend.token()), Some(trend));
    }
}

#[test]
fn other_words_stand_for_no_trend() {
    for word in ["", "RED", "Red", "red ", " green", "unchanged", "increased", "blue", "norma", "normal\n"] {
        assert_eq!(Trend::from_token(word), None, "word {:?}", word);
    }
}

#[test]
fn appended_record_is_the_last_one_read() {
    let mut rows = vec![row("EUR", "GBP", 0.85, "red"), row("JPY", "USD", 0.0067, "normal")];
    let appended = record("USD", "CHF", 0.91, Trend::Increased);
    rows.push(insert_record_into_db(&appended));
    let records = get_history_from_db(Some(rows)).unwrap();
    assert_eq!(records.len(), 3);
    let last = records.last().unwrap();
    assert_eq!(last.currency1, "USD");
    assert_eq!(last.currency2, "CHF");
    assert_eq!(last.rate.to_bits(), 0.91f32.to_bits());
    assert_eq!(last.trend, Trend::Increased);
    assert_eq!(*last, appended);
    assert_eq!(records[0], record("EUR", "GBP", 0.85, Trend::Decreased));
    assert_eq!(records[1], record("JPY", "USD", 0.0067, Trend::Unchanged));
}

#[test]
fn the_rate_is_kept_bit_for_bit() {
    for bits in [0u32, 0x8000_0000, 1, 0x3f68_f5c3, 0x3f68_f5c2, 0x7f7f_ffff, 0x7fc0_0001] {
        let appended = Record {
            currency1: "USD".to_string(),
            currency2: "CHF".to_string(),
            rate: RateSample::from_bits(bits),
            trend: Trend::Unchanged,
        };
        let records = get_history_from_db(Some(vec![insert_record_into_db(&appended)])).unwrap();
        assert_eq!(records[0].rate.to_bits(), bits);
    }
}

#[test]
fn two_reads_of_the_same_rows_agree() {
    let rows = || vec![row("EUR", "GBP", 0.85, "red"), row("USD", "CHF", 0.91, "green")];
    assert_eq!(get_history_from_db(Some(rows())), get_history_from_db(Some(rows())));
    let corrupt = || vec![row("EUR", "GBP", 0.85, "red"), row("USD", "CHF", 0.91, "up")];
    assert_eq!(get_history_from_db(Some(corrupt())), get_history_from_db(Some(corrupt())));
    assert_eq!(get_history_from_db(None), get_history_from_db(None));
}

#[test]
fn three_appended_records_come_back_in_the_order_appended() {
    let first = record("USD", "CHF", 0.91, Trend::Increased);
    let second = record("EUR", "USD", 1.08, Trend::Decreased);
    let third = record("USD", "CHF", 0.91, Trend::Unchanged);
    let mut rows = Vec::new();
    for appended in [&first, &second, &third] {
        rows.push(insert_record_into_db(appended));
    }
    assert_eq!(get_history_from_db(Some(rows)), Ok(vec![first, second, third]));
}

#[test]
fn an_empty_table_is_an_empty_history() {
    assert_eq!(get_history_from_db(Some(Vec::new())), Ok(Vec::new()));
}

#[test]
fn an_unknown_word_is_a_corrupt_record() {
    assert_eq!(
        get_history_from_db(Some(vec![row("USD", "CHF", 0.91, "purple")])),
        Err(StoreError::CorruptRecord)
    );
    assert_eq!(
        get_history_from_db(Some(vec![
            row("USD", "CHF", 0.91, "green"),
            row("USD", "CHF", 0.92, ""),
            row("USD", "CHF", 0.93, "red"),
        ])),
        Err(StoreError::CorruptRecord)
    );
    assert_eq!(
        get_history_from_db(Some(vec![row("USD", "CHF", 0.91, "green"), row("USD", "CHF", 0.92, "Green")])),
        Err(StoreError::CorruptRecord)
    );
}

#[test]
fn a_corrupt_history_stays_corrupt_after_an_append() {
    let mut rows = vec![row("USD", "CHF", 0.91, "purple")];
    rows.push(insert_record_into_db(&record("USD", "CHF", 0.91, Trend::Increased)));
    assert_eq!(get_history_from_db(Some(rows)), Err(StoreError::CorruptRecord));
}

#[test]
fn a_table_that_could_not_be_read_is_unavailable() {
    assert_eq!(get_history_from_db(None), Err(StoreError::StoreUnavailable));
}

#[test]
fn a_failed_write_is_reported() {
    assert_eq!(insert_outcome(true), Ok(()));
    assert_eq!(insert_outcome(false), Err(StoreError::StoreUnavailable));
}

#[test]
fn one_row_is_read_back() {
    assert_eq!(
        read_row(&row("USD", "CHF", 0.91, "red")),
        Some(record("USD", "CHF", 0.91, Trend::Decreased))
    );
    assert_eq!(read_row(&row("USD", "CHF", 0.91, "crimson")), None);
}

#[test]
fn codes_are_stored_as_they_are() {
    let odd = record("usd", "Swiss francs", 1.0, Trend::Unchanged);
    let records = get_history_from_db(Some(vec![insert_record_into_db(&odd)])).unwrap();
    assert_eq!(records, vec![odd]);
}

#[test]
fn lines_show_pair_rate_and_colour() {
    let records = vec![
        record("USD", "CHF", 0.91, Trend::Increased),
        record("EUR", "GBP", 0.85, Trend::Decreased),
        record("JPY", "USD", 0.0067, Trend::Unchanged),
    ];
    assert_eq!(
        print_records(&records),
        vec![
            Line { label: "USD->CHF: ".to_string(), rate: sample(0.91), colour: Colour::Green },
            Line { label: "EUR->GBP: ".to_string(), rate: sample(0.85), colour: Colour::Red },
            Line { label: "JPY->USD: ".to_string(), rate: sample(0.0067), colour: Colour::Normal },
        ]
    );
}

#[test]
fn no_records_give_no_lines() {
    assert_eq!(print_records(&Vec::new()), Vec::new());
}
