use btc_analyser::clock::TimeOfDay;
use btc_analyser::money::{UsdAmount, USD_DECIMALS};
use btc_analyser::paint::Color;
use btc_analyser::unconfirmed::{
    amount_satoshis, decode_transactions, listing_table, total_table, transaction_rows,
    unconfirmed_transactions, DecodeError, PricedTransaction, RawTransaction, UndefinedTransaction,
};
use btc_analyser::units::SATOSHIS_PER_BTC;

fn noon() -> TimeOfDay {
    TimeOfDay::new(12, 0, 0).unwrap()
}

fn yellow(text: &str) -> String {
    format!("\u{1b}[33m{}\u{1b}[0m", text)
}

fn usd_of(satoshis: i128, price: f64, places: u8) -> UsdAmount {
    let usd = satoshis as f64 / SATOSHIS_PER_BTC as f64 * price;
    let text = format!("{:.*}", places as usize, usd.abs());
    let (whole, fraction) = text.split_once('.').unwrap();
    UsdAmount::new(usd < 0.0, whole.parse().unwrap(), fraction.parse().unwrap(), places).unwrap()
}

#[test]
fn one_transaction_of_one_bitcoin_at_fifty_thousand() {
    let body = r#"{"txs":[{"hash":"a","out":[{"value":100000000}]}]}"#;
    let rows = unconfirmed_transactions(body, 10, noon()).unwrap();
    assert_eq!(rows.len(), 1);
    assert_eq!(rows[0].hash, "a");
    assert_eq!(rows[0].amount_satoshis, 100_000_000);
    let amount_btc = rows[0].amount_satoshis as f64 / SATOSHIS_PER_BTC as f64;
    let amount_usd = amount_btc * 50000.0;
    assert_eq!(amount_btc, 1.0);
    assert_eq!(amount_usd, 50000.0);
}

#[test]
fn a_transaction_without_outputs_amounts_to_zero() {
    for body in [
        r#"{"txs":[{"hash":"h","out":[]}]}"#,
        r#"{"txs":[{"hash":"h"}]}"#,
        r#"{"txs":[{"hash":"h","out":null}]}"#,
        r#"{"txs":[{"hash":"h","out":{"value":5}}]}"#,
        r#"{"txs":[{"hash":"h","out":"none"}]}"#,
    ] {
        let rows = unconfirmed_transactions(body, 10, noon()).unwrap();
        assert_eq!(rows.len(), 1);
        assert_eq!(rows[0].hash, "h");
        assert_eq!(rows[0].amount_satoshis, 0);
        assert_eq!(rows[0].amount_satoshis as f64 / SATOSHIS_PER_BTC as f64 * 50000.0, 0.0);
    }
    assert_eq!(amount_satoshis(&Vec::new()), 0);
}

#[test]
fn values_that_are_no_integers_are_skipped() {
    let body = r#"{"txs":[{"hash":"h","out":[
        {"value":100},
        {"value":"250"},
        {"value":1.5},
        {"value":null},
        {"addr":"x"},
        {"value":[7]},
        {"value":true},
        7,
        {"value":23}
    ]}]}"#;
    let rows = unconfirmed_transactions(body, 10, noon()).unwrap();
    assert_eq!(rows.len(), 1);
    assert_eq!(rows[0].amount_satoshis, 123);
}

#[test]
fn values_beyond_sixty_four_signed_bits_are_skipped() {
    let body = r#"{"txs":[{"hash":"h","out":[
        {"value":9223372036854775807},
        {"value":9223372036854775808},
        {"value":18446744073709551615},
        {"value":1}
    ]}]}"#;
    let rows = unconfirmed_transactions(body, 10, noon()).unwrap();
    assert_eq!(rows[0].amount_satoshis, 9_223_372_036_854_775_808);
}

#[test]
fn negative_values_are_added_as_they_are() {
    let body = r#"{"txs":[{"hash":"h","out":[{"value":-5},{"value":2},{"value":-9223372036854775808}]}]}"#;
    let rows = unconfirmed_transactions(body, 10, noon()).unwrap();
    assert_eq!(rows[0].amount_satoshis, -9_223_372_036_854_775_811);
}

#[test]
fn sums_leave_the_range_of_one_value() {
    let outputs = vec![Some(i64::MAX), None, Some(i64::MAX), Some(i64::MAX)];
    assert_eq!(amount_satoshis(&outputs), 3 * i64::MAX as i128);
    let outputs = vec![Some(i64::MIN), Some(i64::MIN)];
    assert_eq!(amount_satoshis(&outputs), 2 * i64::MIN as i128);
    assert_eq!(amount_satoshis(&vec![None, None]), 0);
    assert_eq!(amount_satoshis(&vec![Some(5), None, Some(-2)]), 3);
}

#[test]
fn no_more_rows_than_the_limit() {
    let body = r#"{"txs":[{"hash":"a"},{"hash":"b"},{"hash":"c"},{"hash":"d"}]}"#;
    let hashes = |limit: usize| -> Vec<String> {
        unconfirmed_transactions(body, limit, noon())
            .unwrap()
            .into_iter()
            .map(|row| row.hash)
            .collect()
    };
    assert!(hashes(0).is_empty());
    assert_eq!(hashes(1), vec!["a"]);
    assert_eq!(hashes(3), vec!["a", "b", "c"]);
    assert_eq!(hashes(4), vec!["a", "b", "c", "d"]);
    assert_eq!(hashes(5), vec!["a", "b", "c", "d"]);
    assert_eq!(hashes(usize::MAX), vec!["a", "b", "c", "d"]);
}

#[test]
fn a_document_without_a_list_has_no_rows() {
    for body in [
        "{}",
        "null",
        "[]",
        "7",
        r#""txs""#,
        r#"{"txs":null}"#,
        r#"{"txs":{"hash":"a"}}"#,
        r#"{"txs":"a"}"#,
        r#"{"txs":[]}"#,
        r#"[{"hash":"a"}]"#,
    ] {
        assert!(unconfirmed_transactions(body, 10, noon()).unwrap().is_empty());
    }
}

#[test]
fn a_missing_hash_is_empty() {
    let body = r#"{"txs":[{"out":[{"value":1}]},{"hash":7},{"hash":null},5,{"hash":"x"}]}"#;
    let rows = unconfirmed_transactions(body, 10, noon()).unwrap();
    let hashes: Vec<&str> = rows.iter().map(|row| row.hash.as_str()).collect();
    assert_eq!(hashes, vec!["", "", "", "", "x"]);
    assert_eq!(rows[0].amount_satoshis, 1);
    assert_eq!(rows[3].amount_satoshis, 0);
}

#[test]
fn text_that_is_not_json_is_an_error() {
    for body in ["", "not json", "{", r#"{"txs":[}"#, r#"{"txs":[]} trailing"#, "<html></html>"] {
        match unconfirmed_transactions(body, 10, noon()) {
            Err(DecodeError::Json(_)) => {}
            Ok(rows) => panic!("{} rows from {:?}", rows.len(), body),
        }
    }
}

#[test]
fn every_row_bears_the_time_of_observation() {
    let body = r#"{"txs":[{"hash":"a"},{"hash":"b"},{"hash":"c"}]}"#;
    let time = TimeOfDay::new(7, 8, 9).unwrap();
    let rows = unconfirmed_transactions(body, 10, time).unwrap();
    assert_eq!(rows.len(), 3);
    for row in &rows {
        assert_eq!(row.time.get_hour(), 7);
        assert_eq!(row.time.get_minute(), 8);
        assert_eq!(row.time.get_second(), 9);
    }
}

#[test]
fn a_later_key_of_the_same_name_wins() {
    let body = r#"{"txs":[{"hash":"a","hash":"b","out":[{"value":1,"value":2}]}]}"#;
    let rows = unconfirmed_transactions(body, 10, noon()).unwrap();
    assert_eq!(rows[0].hash, "b");
    assert_eq!(rows[0].amount_satoshis, 2);
}

#[test]
fn transactions_are_read_in_the_order_of_the_document() {
    let document: serde_json::Value = serde_json::from_str(
        r#"{"txs":[{"hash":"z","out":[{"value":3},{"value":"x"},{"value":4}]},{"hash":"a","out":[]}],"other":1}"#,
    )
    .unwrap();
    let transactions = decode_transactions(&document);
    assert_eq!(transactions.len(), 2);
    assert_eq!(transactions[0].hash, "z");
    assert_eq!(transactions[0].outputs, vec![Some(3), None, Some(4)]);
    assert_eq!(transactions[1].hash, "a");
    assert!(transactions[1].outputs.is_empty());
    assert!(decode_transactions(&serde_json::Value::Null).is_empty());
}

#[test]
fn rows_follow_the_transactions() {
    let transactions = vec![
        RawTransaction { hash: "one".to_string(), outputs: vec![Some(1), Some(2)] },
        RawTransaction { hash: "two".to_string(), outputs: vec![None] },
        RawTransaction { hash: "three".to_string(), outputs: vec![] },
    ];
    let rows = transaction_rows(&transactions, 2, noon());
    assert_eq!(rows.len(), 2);
    assert_eq!(rows[0].hash, "one");
    assert_eq!(rows[0].amount_satoshis, 3);
    assert_eq!(rows[1].hash, "two");
    assert_eq!(rows[1].amount_satoshis, 0);
    assert_eq!(transaction_rows(&transactions, 3, noon()).len(), 3);
    assert_eq!(transaction_rows(&transactions, 9, noon()).len(), 3);
    assert!(transaction_rows(&transactions, 0, noon()).is_empty());
    assert!(transaction_rows(&Vec::new(), 9, noon()).is_empty());
}

#[test]
fn a_new_row_holds_what_it_was_given() {
    let row = UndefinedTransaction::new("abc".to_string(), -7, TimeOfDay::new(1, 2, 3).unwrap());
    assert_eq!(row.hash, "abc");
    assert_eq!(row.amount_satoshis, -7);
    assert_eq!(row.time.get_hour(), 1);
    assert_eq!(row.time.get_minute(), 2);
    assert_eq!(row.time.get_second(), 3);
}

#[test]
fn the_listing_has_four_cells_in_each_row() {
    let body = r#"{"txs":[{"hash":"a","out":[{"value":100000000}]},{"hash":"b","out":[{"value":250000000},{"value":1}]}]}"#;
    let time = TimeOfDay::new(9, 5, 0).unwrap();
    let rows: Vec<PricedTransaction> = unconfirmed_transactions(body, 10, time)
        .unwrap()
        .into_iter()
        .map(|transaction| {
            let amount_usd = usd_of(transaction.amount_satoshis, 50000.0, USD_DECIMALS);
            PricedTransaction { transaction, amount_usd }
        })
        .collect();
    let table = listing_table(&rows);
    assert_eq!(table.titles, vec!["Hash", "Bitcoin", "Amount(USD)", "Time"]);
    assert_eq!(table.foreground, Color::Yellow);
    assert_eq!(table.rows.len(), 2);
    assert_eq!(
        table.rows[0],
        vec![yellow("a"), yellow("1 BTC"), yellow("$50,000.00000"), yellow("09:05")]
    );
    assert_eq!(table.rows[1][0], yellow("b"));
    assert_eq!(table.rows[1][1], yellow("2.50000001 BTC"));
    assert_eq!(table.rows[1][2], yellow("$125,000.00050"));
    assert_eq!(table.rows[1][3], yellow("09:05"));
    assert_eq!(rows[0].cells(), table.rows[0]);
    let empty = listing_table(&Vec::new());
    assert_eq!(empty.titles.len(), 4);
    assert!(empty.rows.is_empty());
}

#[test]
fn the_total_stands_in_a_table_of_its_own() {
    let table = total_table(&UsdAmount::new(false, 1_234_567, 50_000, USD_DECIMALS).unwrap());
    assert!(table.titles.is_empty());
    assert_eq!(table.foreground, Color::Purple);
    assert_eq!(
        table.rows,
        vec![vec![
            "\u{1b}[35mTotal Amount\u{1b}[0m".to_string(),
            "\u{1b}[35m$1,234,567.50000\u{1b}[0m".to_string(),
        ]]
    );
}
