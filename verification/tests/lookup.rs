use btc_analyser::address::{AddressUsd, BitcoinAddress};
use btc_analyser::money::{UsdAmount, BALANCE_DECIMALS, USD_DECIMALS};
use btc_analyser::paint::Color;
use btc_analyser::transaction::{Input, Output, PrevOut, Transaction};
use btc_analyser::units::SATOSHIS_PER_BTC;

fn input(addr: &str, value: u64) -> Input {
    Input { prev_out: PrevOut { addr: addr.to_string(), value } }
}

fn output(addr: &str, value: u64) -> Output {
    Output { value, addr: addr.to_string() }
}

fn painted(code: u8, text: &str) -> String {
    format!("\u{1b}[{}m{}\u{1b}[0m", code, text)
}

fn usd_of(satoshis: u64, price: f64, places: u8) -> UsdAmount {
    let usd = satoshis as f64 / SATOSHIS_PER_BTC as f64 * price;
    let text = format!("{:.*}", places as usize, usd.abs());
    let (whole, fraction) = text.split_once('.').unwrap();
    UsdAmount::new(usd < 0.0, whole.parse().unwrap(), fraction.parse().unwrap(), places).unwrap()
}

#[test]
fn one_bitcoin_in_and_one_bitcoin_out() {
    let transaction = Transaction {
        inputs: vec![input("from", 100_000_000)],
        out: vec![output("first", 40_000_000), output("second", 60_000_000)],
        hash: "h".to_string(),
    };
    assert_eq!(transaction.total_input(), 100_000_000);
    assert_eq!(transaction.total_output(), 100_000_000);
    assert_eq!(transaction.total_input() as f64 / SATOSHIS_PER_BTC as f64, 1.0);
    assert_eq!(transaction.total_output() as f64 / SATOSHIS_PER_BTC as f64, 1.0);
    let totals = transaction.totals_table();
    assert_eq!(totals.titles, vec!["Total Input", "Total Output"]);
    assert_eq!(totals.foreground, Color::Yellow);
    assert_eq!(totals.rows, vec![vec![painted(33, "1 BTC"), painted(33, "1 BTC")]]);
}

#[test]
fn inputs_and_outputs_are_listed_in_order() {
    let transaction = Transaction {
        inputs: vec![input("from", 100_000_000), input("also", 5)],
        out: vec![output("first", 40_000_000), output("second", 60_000_000), output("", 0)],
        hash: "h".to_string(),
    };
    let inputs = transaction.inputs_table();
    assert_eq!(inputs.titles, vec!["Address (input)", "Value"]);
    assert_eq!(inputs.foreground, Color::Green);
    assert_eq!(
        inputs.rows,
        vec![
            vec![painted(32, "from"), painted(32, "1 BTC")],
            vec![painted(32, "also"), painted(32, "0.00000005 BTC")],
        ]
    );
    let outputs = transaction.outputs_table();
    assert_eq!(outputs.titles, vec!["Address (output)", "Value"]);
    assert_eq!(outputs.foreground, Color::Green);
    assert_eq!(
        outputs.rows,
        vec![
            vec![painted(32, "first"), painted(32, "0.4 BTC")],
            vec![painted(32, "second"), painted(32, "0.6 BTC")],
            vec![painted(32, ""), painted(32, "0 BTC")],
        ]
    );
}

#[test]
fn a_transaction_without_inputs_or_outputs() {
    let transaction = Transaction { inputs: vec![], out: vec![], hash: String::new() };
    assert_eq!(transaction.total_input(), 0);
    assert_eq!(transaction.total_output(), 0);
    assert!(transaction.inputs_table().rows.is_empty());
    assert!(transaction.outputs_table().rows.is_empty());
    assert_eq!(
        transaction.totals_table().rows,
        vec![vec![painted(33, "0 BTC"), painted(33, "0 BTC")]]
    );
}

#[test]
fn totals_leave_the_range_of_one_value() {
    let transaction = Transaction {
        inputs: vec![input("a", u64::MAX), input("b", u64::MAX), input("c", 2)],
        out: vec![output("d", u64::MAX), output("e", 1)],
        hash: String::new(),
    };
    assert_eq!(transaction.total_input(), 2 * u64::MAX as u128 + 2);
    assert_eq!(transaction.total_output(), u64::MAX as u128 + 1);
    assert_eq!(
        transaction.totals_table().rows[0],
        vec![painted(33, "368934881474.19103232 BTC"), painted(33, "184467440737.09551616 BTC")]
    );
}

#[test]
fn an_address_in_bitcoin_and_in_dollars() {
    let address = BitcoinAddress {
        n_tx: 12,
        total_received: 300_000_000,
        total_sent: 100_000_000,
        final_balance: 200_000_000,
    };
    let price = 20000.0;
    assert_eq!(address.total_received as f64 / SATOSHIS_PER_BTC as f64 * price, 60000.0);
    assert_eq!(address.total_sent as f64 / SATOSHIS_PER_BTC as f64 * price, 20000.0);
    assert_eq!(address.final_balance as f64 / SATOSHIS_PER_BTC as f64 * price, 40000.0);
    let usd = AddressUsd {
        total_received: usd_of(address.total_received, price, USD_DECIMALS),
        total_sent: usd_of(address.total_sent, price, USD_DECIMALS),
        final_balance: usd_of(address.final_balance, price, BALANCE_DECIMALS),
    };
    assert_eq!(usd.total_received.whole_dollars(), 60000);
    assert_eq!(usd.total_sent.whole_dollars(), 20000);
    assert_eq!(usd.final_balance.whole_dollars(), 40000);
    let table = address.summary_table(&usd);
    assert_eq!(
        table.titles,
        vec![
            "Transactions Made",
            "Total Amount Received",
            "Total Amount Sent",
            "Total Balance in the Account",
        ]
    );
    assert_eq!(table.foreground, Color::Cyan);
    assert_eq!(
        table.rows,
        vec![
            vec![painted(36, "12"), painted(36, "3 BTC"), painted(36, "1 BTC"), painted(36, "2 BTC")],
            vec![
                " ".to_string(),
                painted(36, "$60,000.00000"),
                painted(36, "$20,000.00000"),
                painted(36, "$40,000.000"),
            ],
        ]
    );
}

#[test]
fn an_address_that_was_never_used() {
    let address = BitcoinAddress { n_tx: 0, total_received: 0, total_sent: 0, final_balance: 0 };
    let usd = AddressUsd {
        total_received: UsdAmount::zero(USD_DECIMALS),
        total_sent: UsdAmount::zero(USD_DECIMALS),
        final_balance: UsdAmount::zero(BALANCE_DECIMALS),
    };
    let table = address.summary_table(&usd);
    assert_eq!(
        table.rows,
        vec![
            vec![painted(36, "0"), painted(36, "0 BTC"), painted(36, "0 BTC"), painted(36, "0 BTC")],
            vec![
                " ".to_string(),
                painted(36, "$0.00000"),
                painted(36, "$0.00000"),
                painted(36, "$0.000"),
            ],
        ]
    );
    let busy = BitcoinAddress { n_tx: u64::MAX, total_received: u64::MAX, total_sent: 1, final_balance: 0 };
    assert_eq!(busy.summary_table(&usd).rows[0][0], painted(36, "18446744073709551615"));
    assert_eq!(busy.summary_table(&usd).rows[0][1], painted(36, "184467440737.09551615 BTC"));
}
