//! The activity of one address.

use vstd::prelude::*;
use crate::digits::{decimal, decimal_text};
use crate::money::{UsdAmount, UsdAmountView};
use crate::paint::{paint, painted, Color};
use crate::table::{paint_row, painted_row, Table, TableView};
use crate::units::{btc_label, unsigned_label};

verus! {

/// What the service reports of an address; amounts are in satoshis.
#[derive(Clone, Copy, Debug, PartialEq, Eq, Structural)]
pub struct BitcoinAddress {
    /// Number of transactions that the address took part in.
    pub n_tx: u64,
    pub total_received: u64,
    pub total_sent: u64,
    pub final_balance: u64,
}

/// The three amounts of an address in US dollars.
#[derive(Debug)]
pub struct AddressUsd {
    pub total_received: UsdAmount,
    pub total_sent: UsdAmount,
    pub final_balance: UsdAmount,
}

/// What an [`AddressUsd`] holds.
pub struct AddressUsdView {
    pub total_received: UsdAmountView,
    pub total_sent: UsdAmountView,
    pub final_balance: UsdAmountView,
}

impl View for AddressUsd {
    type V = AddressUsdView;

    open spec fn view(&self) -> AddressUsdView {
        AddressUsdView {
            total_received: self.total_received@,
            total_sent: self.total_sent@,
            final_balance: self.final_balance@,
        }
    }
}

impl BitcoinAddress {
    /// The row of the amounts in bitcoin, after the number of
    /// transactions.
    pub open spec fn bitcoin_row(self) -> Seq<Seq<char>> {
        painted_row(
            Color::Cyan,
            seq![
                decimal(self.n_tx as nat),
                btc_label(self.total_received as int),
                btc_label(self.total_sent as int),
                btc_label(self.final_balance as int),
            ],
        )
    }

    /// The table of an address: a row in bitcoin and, under it, a row in
    /// US dollars.
    pub open spec fn summary(self, usd: AddressUsdView) -> TableView {
        TableView {
            titles: seq![
                "Transactions Made"@,
                "Total Amount Received"@,
                "Total Amount Sent"@,
                "Total Balance in the Account"@,
            ],
            rows: seq![self.bitcoin_row(), dollar_row(usd)],
            foreground: Color::Cyan,
        }
    }

    /// The table of an address: the number of its transactions and its
    /// three amounts in bitcoin, and under each amount the same in US
    /// dollars.
    pub fn summary_table(&self, usd: &AddressUsd) -> (table: Table)
        ensures
            table@ == self.summary(usd@),
            table@.has_width(4),
    {
        let bitcoin: Vec<String> = vec![
            decimal_text(self.n_tx as u128),
            unsigned_label(self.total_received as u128),
            unsigned_label(self.total_sent as u128),
            unsigned_label(self.final_balance as u128),
        ];
        assert(bitcoin.deep_view() =~= seq![
            decimal(self.n_tx as nat),
            btc_label(self.total_received as int),
            btc_label(self.total_sent as int),
            btc_label(self.final_balance as int),
        ]);
        let dollars: Vec<String> = vec![
            " ".to_owned(),
            paint(Color::Cyan, usd.total_received.label().as_str()),
            paint(Color::Cyan, usd.total_sent.label().as_str()),
            paint(Color::Cyan, usd.final_balance.label().as_str()),
        ];
        assert(dollars.deep_view() =~= dollar_row(usd@));
        let titles: Vec<String> = vec![
            "Transactions Made".to_owned(),
            "Total Amount Received".to_owned(),
            "Total Amount Sent".to_owned(),
            "Total Balance in the Account".to_owned(),
        ];
        assert(titles.deep_view() =~= self.summary(usd@).titles);
        let rows: Vec<Vec<String>> = vec![paint_row(Color::Cyan, &bitcoin), dollars];
        let table = Table { titles, rows, foreground: Color::Cyan };
        assert(table@.rows =~= self.summary(usd@).rows);
        table
    }
}

/// The row of the amounts in US dollars; its first cell is blank.
pub open spec fn dollar_row(usd: AddressUsdView) -> Seq<Seq<char>> {
    seq![
        " "@,
        painted(Color::Cyan, usd.total_received.text()),
        painted(Color::Cyan, usd.total_sent.text()),
        painted(Color::Cyan, usd.final_balance.text()),
    ]
}

} // verus!
