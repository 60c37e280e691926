//! One transaction in detail: what it spends and what it pays out.

use vstd::prelude::*;
use crate::paint::Color;
use crate::table::{paint_row, painted_row, Table, TableView};
use crate::units::{btc_label, unsigned_label};

verus! {

/// The output that an input spends.
#[derive(Debug)]
pub struct PrevOut {
    pub addr: String,
    pub value: u64,
}

/// One input of a transaction.
#[derive(Debug)]
pub struct Input {
    pub prev_out: PrevOut,
}

/// One output of a transaction.
#[derive(Debug)]
pub struct Output {
    pub value: u64,
    pub addr: String,
}

/// A transaction with its inputs and outputs; values are in satoshis.
#[derive(Debug)]
pub struct Transaction {
    pub inputs: Vec<Input>,
    pub out: Vec<Output>,
    pub hash: String,
}

/// An address together with a value in satoshis: what a transaction holds
/// of each output, whether it creates or spends it.
pub struct Transfer {
    pub addr: Seq<char>,
    pub value: u64,
}

/// What a [`Transaction`] holds.
pub struct TransactionView {
    pub inputs: Seq<Transfer>,
    pub out: Seq<Transfer>,
    pub hash: Seq<char>,
}

impl View for PrevOut {
    type V = Transfer;

    open spec fn view(&self) -> Transfer {
        Transfer { addr: self.addr@, value: self.value }
    }
}

impl View for Input {
    type V = Transfer;

    open spec fn view(&self) -> Transfer {
        self.prev_out@
    }
}

impl DeepView for Input {
    type V = Transfer;

    open spec fn deep_view(&self) -> Transfer {
        self@
    }
}

impl View for Output {
    type V = Transfer;

    open spec fn view(&self) -> Transfer {
        Transfer { addr: self.addr@, value: self.value }
    }
}

impl DeepView for Output {
    type V = Transfer;

    open spec fn deep_view(&self) -> Transfer {
        self@
    }
}

impl View for Transaction {
    type V = TransactionView;

    open spec fn view(&self) -> TransactionView {
        TransactionView {
            inputs: self.inputs.deep_view(),
            out: self.out.deep_view(),
            hash: self.hash@,
        }
    }
}

/// The sum of the values of a sequence of transfers, in satoshis.
pub open spec fn total_value(transfers: Seq<Transfer>) -> nat
    decreases transfers.len(),
{
    if transfers.len() == 0 {
        0
    } else {
        total_value(transfers.drop_last()) + transfers.last().value as nat
    }
}

/// The row of a transfer: its address and its value in bitcoin.
pub open spec fn transfer_row(transfer: Transfer) -> Seq<Seq<char>> {
    painted_row(Color::Green, seq![transfer.addr, btc_label(transfer.value as int)])
}

/// One row for each transfer, in order.
pub open spec fn transfer_rows(transfers: Seq<Transfer>) -> Seq<Seq<Seq<char>>> {
    Seq::new(transfers.len(), |i: int| transfer_row(transfers[i]))
}

impl TransactionView {
    /// What the transaction spends, in satoshis.
    pub open spec fn total_input(self) -> nat {
        total_value(self.inputs)
    }

    /// What the transaction pays out, in satoshis.
    pub open spec fn total_output(self) -> nat {
        total_value(self.out)
    }

    /// The table of the two totals.
    pub open spec fn totals_table(self) -> TableView {
        TableView {
            titles: seq!["Total Input"@, "Total Output"@],
            rows: seq![
                painted_row(
                    Color::Yellow,
                    seq![
                        btc_label(self.total_input() as int),
                        btc_label(self.total_output() as int),
                    ],
                ),
            ],
            foreground: Color::Yellow,
        }
    }

    /// The table of the inputs.
    pub open spec fn inputs_table(self) -> TableView {
        TableView {
            titles: seq!["Address (input)"@, "Value"@],
            rows: transfer_rows(self.inputs),
            foreground: Color::Green,
        }
    }

    /// The table of the outputs.
    pub open spec fn outputs_table(self) -> TableView {
        TableView {
            titles: seq!["Address (output)"@, "Value"@],
            rows: transfer_rows(self.out),
            foreground: Color::Green,
        }
    }
}

proof fn lemma_total_value_bound(transfers: Seq<Transfer>)
    ensures
        total_value(transfers) <= 0xffff_ffff_ffff_ffff * transfers.len(),
    decreases transfers.len(),
{
    if transfers.len() > 0 {
        lemma_total_value_bound(transfers.drop_last());
    }
}

/// The cells of one transfer.
fn transfer_cells(addr: &String, value: u64) -> (cells: Vec<String>)
    ensures
        cells.deep_view() == transfer_row(Transfer { addr: addr@, value }),
{
    let texts: Vec<String> = vec![addr.clone(), unsigned_label(value as u128)];
    assert(texts.deep_view() =~= seq![addr@, btc_label(value as int)]);
    paint_row(Color::Green, &texts)
}

/// The two titles of a table.
fn two_titles(first: &str, second: &str) -> (titles: Vec<String>)
    ensures
        titles.deep_view() == seq![first@, second@],
{
    let titles: Vec<String> = vec![first.to_owned(), second.to_owned()];
    assert(titles.deep_view() =~= seq![first@, second@]);
    titles
}

impl Transaction {
    /// What the transaction spends, in satoshis: the sum of the values of
    /// the outputs that its inputs spend.
    pub fn total_input(&self) -> (total: u128)
        ensures
            total == self@.total_input(),
    {
        let mut total: u128 = 0;
        let mut i: usize = 0;
        while i < self.inputs.len()
            invariant
                i <= self.inputs.len(),
                total == total_value(self.inputs.deep_view().take(i as int)),
            decreases self.inputs.len() - i,
        {
            proof {
                lemma_total_value_bound(self.inputs.deep_view().take(i as int));
                assert(self.inputs.deep_view().take(i + 1).drop_last() =~= self.inputs.deep_view().take(
                    i as int,
                ));
            }
            total = total + self.inputs[i].prev_out.value as u128;
            i = i + 1;
        }
        assert(self.inputs.deep_view().take(i as int) =~= self.inputs.deep_view());
        total
    }

    /// What the transaction pays out, in satoshis: the sum of the values
    /// of its outputs.
    pub fn total_output(&self) -> (total: u128)
        ensures
            total == self@.total_output(),
    {
        let mut total: u128 = 0;
        let mut i: usize = 0;
        while i < self.out.len()
            invariant
                i <= self.out.len(),
                total == total_value(self.out.deep_view().take(i as int)),
            decreases self.out.len() - i,
        {
            proof {
                lemma_total_value_bound(self.out.deep_view().take(i as int));
                assert(self.out.deep_view().take(i + 1).drop_last() =~= self.out.deep_view().take(
                    i as int,
                ));
            }
            total = total + self.out[i].value as u128;
            i = i + 1;
        }
        assert(self.out.deep_view().take(i as int) =~= self.out.deep_view());
        total
    }

    /// The table of the two totals, each in bitcoin.
    pub fn totals_table(&self) -> (table: Table)
        ensures
            table@ == self@.totals_table(),
            table@.has_width(2),
    {
        let texts: Vec<String> = vec![
            unsigned_label(self.total_input()),
            unsigned_label(self.total_output()),
        ];
        assert(texts.deep_view() =~= seq![
            btc_label(self@.total_input() as int),
            btc_label(self@.total_output() as int),
        ]);
        let rows: Vec<Vec<String>> = vec![paint_row(Color::Yellow, &texts)];
        let table = Table {
            titles: two_titles("Total Input", "Total Output"),
            rows,
            foreground: Color::Yellow,
        };
        assert(table@.rows =~= self@.totals_table().rows);
        table
    }

    /// The table of the inputs: for each the address it spends from and
    /// the value in bitcoin.
    pub fn inputs_table(&self) -> (table: Table)
        ensures
            table@ == self@.inputs_table(),
            table@.has_width(2),
    {
        let mut rows: Vec<Vec<String>> = Vec::new();
        let mut i: usize = 0;
        while i < self.inputs.len()
            invariant
                i <= self.inputs.len(),
                rows@.len() == i,
                forall|k: int|
                    0 <= k < i ==> (#[trigger] rows@[k]).deep_view() == transfer_row(
                        self.inputs@[k]@,
                    ),
            decreases self.inputs.len() - i,
        {
            let input = &self.inputs[i];
            rows.push(transfer_cells(&input.prev_out.addr, input.prev_out.value));
            i = i + 1;
        }
        let table = Table {
            titles: two_titles("Address (input)", "Value"),
            rows,
            foreground: Color::Green,
        };
        assert(table@.rows =~= self@.inputs_table().rows);
        table
    }

    /// The table of the outputs: for each the address it pays to and the
    /// value in bitcoin.
    pub fn outputs_table(&self) -> (table: Table)
        ensures
            table@ == self@.outputs_table(),
            table@.has_width(2),
    {
        let mut rows: Vec<Vec<String>> = Vec::new();
        let mut i: usize = 0;
        while i < self.out.len()
            invariant
                i <= self.out.len(),
                rows@.len() == i,
                forall|k: int|
                    0 <= k < i ==> (#[trigger] rows@[k]).deep_view() == transfer_row(self.out@[k]@),
            decreases self.out.len() - i,
        {
            let output = &self.out[i];
            rows.push(transfer_cells(&output.addr, output.value));
            i = i + 1;
        }
        let table = Table {
            titles: two_titles("Address (output)", "Value"),
            rows,
            foreground: Color::Green,
        };
        assert(table@.rows =~= self@.outputs_table().rows);
        table
    }
}

} // verus!
