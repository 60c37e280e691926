//! What the program prints for each thing it can be asked: a sequence of
//! tables and lines, from top to bottom.

use vstd::prelude::*;
use vstd::string::*;
use crate::address::{AddressUsd, AddressUsdView, BitcoinAddress};
use crate::cli::{hint_text, not_found_message, Hint};
use crate::help::{help_lines, help_panel};
use crate::money::{UsdAmount, UsdAmountView};
use crate::paint::{painted, Color};
use crate::table::{Table, TableView};
use crate::transaction::{Transaction, TransactionView};
use crate::unconfirmed::{listing, listing_table, total, total_table, PricedTransaction,
    PricedTransactionView};

verus! {

/// One thing to print: a table, or a line of text.
#[derive(Debug)]
pub enum Item {
    Table(Table),
    Line(String),
}

/// What an [`Item`] holds.
pub enum ItemView {
    Table(TableView),
    Line(Seq<char>),
}

impl View for Item {
    type V = ItemView;

    open spec fn view(&self) -> ItemView {
        match self {
            Item::Table(table) => ItemView::Table(table@),
            Item::Line(line) => ItemView::Line(line@),
        }
    }
}

impl DeepView for Item {
    type V = ItemView;

    open spec fn deep_view(&self) -> ItemView {
        self@
    }
}

/// The message for a look-up that found nothing.
pub open spec fn not_found() -> Seq<ItemView> {
    seq![
        ItemView::Line(
            painted(Color::Red, "[!] There is not transaction with the hash received"@),
        ),
    ]
}

/// Each text as a line of its own.
pub open spec fn as_lines(texts: Seq<Seq<char>>) -> Seq<ItemView> {
    Seq::new(texts.len(), |i: int| ItemView::Line(texts[i]))
}

/// The help panel, after the hint where there is one.
pub open spec fn usage(hint: Option<Hint>) -> Seq<ItemView> {
    match hint {
        Some(hint) => seq![ItemView::Line(painted(Color::Cyan, hint_text(hint)))] + as_lines(
            help_lines(),
        ),
        None => as_lines(help_lines()),
    }
}

/// The listing, an empty line, and the total.
pub open spec fn unconfirmed(rows: Seq<PricedTransactionView>, amount: UsdAmountView) -> Seq<
    ItemView,
> {
    seq![
        ItemView::Table(listing(rows)),
        ItemView::Line(Seq::empty()),
        ItemView::Table(total(amount)),
    ]
}

/// For a transaction that was found its totals, its inputs, an empty line
/// and its outputs.
pub open spec fn inspection(found: Option<TransactionView>) -> Seq<ItemView> {
    match found {
        Some(transaction) => seq![
            ItemView::Table(transaction.totals_table()),
            ItemView::Table(transaction.inputs_table()),
            ItemView::Line(Seq::empty()),
            ItemView::Table(transaction.outputs_table()),
        ],
        None => not_found(),
    }
}

/// For an address that was found its table and an empty line.
pub open spec fn address(found: Option<(BitcoinAddress, AddressUsdView)>) -> Seq<ItemView> {
    match found {
        Some((summary, usd)) => seq![
            ItemView::Table(summary.summary(usd)),
            ItemView::Line(Seq::empty()),
        ],
        None => not_found(),
    }
}

/// What is printed when the arguments do not say what to do: the hint, if
/// a value is missing, and the help panel.
pub fn usage_report(hint: Option<Hint>) -> (items: Vec<Item>)
    ensures
        items.deep_view() == usage(hint),
{
    let mut items: Vec<Item> = Vec::new();
    match hint {
        Some(hint) => {
            items.push(Item::Line(hint.message()));
        },
        None => {},
    }
    let ghost before = items.deep_view();
    assert(before =~= match hint {
        Some(hint) => seq![ItemView::Line(painted(Color::Cyan, hint_text(hint)))],
        None => Seq::empty(),
    });
    let lines = help_panel();
    let mut i: usize = 0;
    while i < lines.len()
        invariant
            i <= lines.len(),
            lines.deep_view() == help_lines(),
            before == match hint {
                Some(hint) => seq![ItemView::Line(painted(Color::Cyan, hint_text(hint)))],
                None => Seq::empty(),
            },
            items@.len() == before.len() + i,
            forall|k: int| 0 <= k < before.len() ==> (#[trigger] items@[k])@ == before[k],
            forall|k: int|
                before.len() <= k < before.len() + i ==> (#[trigger] items@[k])@ == ItemView::Line(
                    lines@[k - before.len()]@,
                ),
        decreases lines.len() - i,
    {
        items.push(Item::Line(lines[i].clone()));
        i = i + 1;
    }
    assert(items.deep_view() =~= usage(hint)) by {
        assert(lines.deep_view().len() == lines@.len());
        assert forall|k: int| 0 <= k < items@.len() implies items.deep_view()[k] == usage(hint)[k] by {
            if k >= before.len() {
                assert(lines.deep_view()[k - before.len()] == lines@[k - before.len()]@);
            }
        }
    }
    items
}

/// What is printed for a listing of unconfirmed transactions.
pub fn unconfirmed_report(rows: &Vec<PricedTransaction>, amount: &UsdAmount) -> (items: Vec<Item>)
    ensures
        items.deep_view() == unconfirmed(rows.deep_view(), amount@),
{
    let items: Vec<Item> = vec![
        Item::Table(listing_table(rows)),
        Item::Line(String::new()),
        Item::Table(total_table(amount)),
    ];
    assert(items.deep_view() =~= unconfirmed(rows.deep_view(), amount@));
    items
}

/// What is printed after a transaction was looked up: its tables, or a
/// message where it was not found.
pub fn inspection_report(found: Option<&Transaction>) -> (items: Vec<Item>)
    ensures
        items.deep_view() == inspection(
            match found {
                Some(transaction) => Some(transaction@),
                None => None,
            },
        ),
{
    match found {
        Some(transaction) => {
            let items: Vec<Item> = vec![
                Item::Table(transaction.totals_table()),
                Item::Table(transaction.inputs_table()),
                Item::Line(String::new()),
                Item::Table(transaction.outputs_table()),
            ];
            assert(items.deep_view() =~= inspection(Some(transaction@)));
            items
        },
        None => {
            let items: Vec<Item> = vec![Item::Line(not_found_message())];
            assert(items.deep_view() =~= not_found());
            items
        },
    }
}

/// What is printed after an address was looked up: its table, or a
/// message where it was not found.
pub fn address_report(found: Option<(&BitcoinAddress, &AddressUsd)>) -> (items: Vec<Item>)
    ensures
        items.deep_view() == address(
            match found {
                Some((summary, usd)) => Some((*summary, usd@)),
                None => None,
            },
        ),
{
    match found {
        Some((summary, usd)) => {
            let items: Vec<Item> = vec![
                Item::Table(summary.summary_table(usd)),
                Item::Line(String::new()),
            ];
            assert(items.deep_view() =~= address(Some((*summary, usd@))));
            items
        },
        None => {
            let items: Vec<Item> = vec![Item::Line(not_found_message())];
            assert(items.deep_view() =~= not_found());
            items
        },
    }
}

} // verus!
