//! The listing of unconfirmed transactions: what is read from the document
//! that the service returns, and the rows that are shown for it.

use vstd::prelude::*;
use vstd::string::*;
use crate::clock::{clock_text, TimeOfDay};
use crate::json::{json_model, json_models, json_parse, member_of, parse_document, Json};
use crate::money::{UsdAmount, UsdAmountView};
use crate::paint::Color;
use crate::table::{paint_row, painted_row, Table, TableView};
use crate::units::{btc_label, signed_label};

verus! {

/// One transaction of a listing, as far as a row needs it: its hash, and
/// for each of its outputs the value in satoshis, or `None` where the
/// document gives no integer for it.
#[derive(Debug)]
pub struct RawTransaction {
    pub hash: String,
    pub outputs: Vec<Option<i64>>,
}

/// What a [`RawTransaction`] holds.
pub struct RawTransactionView {
    pub hash: Seq<char>,
    pub outputs: Seq<Option<i64>>,
}

impl View for RawTransaction {
    type V = RawTransactionView;

    open spec fn view(&self) -> RawTransactionView {
        RawTransactionView { hash: self.hash@, outputs: self.outputs@ }
    }
}

impl DeepView for RawTransaction {
    type V = RawTransactionView;

    open spec fn deep_view(&self) -> RawTransactionView {
        self@
    }
}

/// A row of the listing: a transaction's hash, the sum of its outputs in
/// satoshis, and the time at which the listing was observed.
#[derive(Debug)]
pub struct UndefinedTransaction {
    pub hash: String,
    pub amount_satoshis: i128,
    pub time: TimeOfDay,
}

/// What an [`UndefinedTransaction`] holds.
pub struct UndefinedTransactionView {
    pub hash: Seq<char>,
    pub amount_satoshis: int,
    pub time: TimeOfDay,
}

impl View for UndefinedTransaction {
    type V = UndefinedTransactionView;

    open spec fn view(&self) -> UndefinedTransactionView {
        UndefinedTransactionView {
            hash: self.hash@,
            amount_satoshis: self.amount_satoshis as int,
            time: self.time,
        }
    }
}

impl DeepView for UndefinedTransaction {
    type V = UndefinedTransactionView;

    open spec fn deep_view(&self) -> UndefinedTransactionView {
        self@
    }
}

/// A document could not be read.
#[derive(Debug)]
pub enum DecodeError {
    /// The text is not valid JSON.
    Json(serde_json::Error),
}

/// The items of an array; none for any other value.
pub open spec fn listed(value: Json) -> Seq<Json> {
    match value.items() {
        Some(items) => items,
        None => Seq::empty(),
    }
}

/// The value of one output, where the document gives an integer that fits
/// in 64 signed bits.
pub open spec fn output_value(output: Json) -> Option<i64> {
    output.member("value"@).as_i64()
}

/// The values of a transaction's outputs, in the order of the document.
pub open spec fn output_values(transaction: Json) -> Seq<Option<i64>> {
    let outputs = listed(transaction.member("out"@));
    Seq::new(outputs.len(), |i: int| output_value(outputs[i]))
}

/// The hash of a transaction; empty where the document gives no string.
pub open spec fn hash_of(transaction: Json) -> Seq<char> {
    match transaction.member("hash"@).text() {
        Some(hash) => hash,
        None => Seq::empty(),
    }
}

/// What is read of one transaction of a listing.
pub open spec fn raw_transaction(transaction: Json) -> RawTransactionView {
    RawTransactionView { hash: hash_of(transaction), outputs: output_values(transaction) }
}

/// What is read of a listing: its transactions in the order of the
/// document, none where the document has no array under `txs`.
pub open spec fn raw_transactions(document: Json) -> Seq<RawTransactionView> {
    let transactions = listed(document.member("txs"@));
    Seq::new(transactions.len(), |i: int| raw_transaction(transactions[i]))
}

/// The sum of the values that are present.
pub open spec fn parseable_sum(values: Seq<Option<i64>>) -> int
    decreases values.len(),
{
    if values.len() == 0 {
        0
    } else {
        parseable_sum(values.drop_last()) + match values.last() {
            Some(value) => value as int,
            None => 0,
        }
    }
}

/// The row that is shown for a transaction.
pub open spec fn row_of(transaction: RawTransactionView, time: TimeOfDay) -> UndefinedTransactionView {
    UndefinedTransactionView {
        hash: transaction.hash,
        amount_satoshis: parseable_sum(transaction.outputs),
        time,
    }
}

/// The number of rows shown for a listing of `available` transactions.
pub open spec fn shown(available: nat, limit: nat) -> nat {
    if available < limit {
        available
    } else {
        limit
    }
}

/// The rows of a listing: one for each of its first `limit` transactions,
/// in their order, all stamped with the same time.
pub open spec fn rows_of(
    transactions: Seq<RawTransactionView>,
    limit: nat,
    time: TimeOfDay,
) -> Seq<UndefinedTransactionView> {
    Seq::new(shown(transactions.len(), limit), |i: int| row_of(transactions[i], time))
}

proof fn lemma_parseable_sum_bounds(values: Seq<Option<i64>>)
    ensures
        -0x8000_0000_0000_0000 * values.len() <= parseable_sum(values) <= 0x7fff_ffff_ffff_ffff
            * values.len(),
    decreases values.len(),
{
    if values.len() > 0 {
        lemma_parseable_sum_bounds(values.drop_last());
    }
}

impl UndefinedTransaction {
    /// A row with the given hash, amount and time of observation.
    pub fn new(hash: String, amount_satoshis: i128, time: TimeOfDay) -> (row: UndefinedTransaction)
        ensures
            row.hash == hash,
            row.amount_satoshis == amount_satoshis,
            row.time == time,
    {
        UndefinedTransaction { hash, amount_satoshis, time }
    }
}

/// Adds up the values that are present; an entry without a value counts
/// for nothing.
pub fn amount_satoshis(outputs: &Vec<Option<i64>>) -> (total: i128)
    ensures
        total == parseable_sum(outputs@),
{
    let mut total: i128 = 0;
    let mut i: usize = 0;
    while i < outputs.len()
        invariant
            i <= outputs.len(),
            total == parseable_sum(outputs@.take(i as int)),
        decreases outputs.len() - i,
    {
        proof {
            lemma_parseable_sum_bounds(outputs@.take(i as int));
            assert(outputs@.take(i + 1).drop_last() =~= outputs@.take(i as int));
        }
        match outputs[i] {
            Some(value) => {
                total = total + value as i128;
            },
            None => {},
        }
        i = i + 1;
    }
    assert(outputs@.take(i as int) =~= outputs@);
    total
}

/// Reads the values of a transaction's outputs.
fn decode_outputs(transaction: &serde_json::Value) -> (outputs: Vec<Option<i64>>)
    ensures
        outputs@ == output_values(json_model(*transaction)),
{
    let mut outputs: Vec<Option<i64>> = Vec::new();
    match member_of(transaction, "out").as_array() {
        Some(entries) => {
            let mut i: usize = 0;
            while i < entries.len()
                invariant
                    i <= entries.len(),
                    outputs@.len() == i,
                    forall|k: int|
                        0 <= k < i ==> outputs@[k] == output_value(
                            #[trigger] json_models(entries@)[k],
                        ),
                decreases entries.len() - i,
            {
                let value = member_of(&entries[i], "value").as_i64();
                outputs.push(value);
                i = i + 1;
            }
            assert(outputs@ =~= output_values(json_model(*transaction)));
        },
        None => {
            assert(outputs@ =~= output_values(json_model(*transaction)));
        },
    }
    outputs
}

/// Reads one transaction of a listing.
fn decode_transaction(transaction: &serde_json::Value) -> (raw: RawTransaction)
    ensures
        raw@ == raw_transaction(json_model(*transaction)),
{
    let hash = match member_of(transaction, "hash").as_str() {
        Some(text) => text.to_owned(),
        None => String::new(),
    };
    RawTransaction { hash, outputs: decode_outputs(transaction) }
}

/// Reads the transactions of a listing from its document, in order.
///
/// A document without an array under `txs` holds none. A transaction
/// without a string under `hash` has an empty hash. Its outputs are the
/// items of the array under `out`, none where there is no array; each has
/// the integer under its `value`, if there is one that fits in 64 signed
/// bits.
pub fn decode_transactions(document: &serde_json::Value) -> (raws: Vec<RawTransaction>)
    ensures
        raws.deep_view() == raw_transactions(json_model(*document)),
{
    let mut raws: Vec<RawTransaction> = Vec::new();
    match member_of(document, "txs").as_array() {
        Some(entries) => {
            let mut i: usize = 0;
            while i < entries.len()
                invariant
                    i <= entries.len(),
                    raws@.len() == i,
                    forall|k: int|
                        0 <= k < i ==> raws@[k]@ == raw_transaction(
                            #[trigger] json_models(entries@)[k],
                        ),
                decreases entries.len() - i,
            {
                let raw = decode_transaction(&entries[i]);
                raws.push(raw);
                i = i + 1;
            }
            assert(raws.deep_view() =~= raw_transactions(json_model(*document)));
        },
        None => {
            assert(raws.deep_view() =~= raw_transactions(json_model(*document)));
        },
    }
    raws
}

/// The rows for the first `number_outputs` transactions of a listing, or
/// for all of them where there are fewer.
pub fn transaction_rows(
    transactions: &Vec<RawTransaction>,
    number_outputs: usize,
    time: TimeOfDay,
) -> (rows: Vec<UndefinedTransaction>)
    ensures
        rows.deep_view() == rows_of(transactions.deep_view(), number_outputs as nat, time),
        rows.len() == shown(transactions.len() as nat, number_outputs as nat),
        rows.len() <= number_outputs,
        rows.len() < number_outputs ==> rows.len() == transactions.len(),
{
    let count = if transactions.len() < number_outputs {
        transactions.len()
    } else {
        number_outputs
    };
    let mut rows: Vec<UndefinedTransaction> = Vec::new();
    let mut i: usize = 0;
    while i < count
        invariant
            i <= count <= transactions.len(),
            rows@.len() == i,
            forall|k: int| 0 <= k < i ==> (#[trigger] rows@[k])@ == row_of(transactions@[k]@, time),
        decreases count - i,
    {
        let transaction = &transactions[i];
        let row = UndefinedTransaction::new(
            transaction.hash.clone(),
            amount_satoshis(&transaction.outputs),
            time,
        );
        rows.push(row);
        i = i + 1;
    }
    assert(rows.deep_view() =~= rows_of(transactions.deep_view(), number_outputs as nat, time));
    rows
}

/// The rows of the listing that a response body holds.
///
/// A body that is not valid JSON is an error. In a valid document anything
/// that is missing or of another kind than expected counts as absent: no
/// array under `txs` gives no rows, no string under `hash` an empty hash,
/// and an output without an integer under `value` adds nothing to the
/// amount.
pub fn unconfirmed_transactions(body: &str, number_outputs: usize, time: TimeOfDay) -> (listing:
    Result<Vec<UndefinedTransaction>, DecodeError>)
    ensures
        match json_parse(body@) {
            Some(document) => {
                &&& listing matches Ok(rows)
                &&& rows.deep_view() == rows_of(
                    raw_transactions(document),
                    number_outputs as nat,
                    time,
                )
                &&& rows.len() == shown(raw_transactions(document).len(), number_outputs as nat)
            },
            None => listing is Err,
        },
        listing matches Ok(rows) ==> rows.len() <= number_outputs,
{
    match parse_document(body) {
        Ok(document) => {
            let transactions = decode_transactions(&document);
            assert(transactions.deep_view().len() == transactions.len());
            Ok(transaction_rows(&transactions, number_outputs, time))
        },
        Err(error) => Err(DecodeError::Json(error)),
    }
}

/// A row of the listing together with its amount in US dollars.
#[derive(Debug)]
pub struct PricedTransaction {
    pub transaction: UndefinedTransaction,
    pub amount_usd: UsdAmount,
}

/// What a [`PricedTransaction`] holds.
pub struct PricedTransactionView {
    pub transaction: UndefinedTransactionView,
    pub amount_usd: UsdAmountView,
}

impl View for PricedTransaction {
    type V = PricedTransactionView;

    open spec fn view(&self) -> PricedTransactionView {
        PricedTransactionView { transaction: self.transaction@, amount_usd: self.amount_usd@ }
    }
}

impl DeepView for PricedTransaction {
    type V = PricedTransactionView;

    open spec fn deep_view(&self) -> PricedTransactionView {
        self@
    }
}

impl PricedTransactionView {
    /// The cells of the row: hash, amount in bitcoin, amount in US
    /// dollars, time of observation.
    pub open spec fn cells(self) -> Seq<Seq<char>> {
        painted_row(
            Color::Yellow,
            seq![
                self.transaction.hash,
                btc_label(self.transaction.amount_satoshis),
                self.amount_usd.text(),
                clock_text(self.transaction.time.hour(), self.transaction.time.minute()),
            ],
        )
    }
}

/// The table of a listing: one row of four cells for each transaction, in
/// order.
pub open spec fn listing(rows: Seq<PricedTransactionView>) -> TableView {
    TableView {
        titles: seq!["Hash"@, "Bitcoin"@, "Amount(USD)"@, "Time"@],
        rows: Seq::new(rows.len(), |i: int| rows[i].cells()),
        foreground: Color::Yellow,
    }
}

/// The table that closes a listing: its one row names the total and
/// gives it in US dollars.
pub open spec fn total(amount: UsdAmountView) -> TableView {
    TableView {
        titles: Seq::empty(),
        rows: seq![painted_row(Color::Purple, seq!["Total Amount"@, amount.text()])],
        foreground: Color::Purple,
    }
}

impl PricedTransaction {
    /// The cells of the row.
    pub fn cells(&self) -> (cells: Vec<String>)
        ensures
            cells.deep_view() == self@.cells(),
    {
        let texts: Vec<String> = vec![
            self.transaction.hash.clone(),
            signed_label(self.transaction.amount_satoshis),
            self.amount_usd.label(),
            self.transaction.time.label(),
        ];
        assert(texts.deep_view() =~= seq![
            self@.transaction.hash,
            btc_label(self@.transaction.amount_satoshis),
            self@.amount_usd.text(),
            clock_text(self@.transaction.time.hour(), self@.transaction.time.minute()),
        ]);
        paint_row(Color::Yellow, &texts)
    }
}

/// The table of a listing.
pub fn listing_table(rows: &Vec<PricedTransaction>) -> (table: Table)
    ensures
        table@ == listing(rows.deep_view()),
        table@.has_width(4),
{
    let mut cells: Vec<Vec<String>> = Vec::new();
    let mut i: usize = 0;
    while i < rows.len()
        invariant
            i <= rows.len(),
            cells@.len() == i,
            forall|k: int| 0 <= k < i ==> (#[trigger] cells@[k]).deep_view() == rows@[k]@.cells(),
        decreases rows.len() - i,
    {
        cells.push(rows[i].cells());
        i = i + 1;
    }
    let titles: Vec<String> = vec![
        "Hash".to_owned(),
        "Bitcoin".to_owned(),
        "Amount(USD)".to_owned(),
        "Time".to_owned(),
    ];
    assert(titles.deep_view() =~= listing(rows.deep_view()).titles);
    let table = Table { titles, rows: cells, foreground: Color::Yellow };
    assert(table@.rows =~= listing(rows.deep_view()).rows);
    table
}

/// The table that closes a listing with the total in US dollars.
pub fn total_table(amount: &UsdAmount) -> (table: Table)
    ensures
        table@ == total(amount@),
        table@.has_width(2),
{
    let texts: Vec<String> = vec!["Total Amount".to_owned(), amount.label()];
    assert(texts.deep_view() =~= seq!["Total Amount"@, amount@.text()]);
    let rows: Vec<Vec<String>> = vec![paint_row(Color::Purple, &texts)];
    let table = Table { titles: Vec::new(), rows, foreground: Color::Purple };
    assert(table@.titles =~= total(amount@).titles);
    assert(table@.rows =~= total(amount@).rows);
    table
}

/// A transaction without outputs amounts to nothing: its row shows zero
/// satoshis, which reads `0 BTC`. This holds whether the document gives an
/// empty array of outputs, no array, or nothing at all.
pub proof fn lemma_no_outputs_no_amount(transaction: Json, time: TimeOfDay)
    requires
        listed(transaction.member("out"@)).len() == 0,
    ensures
        raw_transaction(transaction).outputs.len() == 0,
        row_of(raw_transaction(transaction), time).amount_satoshis == 0,
        btc_label(row_of(raw_transaction(transaction), time).amount_satoshis) == "0 BTC"@,
{
    reveal_strlit("0 BTC");
    reveal_strlit(" BTC");
    assert(btc_label(0) =~= "0 BTC"@);
}

/// An output whose `value` is no integer, or an integer beyond 64 signed
/// bits, has no value.
pub proof fn lemma_value_must_be_integer(output: Json)
    requires
        !(output.member("value"@) matches Json::Integer(n) && i64::MIN <= n <= i64::MAX),
    ensures
        output_value(output) is None,
{
}

/// An entry without a value adds nothing to the sum, wherever it stands
/// among the others.
pub proof fn lemma_absent_value_adds_nothing(values: Seq<Option<i64>>, at: int)
    requires
        0 <= at <= values.len(),
    ensures
        parseable_sum(values.insert(at, None)) == parseable_sum(values),
    decreases values.len(),
{
    let inserted = values.insert(at, None);
    if at == values.len() {
        assert(inserted.drop_last() =~= values);
    } else {
        assert(inserted.drop_last() =~= values.drop_last().insert(at, None));
        lemma_absent_value_adds_nothing(values.drop_last(), at);
    }
}

/// An entry with a value adds that value to the sum, wherever it stands
/// among the others.
pub proof fn lemma_present_value_adds_itself(values: Seq<Option<i64>>, at: int, value: i64)
    requires
        0 <= at <= values.len(),
    ensures
        parseable_sum(values.insert(at, Some(value))) == parseable_sum(values) + value,
    decreases values.len(),
{
    let inserted = values.insert(at, Some(value));
    if at == values.len() {
        assert(inserted.drop_last() =~= values);
    } else {
        assert(inserted.drop_last() =~= values.drop_last().insert(at, Some(value)));
        lemma_present_value_adds_itself(values.drop_last(), at, value);
    }
}

/// A listing never has more rows than were asked for, and has fewer only
/// where the document holds no more transactions. The rows follow the
/// order of the document.
pub proof fn lemma_rows_within_limit(
    transactions: Seq<RawTransactionView>,
    limit: nat,
    time: TimeOfDay,
)
    ensures
        rows_of(transactions, limit, time).len() <= limit,
        rows_of(transactions, limit, time).len() <= transactions.len(),
        rows_of(transactions, limit, time).len() < limit ==> rows_of(
            transactions,
            limit,
            time,
        ).len() == transactions.len(),
        forall|i: int|
            0 <= i < rows_of(transactions, limit, time).len() ==> #[trigger] rows_of(
                transactions,
                limit,
                time,
            )[i] == row_of(transactions[i], time),
{
}

} // verus!
