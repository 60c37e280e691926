//! What the program is asked to do, decided from its arguments.

use vstd::prelude::*;
use vstd::string::*;
use crate::paint::{paint, painted, Color};

verus! {

/// Number of transactions listed when no number is asked for.
pub const DEFAULT_NUMBER_OUTPUTS: usize = 100;

/// Where the unconfirmed transactions are listed.
pub const UNCONFIRMED_TRANSACTIONS_URL: &'static str =
    "https://blockchain.info/unconfirmed-transactions?format=json";

/// Where a transaction is looked up; its hash follows.
pub const INSPECT_TRANSACTION_URL: &'static str = "https://blockchain.info/rawtx/";

/// Where an address is looked up; the address follows.
pub const INSPECT_ADDRESS_URL: &'static str = "https://blockchain.info/rawaddr/";

/// Where the price of a bitcoin is found.
pub const BITCOIN_PRICE_URL: &'static str = "https://api.blockchain.info/stats";

/// Exit code after a run that did what was asked.
pub const EXIT_SUCCESS: i32 = 0;

/// Exit code after wrong arguments, a failed listing or an interrupt.
pub const EXIT_FAILURE: i32 = 1;

/// The arguments of the program.
#[derive(Debug)]
pub struct Cli {
    pub exploration_mode: Option<String>,
    pub number_outputs: Option<usize>,
    pub inspect_transcation: Option<String>,
    pub inspect_address: Option<String>,
}

/// What a [`Cli`] holds.
pub struct CliView {
    pub exploration_mode: Option<Seq<char>>,
    pub number_outputs: Option<usize>,
    pub inspect_transcation: Option<Seq<char>>,
    pub inspect_address: Option<Seq<char>>,
}

impl View for Cli {
    type V = CliView;

    open spec fn view(&self) -> CliView {
        CliView {
            exploration_mode: self.exploration_mode.deep_view(),
            number_outputs: self.number_outputs,
            inspect_transcation: self.inspect_transcation.deep_view(),
            inspect_address: self.inspect_address.deep_view(),
        }
    }
}

/// The value that a mode needs and that was not given.
#[derive(Clone, Copy, Debug, PartialEq, Eq, Structural)]
pub enum Hint {
    TransactionHash,
    BitcoinAddress,
}

/// What the program does.
#[derive(Debug)]
pub enum Command {
    /// List the latest unconfirmed transactions, `number_outputs` at most.
    UnconfirmedTransactions { number_outputs: usize },
    /// Show one transaction.
    Inspect { transaction_hash: String },
    /// Show the activity of one address.
    Address { bitcoin_address: String },
    /// Explain how the program is used, after a hint where one value was
    /// missing.
    Usage { hint: Option<Hint> },
}

/// What a [`Command`] holds.
pub enum CommandView {
    UnconfirmedTransactions { number_outputs: usize },
    Inspect { transaction_hash: Seq<char> },
    Address { bitcoin_address: Seq<char> },
    Usage { hint: Option<Hint> },
}

impl View for Command {
    type V = CommandView;

    open spec fn view(&self) -> CommandView {
        match self {
            Command::UnconfirmedTransactions { number_outputs } => {
                CommandView::UnconfirmedTransactions { number_outputs: *number_outputs }
            },
            Command::Inspect { transaction_hash } => CommandView::Inspect {
                transaction_hash: transaction_hash@,
            },
            Command::Address { bitcoin_address } => CommandView::Address {
                bitcoin_address: bitcoin_address@,
            },
            Command::Usage { hint } => CommandView::Usage { hint: *hint },
        }
    }
}

impl CliView {
    /// The command that the arguments ask for.
    ///
    /// The mode selects it. A listing takes the number given, or the
    /// default. The two modes that look one item up need its value: without
    /// it the program explains its usage after a hint. So it does, without
    /// a hint, for any other mode and for none.
    pub open spec fn command(self) -> CommandView {
        match self.exploration_mode {
            Some(mode) => {
                if mode == "unconfirmed_transactions"@ {
                    CommandView::UnconfirmedTransactions {
                        number_outputs: match self.number_outputs {
                            Some(number_outputs) => number_outputs,
                            None => DEFAULT_NUMBER_OUTPUTS,
                        },
                    }
                } else if mode == "inspect"@ {
                    match self.inspect_transcation {
                        Some(transaction_hash) => CommandView::Inspect { transaction_hash },
                        None => CommandView::Usage { hint: Some(Hint::TransactionHash) },
                    }
                } else if mode == "address"@ {
                    match self.inspect_address {
                        Some(bitcoin_address) => CommandView::Address { bitcoin_address },
                        None => CommandView::Usage { hint: Some(Hint::BitcoinAddress) },
                    }
                } else {
                    CommandView::Usage { hint: None }
                }
            },
            None => CommandView::Usage { hint: None },
        }
    }
}

impl CommandView {
    /// The addresses that the command fetches, in the order in which it
    /// asks for them.
    pub open spec fn requests(self) -> Seq<Seq<char>> {
        match self {
            CommandView::UnconfirmedTransactions { .. } => seq![
                UNCONFIRMED_TRANSACTIONS_URL@,
                BITCOIN_PRICE_URL@,
            ],
            CommandView::Inspect { transaction_hash } => seq![
                INSPECT_TRANSACTION_URL@ + transaction_hash,
            ],
            CommandView::Address { bitcoin_address } => seq![
                INSPECT_ADDRESS_URL@ + bitcoin_address,
                BITCOIN_PRICE_URL@,
            ],
            CommandView::Usage { .. } => Seq::empty(),
        }
    }

    /// The exit code of the program, given whether what the command
    /// fetched could not be had or read.
    ///
    /// A failed listing ends the program with an error. A failed look-up
    /// is reported to the user and ends it normally. After explaining its
    /// usage the program always exits with an error.
    pub open spec fn exit_code(self, failed: bool) -> i32 {
        match self {
            CommandView::UnconfirmedTransactions { .. } => if failed {
                EXIT_FAILURE
            } else {
                EXIT_SUCCESS
            },
            CommandView::Inspect { .. } => EXIT_SUCCESS,
            CommandView::Address { .. } => EXIT_SUCCESS,
            CommandView::Usage { .. } => EXIT_FAILURE,
        }
    }
}

/// The text of a hint, before it is painted.
pub open spec fn hint_text(hint: Hint) -> Seq<char> {
    match hint {
        Hint::TransactionHash =>
            "Provide a transaction hash (i.e -i 136937e5a742645ce873f079f8668aefdc2d06b8172e903d031a8bfb48969450)\n"@,
        Hint::BitcoinAddress =>
            "Provide a Bitcoin Addres (i.e -a bc1q9jk7j04lcjzdns6wjegeju78mxq27reg5e4wkycrs407yd0r07psvs8x7u)\n"@,
    }
}

/// Whether two texts are the same.
fn same_text(left: &str, right: &str) -> (same: bool)
    ensures
        same == (left@ == right@),
{
    let left_owned: String = left.to_owned();
    let right_owned: String = right.to_owned();
    left_owned == right_owned
}

/// The address under which an item is looked up: the address of the
/// service, then the item's key.
pub fn lookup_url(service: &str, key: &str) -> (url: String)
    ensures
        url@ == service@ + key@,
{
    let mut url = service.to_owned();
    url.append(key);
    url
}

/// Whether an HTTP status reports success: the codes from 200 to 299 do.
pub fn is_success(status: u16) -> (success: bool)
    ensures
        success == (200 <= status <= 299),
{
    200 <= status && status < 300
}

impl Hint {
    /// The hint as it is printed.
    pub fn message(&self) -> (message: String)
        ensures
            message@ == painted(Color::Cyan, hint_text(*self)),
    {
        match self {
            Hint::TransactionHash => paint(
                Color::Cyan,
                "Provide a transaction hash (i.e -i 136937e5a742645ce873f079f8668aefdc2d06b8172e903d031a8bfb48969450)\n",
            ),
            Hint::BitcoinAddress => paint(
                Color::Cyan,
                "Provide a Bitcoin Addres (i.e -a bc1q9jk7j04lcjzdns6wjegeju78mxq27reg5e4wkycrs407yd0r07psvs8x7u)\n",
            ),
        }
    }
}

/// What is printed when a look-up finds nothing, or fails.
pub fn not_found_message() -> (message: String)
    ensures
        message@ == painted(Color::Red, "[!] There is not transaction with the hash received"@),
{
    paint(Color::Red, "[!] There is not transaction with the hash received")
}

/// What is printed when the user interrupts the program.
pub fn interrupt_message() -> (message: String)
    ensures
        message@ == painted(Color::Red, "\n[!] Exiting...\n"@),
{
    paint(Color::Red, "\n[!] Exiting...\n")
}

impl Cli {
    /// The command that the arguments ask for.
    pub fn command(self) -> (command: Command)
        ensures
            command@ == self@.command(),
    {
        let mode = match self.exploration_mode {
            Some(mode) => mode,
            None => {
                return Command::Usage { hint: None };
            },
        };
        if same_text(mode.as_str(), "unconfirmed_transactions") {
            let number_outputs = match self.number_outputs {
                Some(number_outputs) => number_outputs,
                None => DEFAULT_NUMBER_OUTPUTS,
            };
            Command::UnconfirmedTransactions { number_outputs }
        } else if same_text(mode.as_str(), "inspect") {
            match self.inspect_transcation {
                Some(transaction_hash) => Command::Inspect { transaction_hash },
                None => Command::Usage { hint: Some(Hint::TransactionHash) },
            }
        } else if same_text(mode.as_str(), "address") {
            match self.inspect_address {
                Some(bitcoin_address) => Command::Address { bitcoin_address },
                None => Command::Usage { hint: Some(Hint::BitcoinAddress) },
            }
        } else {
            Command::Usage { hint: None }
        }
    }
}

impl Command {
    /// The addresses that the command fetches, in order.
    pub fn requests(&self) -> (urls: Vec<String>)
        ensures
            urls.deep_view() == self@.requests(),
    {
        let urls: Vec<String> = match self {
            Command::UnconfirmedTransactions { .. } => vec![
                UNCONFIRMED_TRANSACTIONS_URL.to_owned(),
                BITCOIN_PRICE_URL.to_owned(),
            ],
            Command::Inspect { transaction_hash } => vec![
                lookup_url(INSPECT_TRANSACTION_URL, transaction_hash.as_str()),
            ],
            Command::Address { bitcoin_address } => vec![
                lookup_url(INSPECT_ADDRESS_URL, bitcoin_address.as_str()),
                BITCOIN_PRICE_URL.to_owned(),
            ],
            Command::Usage { .. } => Vec::new(),
        };
        assert(urls.deep_view() =~= self@.requests());
        urls
    }

    /// The exit code of the program, given whether what the command
    /// fetched could not be had or read.
    pub fn exit_code(&self, failed: bool) -> (code: i32)
        ensures
            code == self@.exit_code(failed),
    {
        match self {
            Command::UnconfirmedTransactions { .. } => if failed {
                EXIT_FAILURE
            } else {
                EXIT_SUCCESS
            },
            Command::Inspect { .. } => EXIT_SUCCESS,
            Command::Address { .. } => EXIT_SUCCESS,
            Command::Usage { .. } => EXIT_FAILURE,
        }
    }
}

/// A look-up without the value to look up goes no further than the
/// arguments: the program prints a hint and its usage, fetches nothing,
/// and exits with an error.
pub proof fn lemma_missing_value_stops_early(cli: CliView, failed: bool)
    requires
        (cli.exploration_mode == Some("inspect"@) && cli.inspect_transcation is None) || (
        cli.exploration_mode == Some("address"@) && cli.inspect_address is None),
    ensures
        cli.command() matches CommandView::Usage { hint } && hint is Some,
        cli.exploration_mode == Some("inspect"@) ==> cli.command() == (CommandView::Usage {
            hint: Some(Hint::TransactionHash),
        }),
        cli.exploration_mode == Some("address"@) ==> cli.command() == (CommandView::Usage {
            hint: Some(Hint::BitcoinAddress),
        }),
        cli.command().requests().len() == 0,
        cli.command().exit_code(failed) != 0,
{
    reveal_strlit("unconfirmed_transactions");
    reveal_strlit("inspect");
    reveal_strlit("address");
    assert("inspect"@.len() != "unconfirmed_transactions"@.len());
    assert("address"@.len() != "unconfirmed_transactions"@.len());
    assert("inspect"@[0] != "address"@[0]);
}

/// Whatever the arguments, the program explains its usage exactly when it
/// fetches nothing, and then it exits with an error.
pub proof fn lemma_usage_fetches_nothing(cli: CliView, failed: bool)
    ensures
        cli.command() is Usage <==> cli.command().requests().len() == 0,
        cli.command() is Usage ==> cli.command().exit_code(failed) == EXIT_FAILURE,
{
}

} // verus!
