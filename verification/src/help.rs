//! The text that explains how the program is used.

use vstd::prelude::*;
use vstd::string::*;
use crate::paint::{paint, painted, Color};

verus! {

/// The heading of an option: after an empty line and indented once, the
/// option and what it is for, in yellow.
pub open spec fn heading(text: Seq<char>) -> Seq<char> {
    "\n\t"@ + painted(Color::Yellow, text)
}

/// One entry under a heading: indented twice, a name in purple, a gap, and
/// a description in yellow.
pub open spec fn entry(name: Seq<char>, gap: Seq<char>, description: Seq<char>) -> Seq<char> {
    "\t\t"@ + painted(Color::Purple, name) + gap + painted(Color::Yellow, description)
}

/// The lines of the help panel, from top to bottom.
pub open spec fn help_lines() -> Seq<Seq<char>> {
    seq![
        painted(Color::Red, "[!] Usage:  ./btcAnalyser -e [-n] [-i] [-a]"@),
        painted(Color::Red, "---------------------------------------------------------------------------------------------------"@),
        heading("[-e] Exploration Mode"@),
        entry("unconfirmed_transactions:"@, "\t"@, "List unconfirmed transactions."@),
        entry("inspect:"@, "\t\t\t"@, "Inspect a transaction hash."@),
        entry("address:"@, "\t\t\t"@, "Inspect a transaction address."@),
        heading("[-n] Limit the number of outputs"@),
        entry("Example:"@, "\t"@, "./btcAnalyser -e unconfirmed_transactions -n 10"@),
        heading("[-i] Provide the transaction hash"@),
        entry(
            "Example:"@,
            "\t"@,
            "./btcAnalyser -e inspect -i 136937e5a742645ce873f079f8668aefdc2d06b8172e903d031a8bfb48969450"@,
        ),
        heading("[-a] Provide the Bitcoin Address"@),
        entry(
            "Example:"@,
            "\t"@,
            "./btcAnalyser -e address -a bc1q9jk7j04lcjzdns6wjegeju78mxq27reg5e4wkycrs407yd0r07psvs8x7u"@,
        ),
        Seq::empty(),
    ]
}

/// Builds the heading of an option.
fn heading_line(text: &str) -> (line: String)
    ensures
        line@ == heading(text@),
{
    let mut line = "\n\t".to_owned();
    line.append(paint(Color::Yellow, text).as_str());
    line
}

/// Builds one entry under a heading.
fn entry_line(name: &str, gap: &str, description: &str) -> (line: String)
    ensures
        line@ == entry(name@, gap@, description@),
{
    let mut line = "\t\t".to_owned();
    line.append(paint(Color::Purple, name).as_str());
    line.append(gap);
    line.append(paint(Color::Yellow, description).as_str());
    line
}

/// The help panel, one string for each line that is printed.
pub fn help_panel() -> (lines: Vec<String>)
    ensures
        lines.deep_view() == help_lines(),
{
    let lines: Vec<String> = vec![
        paint(Color::Red, "[!] Usage:  ./btcAnalyser -e [-n] [-i] [-a]"),
        paint(Color::Red, "---------------------------------------------------------------------------------------------------"),
        heading_line("[-e] Exploration Mode"),
        entry_line("unconfirmed_transactions:", "\t", "List unconfirmed transactions."),
        entry_line("inspect:", "\t\t\t", "Inspect a transaction hash."),
        entry_line("address:", "\t\t\t", "Inspect a transaction address."),
        heading_line("[-n] Limit the number of outputs"),
        entry_line("Example:", "\t", "./btcAnalyser -e unconfirmed_transactions -n 10"),
        heading_line("[-i] Provide the transaction hash"),
        entry_line(
            "Example:",
            "\t",
            "./btcAnalyser -e inspect -i 136937e5a742645ce873f079f8668aefdc2d06b8172e903d031a8bfb48969450",
        ),
        heading_line("[-a] Provide the Bitcoin Address"),
        entry_line(
            "Example:",
            "\t",
            "./btcAnalyser -e address -a bc1q9jk7j04lcjzdns6wjegeju78mxq27reg5e4wkycrs407yd0r07psvs8x7u",
        ),
        String::new(),
    ];
    assert(lines.deep_view() =~= help_lines());
    lines
}

} // verus!
