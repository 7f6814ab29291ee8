//! What the trade display decides before anything is written: the format,
//! the header, the mark of a status line, and the count of the rows. Writing
//! the lines, and rendering prices, is left to the caller.

use crate::text::str_eq;
use vstd::prelude::*;
use vstd::string::*;

verus! {

/// The escape sequences of the terminal colours.
pub struct Colors;

impl Colors {
    pub const RESET: &'static str = "\x1b[0m";

    pub const BOLD: &'static str = "\x1b[1m";

    pub const DIM: &'static str = "\x1b[2m";

    pub const RED: &'static str = "\x1b[31m";

    pub const GREEN: &'static str = "\x1b[32m";

    pub const YELLOW: &'static str = "\x1b[33m";

    pub const BLUE: &'static str = "\x1b[34m";

    pub const MAGENTA: &'static str = "\x1b[35m";

    pub const CYAN: &'static str = "\x1b[36m";

    pub const WHITE: &'static str = "\x1b[37m";

    pub const GRAY: &'static str = "\x1b[90m";

    pub const BRIGHT_RED: &'static str = "\x1b[91m";

    pub const BRIGHT_GREEN: &'static str = "\x1b[92m";

    pub const BRIGHT_YELLOW: &'static str = "\x1b[93m";

    pub const BRIGHT_BLUE: &'static str = "\x1b[94m";

    pub const BRIGHT_MAGENTA: &'static str = "\x1b[95m";

    pub const BRIGHT_CYAN: &'static str = "\x1b[96m";

    pub const BRIGHT_WHITE: &'static str = "\x1b[97m";
}

/// How trades are written.
#[derive(Debug, Clone, Copy, PartialEq, Eq, Structural)]
pub enum OutputFormat {
    Table,
    Csv,
    Json,
    Minimal,
}

/// What `str::to_lowercase` makes of a text.
pub uninterp spec fn lowercase_of(text: Seq<char>) -> Seq<char>;

/// Calls `str::to_lowercase`.
#[verifier::external_body]
fn lowercase(text: &str) -> (lower: String)
    ensures
        lower@ == lowercase_of(text@),
{
    text.to_lowercase()
}

impl OutputFormat {
    /// The format that a name in lower case stands for: the table for any
    /// name but `csv`, `json` and `minimal`.
    pub open spec fn of_lowercase(name: Seq<char>) -> OutputFormat {
        if name == "csv"@ {
            OutputFormat::Csv
        } else if name == "json"@ {
            OutputFormat::Json
        } else if name == "minimal"@ {
            OutputFormat::Minimal
        } else {
            OutputFormat::Table
        }
    }

    /// The format for a name that is in lower case already.
    pub fn from_lowercase(name: &str) -> (format: OutputFormat)
        ensures
            format == Self::of_lowercase(name@),
    {
        if str_eq(name, "csv") {
            OutputFormat::Csv
        } else if str_eq(name, "json") {
            OutputFormat::Json
        } else if str_eq(name, "minimal") {
            OutputFormat::Minimal
        } else {
            OutputFormat::Table
        }
    }

    /// The format for a name in any case of its letters.
    pub fn from_name(name: &str) -> (format: OutputFormat)
        ensures
            format == Self::of_lowercase(lowercase_of(name@)),
    {
        let lower = lowercase(name);
        Self::from_lowercase(lower.as_str())
    }
}

/// The upper edge of the table.
pub open spec fn table_top() -> Seq<char> {
    "┌─────────┬──────┬─────────────┬─────────────┬─────────────┬─────────────────────┐"@
}

/// The column titles of the table.
pub open spec fn table_titles() -> Seq<char> {
    "│ COUNT   │ SIDE │ PRICE       │ SIZE        │ VALUE       │ TIME                │"@
}

/// The rule under the column titles.
pub open spec fn table_rule() -> Seq<char> {
    "├─────────┼──────┼─────────────┼─────────────┼─────────────┼─────────────────────┤"@
}

/// One column title in colour: the title, and the bar that closes its cell in
/// gray.
pub open spec fn colored_cell(title: Seq<char>) -> Seq<char> {
    Colors::RESET@ + title + Colors::GRAY@ + "│"@
}

/// The column titles in colour.
pub open spec fn colored_titles() -> Seq<char> {
    Colors::BOLD@ + Colors::GRAY@ + "│"@ + colored_cell(" COUNT   "@) + colored_cell(" SIDE "@)
        + colored_cell(" PRICE       "@) + colored_cell(" SIZE        "@) + colored_cell(
        " VALUE       "@,
    ) + colored_cell(" TIME                "@) + Colors::RESET@
}

/// A line of the table's frame in colour: bold and gray.
pub open spec fn colored_frame(line: Seq<char>) -> Seq<char> {
    Colors::BOLD@ + Colors::GRAY@ + line + Colors::RESET@
}

/// The header of the table: upper edge, titles, rule.
pub open spec fn table_header(colored: bool) -> Seq<Seq<char>> {
    if colored {
        seq![colored_frame(table_top()), colored_titles(), colored_frame(table_rule())]
    } else {
        seq![table_top(), table_titles(), table_rule()]
    }
}

/// The header of the CSV output.
pub open spec fn csv_header() -> Seq<char> {
    "count,side,price,size,value,local_time,unix_timestamp"@
}

/// The mark that stands for a status on a status line, in colour or plain.
pub open spec fn status_mark(status: Seq<char>, colored: bool) -> Seq<char> {
    if status == "CONNECTING"@ {
        if colored {
            "⚡"@
        } else {
            "*"@
        }
    } else if status == "CONNECTED"@ {
        if colored {
            "✓"@
        } else {
            "+"@
        }
    } else if status == "LISTENING"@ {
        if colored {
            "📡"@
        } else {
            "~"@
        }
    } else if status == "ERROR"@ {
        if colored {
            "❌"@
        } else {
            "!"@
        }
    } else {
        if colored {
            "•"@
        } else {
            "-"@
        }
    }
}

/// How one trade is to be written.
#[derive(Debug, Clone, Copy, PartialEq, Eq, Structural)]
pub enum TradeRow {
    /// The price alone.
    PriceOnly,
    /// One row in the given format, and after it a CSV row on the error
    /// stream where `export` is set.
    Row { format: OutputFormat, export: bool },
}

/// The settings of the trade display and the count of the trades shown.
#[derive(Debug, Clone, Copy, PartialEq, Eq, Structural)]
pub struct TradeFormatter {
    pub format: OutputFormat,
    pub colored: bool,
    pub verbose: bool,
    pub quiet: bool,
    pub price_only: bool,
    pub csv_export: bool,
    pub trade_count: u64,
}

fn framed(line: &str) -> (text: String)
    ensures
        text@ == colored_frame(line@),
{
    let mut text = Colors::BOLD.to_owned();
    text.append(Colors::GRAY);
    text.append(line);
    text.append(Colors::RESET);
    text
}

fn append_cell(text: &mut String, title: &str)
    ensures
        final(text)@ == old(text)@ + colored_cell(title@),
{
    text.append(Colors::RESET);
    text.append(title);
    text.append(Colors::GRAY);
    text.append("│");
    assert(text@ =~= old(text)@ + colored_cell(title@));
}

impl TradeFormatter {
    /// The header for these settings: none in quiet mode, three lines for the
    /// table, one for CSV, none for the other formats.
    pub open spec fn header(self) -> Seq<Seq<char>> {
        if self.quiet {
            Seq::empty()
        } else {
            match self.format {
                OutputFormat::Table => table_header(self.colored),
                OutputFormat::Csv => seq![csv_header()],
                OutputFormat::Json => Seq::empty(),
                OutputFormat::Minimal => Seq::empty(),
            }
        }
    }

    /// How the next trade is to be written.
    pub open spec fn row(self) -> TradeRow {
        if self.price_only {
            TradeRow::PriceOnly
        } else {
            TradeRow::Row { format: self.format, export: self.csv_export }
        }
    }

    /// The status line for `status` and `message`: none in quiet mode unless
    /// the status is `ERROR`; else the status in brackets, its mark, and the
    /// message.
    pub open spec fn status_line(self, status: Seq<char>, message: Seq<char>) -> Option<Seq<char>> {
        if self.quiet && status != "ERROR"@ {
            None
        } else {
            Some("["@ + status + "] "@ + status_mark(status, self.colored) + " "@ + message)
        }
    }

    /// A display with these settings that has shown no trade yet.
    pub fn new(
        format: OutputFormat,
        colored: bool,
        verbose: bool,
        quiet: bool,
        price_only: bool,
        csv_export: bool,
    ) -> (formatter: Self)
        ensures
            formatter == (TradeFormatter {
                format,
                colored,
                verbose,
                quiet,
                price_only,
                csv_export,
                trade_count: 0,
            }),
    {
        TradeFormatter { format, colored, verbose, quiet, price_only, csv_export, trade_count: 0 }
    }

    /// The lines of the header, to be written before the first trade.
    pub fn header_lines(&self) -> (lines: Vec<String>)
        ensures
            lines.deep_view() == self.header(),
    {
        let mut lines: Vec<String> = Vec::new();
        if !self.quiet {
            match self.format {
                OutputFormat::Table => {
                    if self.colored {
                        lines.push(
                            framed(
                                "┌─────────┬──────┬─────────────┬─────────────┬─────────────┬─────────────────────┐",
                            ),
                        );
                        let mut titles = Colors::BOLD.to_owned();
                        titles.append(Colors::GRAY);
                        titles.append("│");
                        append_cell(&mut titles, " COUNT   ");
                        append_cell(&mut titles, " SIDE ");
                        append_cell(&mut titles, " PRICE       ");
                        append_cell(&mut titles, " SIZE        ");
                        append_cell(&mut titles, " VALUE       ");
                        append_cell(&mut titles, " TIME                ");
                        titles.append(Colors::RESET);
                        assert(titles@ =~= colored_titles());
                        lines.push(titles);
                        lines.push(
                            framed(
                                "├─────────┼──────┼─────────────┼─────────────┼─────────────┼─────────────────────┤",
                            ),
                        );
                    } else {
                        lines.push(
                            "┌─────────┬──────┬─────────────┬─────────────┬─────────────┬─────────────────────┐".to_owned(),
                        );
                        lines.push(
                            "│ COUNT   │ SIDE │ PRICE       │ SIZE        │ VALUE       │ TIME                │".to_owned(),
                        );
                        lines.push(
                            "├─────────┼──────┼─────────────┼─────────────┼─────────────┼─────────────────────┤".to_owned(),
                        );
                    }
                },
                OutputFormat::Csv => {
                    lines.push("count,side,price,size,value,local_time,unix_timestamp".to_owned());
                },
                OutputFormat::Json => {},
                OutputFormat::Minimal => {},
            }
        }
        assert(lines.deep_view() =~= self.header());
        lines
    }

    /// Counts one more trade and says how it is to be written.
    pub fn next_row(&mut self) -> (row: TradeRow)
        ensures
            row == old(self).row(),
            *final(self) == (TradeFormatter {
                trade_count: if old(self).trade_count < u64::MAX {
                    (old(self).trade_count + 1) as u64
                } else {
                    u64::MAX
                },
                ..*old(self)
            }),
    {
        self.trade_count = self.trade_count.saturating_add(1);
        if self.price_only {
            TradeRow::PriceOnly
        } else {
            TradeRow::Row { format: self.format, export: self.csv_export }
        }
    }

    /// The status line for `status` and `message`, if one is to be written.
    pub fn format_status(&self, status: &str, message: &str) -> (line: Option<String>)
        ensures
            line.deep_view() == self.status_line(status@, message@),
    {
        if self.quiet && !str_eq(status, "ERROR") {
            return None;
        }
        let mark = status_symbol(status, self.colored);
        let mut line = "[".to_owned();
        line.append(status);
        line.append("] ");
        line.append(mark);
        line.append(" ");
        line.append(message);
        Some(line)
    }
}

/// The mark that stands for a status on a status line.
pub fn status_symbol(status: &str, colored: bool) -> (mark: &'static str)
    ensures
        mark@ == status_mark(status@, colored),
{
    if str_eq(status, "CONNECTING") {
        if colored {
            "⚡"
        } else {
            "*"
        }
    } else if str_eq(status, "CONNECTED") {
        if colored {
            "✓"
        } else {
            "+"
        }
    } else if str_eq(status, "LISTENING") {
        if colored {
            "📡"
        } else {
            "~"
        }
    } else if str_eq(status, "ERROR") {
        if colored {
            "❌"
        } else {
            "!"
        }
    } else {
        if colored {
            "•"
        } else {
            "-"
        }
    }
}

} // verus!
