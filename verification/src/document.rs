//! Reading a TOML document, as far as the configuration looks into one.

use vstd::prelude::*;

verus! {

/// The value of one key of a file, as far as the configuration reads it.
#[derive(Debug)]
pub enum Setting {
    Text(String),
    Integer(i64),
    /// A value of any other kind.
    Other,
}

/// The model of [`Setting`].
pub enum SettingModel {
    Text(Seq<char>),
    Integer(i64),
    Other,
}

impl DeepView for Setting {
    type V = SettingModel;

    open spec fn deep_view(&self) -> SettingModel {
        match self {
            Setting::Text(text) => SettingModel::Text(text@),
            Setting::Integer(number) => SettingModel::Integer(*number),
            Setting::Other => SettingModel::Other,
        }
    }
}

/// The top-level keys of the TOML document that the bytes are, each with its
/// value, in the order in which the parser's table holds them; or, where the
/// bytes are no TOML document, the parser's message. The table holds each
/// key once: of a key that the document sets twice, the parser keeps the last
/// value.
pub uninterp spec fn toml_settings(contents: Seq<u8>) -> Result<
    Seq<(Seq<char>, SettingModel)>,
    Seq<char>,
>;

/// The model of what the parser gave.
pub open spec fn settings_view(r: Result<Vec<(String, Setting)>, String>) -> Result<
    Seq<(Seq<char>, SettingModel)>,
    Seq<char>,
> {
    match r {
        Ok(entries) => Ok(entries.deep_view()),
        Err(message) => Err(message@),
    }
}

/// Where a reading of a document stands between two bytes, as far as
/// comments and strings go. `basic` tells a string between double quotes,
/// in which a backslash escapes, from one between single quotes.
#[derive(Clone, Copy, Debug, PartialEq, Eq, Structural)]
pub enum Lex {
    /// Outside comments and strings.
    Code,
    /// In a comment, which the line's end ends.
    Comment,
    /// After the quote that opens a string.
    Opened { basic: bool },
    /// After two quotes: an empty string, or two thirds of the opening of a
    /// string of several lines.
    OpenedTwice { basic: bool },
    /// In a string of one line.
    Line { basic: bool },
    /// In a string of several lines.
    Lines { basic: bool },
    /// After a backslash in a string; `lines` tells whether the string is one
    /// of several lines.
    Escape { lines: bool },
    /// In a string of several lines, after a quote.
    Closing { basic: bool },
    /// In a string of several lines, after two quotes.
    ClosingTwice { basic: bool },
    /// After the three quotes that close a string of several lines. Up to two
    /// more quotes still belong to the string.
    Closed { basic: bool },
    /// After the three quotes that close a string and one more.
    ClosedOnce { basic: bool },
}

/// The quote of a kind of string.
pub open spec fn quote_of(basic: bool) -> u8 {
    if basic {
        0x22
    } else {
        0x27
    }
}

/// Whether a byte is a control character other than the tab: no comment and
/// no string of one line goes on beyond one.
pub open spec fn breaks(b: u8) -> bool {
    b < 0x20 && b != 0x09
}

/// What a byte outside comments and strings does: it opens a comment or a
/// string, or it is a bracket, a brace or a dot, which count, or it is
/// anything else.
pub open spec fn in_code(b: u8) -> (Lex, bool) {
    if b == 0x23 {
        (Lex::Comment, false)
    } else if b == 0x22 {
        (Lex::Opened { basic: true }, false)
    } else if b == 0x27 {
        (Lex::Opened { basic: false }, false)
    } else {
        (Lex::Code, b == 0x5b || b == 0x7b || b == 0x2e)
    }
}

/// What a byte in a string of one line does.
pub open spec fn in_line(basic: bool, b: u8) -> (Lex, bool) {
    if b == quote_of(basic) || breaks(b) {
        (Lex::Code, false)
    } else if basic && b == 0x5c {
        (Lex::Escape { lines: false }, false)
    } else {
        (Lex::Line { basic }, false)
    }
}

/// What a byte in a string of several lines does.
pub open spec fn in_lines(basic: bool, b: u8) -> (Lex, bool) {
    if b == quote_of(basic) {
        (Lex::Closing { basic }, false)
    } else if basic && b == 0x5c {
        (Lex::Escape { lines: true }, false)
    } else {
        (Lex::Lines { basic }, false)
    }
}

/// Where the reading stands after one more byte, and whether the byte
/// counts: whether it is a bracket, a brace or a dot outside comments and
/// strings. Comments and strings are delimited as the parser's tokenizer
/// delimits them.
pub open spec fn lexed(at: Lex, b: u8) -> (Lex, bool) {
    match at {
        Lex::Code => in_code(b),
        Lex::Comment => if breaks(b) {
            (Lex::Code, false)
        } else {
            (Lex::Comment, false)
        },
        Lex::Opened { basic } => if b == quote_of(basic) {
            (Lex::OpenedTwice { basic }, false)
        } else {
            in_line(basic, b)
        },
        Lex::OpenedTwice { basic } => if b == quote_of(basic) {
            (Lex::Lines { basic }, false)
        } else {
            in_code(b)
        },
        Lex::Line { basic } => in_line(basic, b),
        Lex::Lines { basic } => in_lines(basic, b),
        Lex::Escape { lines } => if lines {
            (Lex::Lines { basic: true }, false)
        } else {
            (Lex::Line { basic: true }, false)
        },
        Lex::Closing { basic } => if b == quote_of(basic) {
            (Lex::ClosingTwice { basic }, false)
        } else {
            in_lines(basic, b)
        },
        Lex::ClosingTwice { basic } => if b == quote_of(basic) {
            (Lex::Closed { basic }, false)
        } else {
            in_lines(basic, b)
        },
        Lex::Closed { basic } => if b == quote_of(basic) {
            (Lex::ClosedOnce { basic }, false)
        } else {
            in_code(b)
        },
        Lex::ClosedOnce { basic } => if b == quote_of(basic) {
            (Lex::Code, false)
        } else {
            in_code(b)
        },
    }
}

/// Where the reading of the contents ends, and how many of their bytes
/// count.
pub open spec fn scanned(contents: Seq<u8>) -> (Lex, nat)
    decreases contents.len(),
{
    if contents.len() == 0 {
        (Lex::Code, 0)
    } else {
        let (at, count) = scanned(contents.drop_last());
        let (next, counts) = lexed(at, contents.last());
        (
            next,
            if counts {
                count + 1
            } else {
                count
            },
        )
    }
}

/// How many brackets, braces and dots of the contents stand outside comments
/// and strings. No document is nested more deeply than this: each array,
/// each inline table and each part of a dotted key that lies within another
/// takes one of them. A file that sets nothing but text and whole numbers
/// has none.
pub open spec fn levels(contents: Seq<u8>) -> nat {
    scanned(contents).1
}

/// The most levels that a document is parsed with.
pub open spec fn most_levels() -> nat {
    128
}

fn code_byte(b: u8) -> (r: (Lex, bool))
    ensures
        r == in_code(b),
{
    if b == 0x23 {
        (Lex::Comment, false)
    } else if b == 0x22 {
        (Lex::Opened { basic: true }, false)
    } else if b == 0x27 {
        (Lex::Opened { basic: false }, false)
    } else {
        (Lex::Code, b == 0x5b || b == 0x7b || b == 0x2e)
    }
}

fn quote_byte(basic: bool) -> (r: u8)
    ensures
        r == quote_of(basic),
{
    if basic {
        0x22
    } else {
        0x27
    }
}

fn line_byte(basic: bool, b: u8) -> (r: (Lex, bool))
    ensures
        r == in_line(basic, b),
{
    if b == quote_byte(basic) || (b < 0x20 && b != 0x09) {
        (Lex::Code, false)
    } else if basic && b == 0x5c {
        (Lex::Escape { lines: false }, false)
    } else {
        (Lex::Line { basic }, false)
    }
}

fn lines_byte(basic: bool, b: u8) -> (r: (Lex, bool))
    ensures
        r == in_lines(basic, b),
{
    if b == quote_byte(basic) {
        (Lex::Closing { basic }, false)
    } else if basic && b == 0x5c {
        (Lex::Escape { lines: true }, false)
    } else {
        (Lex::Lines { basic }, false)
    }
}

/// Reads one more byte.
pub fn lex(at: Lex, b: u8) -> (r: (Lex, bool))
    ensures
        r == lexed(at, b),
{
    match at {
        Lex::Code => code_byte(b),
        Lex::Comment => if b < 0x20 && b != 0x09 {
            (Lex::Code, false)
        } else {
            (Lex::Comment, false)
        },
        Lex::Opened { basic } => if b == quote_byte(basic) {
            (Lex::OpenedTwice { basic }, false)
        } else {
            line_byte(basic, b)
        },
        Lex::OpenedTwice { basic } => if b == quote_byte(basic) {
            (Lex::Lines { basic }, false)
        } else {
            code_byte(b)
        },
        Lex::Line { basic } => line_byte(basic, b),
        Lex::Lines { basic } => lines_byte(basic, b),
        Lex::Escape { lines } => if lines {
            (Lex::Lines { basic: true }, false)
        } else {
            (Lex::Line { basic: true }, false)
        },
        Lex::Closing { basic } => if b == quote_byte(basic) {
            (Lex::ClosingTwice { basic }, false)
        } else {
            lines_byte(basic, b)
        },
        Lex::ClosingTwice { basic } => if b == quote_byte(basic) {
            (Lex::Closed { basic }, false)
        } else {
            lines_byte(basic, b)
        },
        Lex::Closed { basic } => if b == quote_byte(basic) {
            (Lex::ClosedOnce { basic }, false)
        } else {
            code_byte(b)
        },
        Lex::ClosedOnce { basic } => if b == quote_byte(basic) {
            (Lex::Code, false)
        } else {
            code_byte(b)
        },
    }
}

/// Whether the contents have more levels than a document is parsed with.
pub fn too_deep(contents: &[u8]) -> (r: bool)
    ensures
        r == (levels(contents@) > most_levels()),
{
    let mut at = Lex::Code;
    let mut count: usize = 0;
    let mut i: usize = 0;
    assert(contents@.take(0) =~= Seq::<u8>::empty());
    while i < contents.len()
        invariant
            i <= contents.len(),
            count <= i,
            (at, count as nat) == scanned(contents@.take(i as int)),
        decreases contents.len() - i,
    {
        let b: u8 = contents[i];
        proof {
            let more = contents@.take(i + 1);
            assert(more.drop_last() =~= contents@.take(i as int));
            assert(more.last() == b);
        }
        let (next, counts) = lex(at, b);
        at = next;
        if counts {
            count = count + 1;
        }
        i = i + 1;
    }
    assert(contents@.take(contents.len() as int) =~= contents@);
    count > 128
}

/// `toml::from_slice` to a table, and the table's entries in its own order.
/// The contract names what the parser gives and says no more of it. The
/// parser calls itself once for each array, inline table and part of a
/// dotted key that lies within another, and has no bound of its own. Each
/// such call follows a bracket, a brace or a dot that its tokenizer found
/// outside comments and strings, and `levels` counts those as the tokenizer
/// finds them: the contents may not have more levels than `most_levels`, so
/// that the parser stays within the stack.
#[verifier::external_body]
pub(crate) fn read_settings(contents: &[u8]) -> (r: Result<Vec<(String, Setting)>, String>)
    requires
        levels(contents@) <= most_levels(),
    ensures
        settings_view(r) == toml_settings(contents@),
{
    let table: toml::value::Table = toml::from_slice(contents).map_err(|e| e.to_string())?;
    let mut settings = Vec::new();
    for (key, value) in table {
        let setting = match value {
            toml::Value::String(text) => Setting::Text(text),
            toml::Value::Integer(number) => Setting::Integer(number),
            _ => Setting::Other,
        };
        settings.push((key, setting));
    }
    Ok(settings)
}

} // verus!
