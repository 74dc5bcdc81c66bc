use crate::model::EntryModel;
use crate::pool::LogEntry;
use vstd::prelude::*;
use vstd::string::StringExecFns;

verus! {

/// The character that stands for a digit below ten.
pub open spec fn digit(d: nat) -> char {
    if d == 0 {
        '0'
    } else if d == 1 {
        '1'
    } else if d == 2 {
        '2'
    } else if d == 3 {
        '3'
    } else if d == 4 {
        '4'
    } else if d == 5 {
        '5'
    } else if d == 6 {
        '6'
    } else if d == 7 {
        '7'
    } else if d == 8 {
        '8'
    } else {
        '9'
    }
}

/// A number written in base ten, without leading zeros.
pub open spec fn decimal(n: nat) -> Seq<char>
    decreases n,
{
    if n < 10 {
        seq![digit(n)]
    } else {
        decimal(n / 10).push(digit(n % 10))
    }
}

/// The line that stands for an entry in a dump of the whole pool:
/// `id:<id> <level> <message>`.
pub open spec fn log_line(e: EntryModel) -> Seq<char> {
    "id:"@ + decimal(e.0 as nat) + " "@ + e.2.label() + " "@ + e.1
}

/// The line that stands for an entry in a listing of one level:
/// `<id> <level> <message>`.
pub open spec fn level_line(e: EntryModel) -> Seq<char> {
    decimal(e.0 as nat) + " "@ + e.2.label() + " "@ + e.1
}

/// The lines of a dump, one for each entry, in order.
pub open spec fn dump(entries: Seq<EntryModel>) -> Seq<Seq<char>> {
    Seq::new(entries.len(), |i: int| log_line(entries[i]))
}

/// The lines of a listing of one level, one for each entry, in order.
pub open spec fn listing(entries: Seq<EntryModel>) -> Seq<Seq<char>> {
    Seq::new(entries.len(), |i: int| level_line(entries[i]))
}

fn digit_str(d: u32) -> (s: &'static str)
    requires
        d < 10,
    ensures
        s@ == seq![digit(d as nat)],
{
    proof {
        reveal_strlit("0");
        reveal_strlit("1");
        reveal_strlit("2");
        reveal_strlit("3");
        reveal_strlit("4");
        reveal_strlit("5");
        reveal_strlit("6");
        reveal_strlit("7");
        reveal_strlit("8");
        reveal_strlit("9");
    }
    let s = if d == 0 {
        "0"
    } else if d == 1 {
        "1"
    } else if d == 2 {
        "2"
    } else if d == 3 {
        "3"
    } else if d == 4 {
        "4"
    } else if d == 5 {
        "5"
    } else if d == 6 {
        "6"
    } else if d == 7 {
        "7"
    } else if d == 8 {
        "8"
    } else {
        "9"
    };
    assert(s@ =~= seq![digit(d as nat)]);
    s
}

/// Writes a number in base ten at the end of a text.
pub fn push_decimal(out: &mut String, n: u32)
    ensures
        final(out)@ == old(out)@ + decimal(n as nat),
    decreases n,
{
    if n >= 10 {
        push_decimal(out, n / 10);
    }
    out.append(digit_str(n % 10));
    assert(out@ =~= old(out)@ + decimal(n as nat));
}

/// The line for an entry in a dump of the whole pool.
pub fn render_log_line(entry: &LogEntry) -> (line: String)
    ensures
        line@ == log_line(entry.deep_view()),
{
    let mut line = "id:".to_owned();
    push_decimal(&mut line, entry.0);
    line.append(" ");
    line.append(entry.2.name());
    line.append(" ");
    line.append(entry.1.as_str());
    line
}

/// The line for an entry in a listing of one level.
pub fn render_level_line(entry: &LogEntry) -> (line: String)
    ensures
        line@ == level_line(entry.deep_view()),
{
    let mut line = String::new();
    push_decimal(&mut line, entry.0);
    line.append(" ");
    line.append(entry.2.name());
    line.append(" ");
    line.append(entry.1.as_str());
    assert(line@ =~= level_line(entry.deep_view()));
    line
}

} // verus!
