//! Rendering: byte counts in a chosen unit, and the lines of a report.

use vstd::prelude::*;
use vstd::string::StringExecFns;
use crate::options::{Options, OptionsFormat};

verus! {

/// The character of a decimal digit.
pub open spec fn digit(d: nat) -> char {
    if d == 0 {
        '0'
    } else if d == 1 {
        '1'
    } else if d == 2 {
        '2'
    } else if d == 3 {
        '3'
    } else if d == 4 {
        '4'
    } else if d == 5 {
        '5'
    } else if d == 6 {
        '6'
    } else if d == 7 {
        '7'
    } else if d == 8 {
        '8'
    } else {
        '9'
    }
}

/// A number in decimal notation, without sign, separators or leading
/// zeros.
pub open spec fn decimal(n: nat) -> Seq<char>
    decreases n,
{
    if n < 10 {
        seq![digit(n)]
    } else {
        decimal(n / 10).push(digit(n % 10))
    }
}

/// The number of bytes in one unit. Without a unit, bytes are counted.
pub open spec fn divisor(format: Option<OptionsFormat>) -> nat {
    match format {
        None => 1,
        Some(OptionsFormat::Bytes) => 1,
        Some(OptionsFormat::Metric) => 1000,
        Some(OptionsFormat::Binary) => 1024,
        Some(OptionsFormat::MB) => 1000 * 1000,
        Some(OptionsFormat::Mib) => 1024 * 1024,
        Some(OptionsFormat::GB) => 1000 * 1000 * 1000,
        Some(OptionsFormat::Gib) => 1024 * 1024 * 1024,
    }
}

/// The mark that follows a count in one unit. Without a unit there is none.
pub open spec fn suffix(format: Option<OptionsFormat>) -> Seq<char> {
    match format {
        None => Seq::empty(),
        Some(OptionsFormat::Bytes) => "b"@,
        Some(OptionsFormat::Metric) => "KB"@,
        Some(OptionsFormat::Binary) => "KiB"@,
        Some(OptionsFormat::MB) => "MB"@,
        Some(OptionsFormat::Mib) => "MiB"@,
        Some(OptionsFormat::GB) => "GB"@,
        Some(OptionsFormat::Gib) => "GiB"@,
    }
}

/// A byte count in a unit: the whole units in decimal, the rest dropped,
/// directly followed by the unit's mark.
pub open spec fn formatted(format: Option<OptionsFormat>, file_size: nat) -> Seq<char> {
    decimal(file_size / divisor(format)) + suffix(format)
}

/// The text of one decimal digit.
fn digit_text(d: u64) -> (text: &'static str)
    requires
        d < 10,
    ensures
        text@ == seq![digit(d as nat)],
{
    proof {
        reveal_strlit("0");
        reveal_strlit("1");
        reveal_strlit("2");
        reveal_strlit("3");
        reveal_strlit("4");
        reveal_strlit("5");
        reveal_strlit("6");
        reveal_strlit("7");
        reveal_strlit("8");
        reveal_strlit("9");
    }
    let text = if d == 0 {
        "0"
    } else if d == 1 {
        "1"
    } else if d == 2 {
        "2"
    } else if d == 3 {
        "3"
    } else if d == 4 {
        "4"
    } else if d == 5 {
        "5"
    } else if d == 6 {
        "6"
    } else if d == 7 {
        "7"
    } else if d == 8 {
        "8"
    } else {
        "9"
    };
    assert(text@ =~= seq![digit(d as nat)]);
    text
}

/// Appends a number in decimal notation to a text.
pub fn push_decimal(text: &mut String, n: u64)
    ensures
        final(text)@ == old(text)@ + decimal(n as nat),
    decreases n,
{
    if n >= 10 {
        push_decimal(text, n / 10);
    }
    text.append(digit_text(n % 10));
    assert(final(text)@ =~= old(text)@ + decimal(n as nat));
}

/// Renders a byte count in the unit that the options choose.
pub fn format_file_size(options: Options, file_size: u64) -> (text: String)
    ensures
        text@ == formatted(options.format, file_size as nat),
{
    let (units, mark): (u64, &str) = match options.format {
        None => (file_size, ""),
        Some(OptionsFormat::Bytes) => (file_size, "b"),
        Some(OptionsFormat::Metric) => (file_size / 1000, "KB"),
        Some(OptionsFormat::Binary) => (file_size / 1024, "KiB"),
        Some(OptionsFormat::MB) => (file_size / (1000 * 1000), "MB"),
        Some(OptionsFormat::Mib) => (file_size / (1024 * 1024), "MiB"),
        Some(OptionsFormat::GB) => (file_size / (1000 * 1000 * 1000), "GB"),
        Some(OptionsFormat::Gib) => (file_size / (1024 * 1024 * 1024), "GiB"),
    };
    proof {
        reveal_strlit("");
        assert(""@ =~= Seq::<char>::empty());
    }
    let mut text = String::new();
    push_decimal(&mut text, units);
    text.append(mark);
    assert(text@ =~= formatted(options.format, file_size as nat));
    text
}

/// In bytes, a count is printed whole and marked `b`.
pub proof fn lemma_format_bytes(n: nat)
    ensures
        formatted(Some(OptionsFormat::Bytes), n) == decimal(n) + seq!['b'],
{
    reveal_strlit("b");
    assert("b"@ =~= seq!['b']);
}

/// In the binary unit, a count is divided by 1024, the rest dropped, and
/// marked `KiB`.
pub proof fn lemma_format_binary(n: nat)
    ensures
        formatted(Some(OptionsFormat::Binary), n) == decimal(n / 1024) + seq!['K', 'i', 'B'],
{
    reveal_strlit("KiB");
    assert("KiB"@ =~= seq!['K', 'i', 'B']);
}

/// One line of a report: an input path and its size as printed.
#[derive(Debug)]
pub struct ReportEntry {
    pub path: String,
    pub size: String,
}

/// A line of a report: the path, a tab, the size, a line feed.
pub open spec fn line(path: Seq<char>, size: Seq<char>) -> Seq<char> {
    path + seq!['\t'] + size + seq!['\n']
}

/// The lines of the first `n` entries, one after the other in the order
/// of the entries.
pub open spec fn report(entries: Seq<ReportEntry>, n: nat) -> Seq<char>
    decreases n,
{
    if n == 0 || n > entries.len() {
        Seq::empty()
    } else {
        report(entries, (n - 1) as nat) + line(entries[n - 1].path@, entries[n - 1].size@)
    }
}

/// Appends the line of one entry to a text.
pub fn push_line(text: &mut String, entry: &ReportEntry)
    ensures
        final(text)@ == old(text)@ + line(entry.path@, entry.size@),
{
    proof {
        reveal_strlit("\t");
        reveal_strlit("\n");
        assert("\t"@ =~= seq!['\t']);
        assert("\n"@ =~= seq!['\n']);
    }
    text.append(entry.path.as_str());
    text.append("\t");
    text.append(entry.size.as_str());
    text.append("\n");
    assert(final(text)@ =~= old(text)@ + line(entry.path@, entry.size@));
}

/// Writes a report: one line for each entry, in the order of the entries,
/// nothing sorted, aligned or summed.
pub fn write_report(entries: &Vec<ReportEntry>) -> (text: String)
    ensures
        text@ == report(entries@, entries@.len()),
{
    let mut text = String::new();
    let mut i: usize = 0;
    while i < entries.len()
        invariant
            i <= entries.len(),
            text@ == report(entries@, i as nat),
        decreases entries.len() - i,
    {
        push_line(&mut text, &entries[i]);
        i += 1;
    }
    text
}

} // verus!
