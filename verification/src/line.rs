//! The parts of the status line other than the memory figure, and the line
//! made of them.

use vstd::prelude::*;
use vstd::string::StringExecFns;
use crate::render::{
    decimal_digits, decimal_text, digit_char, nearest_double, nearest_double_of, GIB,
};
use crate::volatile::{BatterySample, Connection};

verus! {

/// The glyph for a battery charged to `level` fifths, rounded down.
pub open spec fn battery_glyph(level: nat) -> char
    recommends
        level <= 5,
{
    if level == 0 {
        '\u{f7b9}'
    } else if level == 1 {
        '\u{f244}'
    } else if level == 2 {
        '\u{f243}'
    } else if level == 3 {
        '\u{f242}'
    } else if level == 4 {
        '\u{f241}'
    } else {
        '\u{f240}'
    }
}

/// The battery part: a single glyph at full charge; else the level glyph
/// and a space, behind a plug and a space while charging.
pub open spec fn battery_text(sample: BatterySample, level: nat) -> Seq<char> {
    if sample.on_full_charge {
        seq!['\u{f0e7}']
    } else if sample.charging {
        seq!['\u{f1e6}', ' ', battery_glyph(level), ' ']
    } else {
        seq![battery_glyph(level), ' ']
    }
}

/// Returns the text of the level glyph.
fn battery_glyph_text(level: usize) -> (text: &'static str)
    requires
        level <= 5,
    ensures
        text@ == seq![battery_glyph(level as nat)],
{
    proof {
        reveal_strlit("\u{f7b9}");
        reveal_strlit("\u{f244}");
        reveal_strlit("\u{f243}");
        reveal_strlit("\u{f242}");
        reveal_strlit("\u{f241}");
        reveal_strlit("\u{f240}");
    }
    let text = if level == 0 {
        "\u{f7b9}"
    } else if level == 1 {
        "\u{f244}"
    } else if level == 2 {
        "\u{f243}"
    } else if level == 3 {
        "\u{f242}"
    } else if level == 4 {
        "\u{f241}"
    } else {
        "\u{f240}"
    };
    assert(text@ =~= seq![battery_glyph(level as nat)]);
    text
}

/// Returns the battery part for a reading and a charge level in fifths,
/// rounded down. The level is not looked at when the battery is full.
pub fn battery_display(sample: &BatterySample, level: usize) -> (text: String)
    requires
        sample.on_full_charge || level <= 5,
    ensures
        text@ == battery_text(*sample, level as nat),
{
    proof {
        reveal_strlit("\u{f0e7}");
        reveal_strlit("\u{f1e6} ");
        reveal_strlit("");
        reveal_strlit(" ");
    }
    if sample.on_full_charge {
        let text = String::from_str("\u{f0e7}");
        assert(text@ =~= battery_text(*sample, level as nat));
        return text;
    }
    let mut text = String::from_str(if sample.charging { "\u{f1e6} " } else { "" });
    text.append(battery_glyph_text(level));
    text.append(" ");
    assert(text@ =~= battery_text(*sample, level as nat));
    text
}

/// The glyph for a processor at `temperature` whole degrees.
pub open spec fn cpu_glyph(temperature: int) -> char {
    if temperature < 45 {
        '\u{f2dc}'
    } else if temperature < 55 {
        '\u{f043}'
    } else if temperature < 65 {
        '\u{f7b6}'
    } else if temperature < 75 {
        '\u{f06d}'
    } else {
        '\u{f54c}'
    }
}

/// The processor part: the load in percent, a space, the temperature glyph.
pub open spec fn cpu_text(usage: nat, temperature: int) -> Seq<char> {
    decimal_digits(usage) + seq![' ', cpu_glyph(temperature)]
}

/// Returns the processor part for a load in percent and a temperature in
/// degrees, rounded down.
pub fn cpu_display(usage: usize, temperature: i64) -> (text: String)
    ensures
        text@ == cpu_text(usage as nat, temperature as int),
{
    proof {
        reveal_strlit(" ");
        reveal_strlit("\u{f2dc}");
        reveal_strlit("\u{f043}");
        reveal_strlit("\u{f7b6}");
        reveal_strlit("\u{f06d}");
        reveal_strlit("\u{f54c}");
    }
    let mut text = decimal_text(usage as u128);
    text.append(" ");
    text.append(
        if temperature < 45 {
            "\u{f2dc}"
        } else if temperature < 55 {
            "\u{f043}"
        } else if temperature < 65 {
            "\u{f7b6}"
        } else if temperature < 75 {
            "\u{f06d}"
        } else {
            "\u{f54c}"
        },
    );
    assert(text@ =~= cpu_text(usage as nat, temperature as int));
    text
}

/// The network part: a glyph and a space when wired or offline; on wifi a
/// glyph, two spaces, the signal strength and a percent sign.
pub open spec fn internet_text(connection: Connection, strength: Seq<char>) -> Seq<char> {
    match connection {
        Connection::Wired => seq!['\u{f6ff}', ' '],
        Connection::Offline => seq!['\u{f00d}', ' '],
        Connection::Wifi => seq!['\u{f1eb}', ' ', ' '] + strength + seq!['%'],
    }
}

/// Returns the network part for a connection type and the signal strength
/// as it is to be shown. The strength is looked at on wifi only.
pub fn internet_display(connection: Connection, strength: &str) -> (text: String)
    ensures
        text@ == internet_text(connection, strength@),
{
    proof {
        reveal_strlit("\u{f6ff} ");
        reveal_strlit("\u{f00d} ");
        reveal_strlit("\u{f1eb}  ");
        reveal_strlit("%");
    }
    match connection {
        Connection::Wired => {
            let text = String::from_str("\u{f6ff} ");
            assert(text@ =~= internet_text(connection, strength@));
            text
        },
        Connection::Offline => {
            let text = String::from_str("\u{f00d} ");
            assert(text@ =~= internet_text(connection, strength@));
            text
        },
        Connection::Wifi => {
            let mut text = String::from_str("\u{f1eb}  ");
            text.append(strength);
            text.append("%");
            assert(text@ =~= internet_text(connection, strength@));
            text
        },
    }
}

/// What one mounted file system reports.
#[derive(Debug)]
pub struct DiskSpace {
    pub mount_point: String,
    pub total_space: u64,
    pub available_space: u64,
}

/// The mount point of the root file system.
pub open spec fn root_mount() -> Seq<char> {
    "/"@
}

/// The total space, in bytes, of the file systems mounted at the root.
pub open spec fn root_total(disks: Seq<DiskSpace>) -> nat
    decreases disks.len(),
{
    if disks.len() == 0 {
        0
    } else if disks.last().mount_point@ == root_mount() {
        root_total(disks.drop_last()) + disks.last().total_space as nat
    } else {
        root_total(disks.drop_last())
    }
}

/// The available space, in bytes, of the file systems mounted at the root.
pub open spec fn root_available(disks: Seq<DiskSpace>) -> nat
    decreases disks.len(),
{
    if disks.len() == 0 {
        0
    } else if disks.last().mount_point@ == root_mount() {
        root_available(disks.drop_last()) + disks.last().available_space as nat
    } else {
        root_available(disks.drop_last())
    }
}

/// Both sums grow with the list.
pub proof fn lemma_root_sums_grow(disks: Seq<DiskSpace>, n: int)
    requires
        0 <= n <= disks.len(),
    ensures
        root_total(disks.take(n)) <= root_total(disks),
        root_available(disks.take(n)) <= root_available(disks),
    decreases disks.len(),
{
    if n == disks.len() {
        assert(disks.take(n) =~= disks);
    } else {
        assert(disks.drop_last().take(n) =~= disks.take(n));
        lemma_root_sums_grow(disks.drop_last(), n);
    }
}

/// Bytes in whole gibibytes, as double-precision arithmetic rounds them:
/// the byte count goes to the nearest double, and the quotient to the
/// nearest integer, a tie going up.
pub open spec fn gib_rounded(bytes: nat) -> nat {
    (nearest_double(bytes) + (GIB / 2) as nat) / (GIB as nat)
}

/// Returns `bytes` in whole gibibytes, rounded.
pub fn gib_rounded_of(bytes: u64) -> (gib: u64)
    ensures
        gib == gib_rounded(bytes as nat),
{
    let value = nearest_double_of(bytes);
    let gib: u128 = (value + GIB / 2) / GIB;
    gib as u64
}

/// Returns the total and the available space of the file systems mounted at
/// the root, or `None` when one of the sums does not fit 64 bits.
pub fn root_space(disks: &Vec<DiskSpace>) -> (sums: Option<(u64, u64)>)
    ensures
        sums is Some <==> root_total(disks@) <= u64::MAX && root_available(disks@) <= u64::MAX,
        sums matches Some((total, available)) ==> total == root_total(disks@) && available
            == root_available(disks@),
{
    let root = String::from_str("/");
    let mut total: u64 = 0;
    let mut available: u64 = 0;
    let mut i: usize = 0;
    while i < disks.len()
        invariant
            i <= disks.len(),
            root@ == root_mount(),
            total == root_total(disks@.take(i as int)),
            available == root_available(disks@.take(i as int)),
        decreases disks.len() - i,
    {
        proof {
            assert(disks@.take(i + 1).drop_last() =~= disks@.take(i as int));
            lemma_root_sums_grow(disks@, i + 1);
        }
        if disks[i].mount_point == root {
            if disks[i].total_space > u64::MAX - total {
                return None;
            }
            if disks[i].available_space > u64::MAX - available {
                return None;
            }
            total = total + disks[i].total_space;
            available = available + disks[i].available_space;
        }
        i += 1;
    }
    assert(disks@.take(i as int) =~= disks@);
    Some((total, available))
}

/// The disk part: a space, the used and the total gibibytes of the root
/// file system with a slash between them, a space, the glyph, a space.
pub open spec fn disk_text(total: nat, available: nat) -> Seq<char> {
    seq![' '] + decimal_digits((gib_rounded(total) - gib_rounded(available)) as nat) + seq!['/']
        + decimal_digits(gib_rounded(total)) + seq![' ', '\u{f0c7}', ' ']
}

/// The disk part can be shown: the sums fit 64 bits and no more is
/// available than there is.
pub open spec fn disk_shown(disks: Seq<DiskSpace>) -> bool {
    &&& root_total(disks) <= u64::MAX
    &&& root_available(disks) <= u64::MAX
    &&& gib_rounded(root_available(disks)) <= gib_rounded(root_total(disks))
}

/// Returns the disk part for the mounted file systems, of which those at
/// the root count; `None` when a sum does not fit 64 bits or the used space
/// would be negative.
pub fn disk_display(disks: &Vec<DiskSpace>) -> (text: Option<String>)
    ensures
        text is Some <==> disk_shown(disks@),
        text matches Some(t) ==> t@ == disk_text(root_total(disks@), root_available(disks@)),
{
    let (total, available) = match root_space(disks) {
        Some(sums) => sums,
        None => {
            return None;
        },
    };
    let total_gb = gib_rounded_of(total);
    let available_gb = gib_rounded_of(available);
    if available_gb > total_gb {
        return None;
    }
    proof {
        reveal_strlit(" ");
        reveal_strlit("/");
        reveal_strlit(" \u{f0c7} ");
    }
    let mut text = String::from_str(" ");
    let used = decimal_text((total_gb - available_gb) as u128);
    text.append(used.as_str());
    text.append("/");
    let whole = decimal_text(total_gb as u128);
    text.append(whole.as_str());
    text.append(" \u{f0c7} ");
    assert(text@ =~= disk_text(root_total(disks@), root_available(disks@)));
    Some(text)
}

/// A number below 100 in two digits.
pub open spec fn two_digits(n: nat) -> Seq<char>
    recommends
        n < 100,
{
    seq![digit_char(n / 10), digit_char(n % 10)]
}

/// The time part: hour and minute, two digits each, a colon between them.
pub open spec fn clock_text(hour: nat, minute: nat) -> Seq<char> {
    two_digits(hour) + seq![':'] + two_digits(minute)
}

/// Formats a time of day with `chrono::NaiveTime::format` and the pattern
/// `%H:%M`.
///
/// Trusted: the result is the hour of the 24-hour clock and the minute,
/// each padded with a zero to two digits, with a colon between them.
#[verifier::external_body]
fn format_clock(hour: u32, minute: u32) -> (text: String)
    requires
        hour < 24,
        minute < 60,
    ensures
        text@ == clock_text(hour as nat, minute as nat),
{
    chrono::NaiveTime::from_hms_opt(hour, minute, 0).unwrap_or_default().format("%H:%M").to_string()
}

/// Returns the time part for an hour of the 24-hour clock and a minute.
pub fn time_display(hour: u32, minute: u32) -> (text: String)
    requires
        hour < 24,
        minute < 60,
    ensures
        text@ == clock_text(hour as nat, minute as nat),
        text@.len() == 5,
{
    format_clock(hour, minute)
}

/// What stands between two parts of the line.
pub open spec fn separator() -> Seq<char> {
    seq![' ', '|', ' ']
}

/// The status line: the seven parts in their order, separated, and a
/// closing space.
pub open spec fn line_text(
    weather: Seq<char>,
    disk: Seq<char>,
    internet: Seq<char>,
    memory: Seq<char>,
    cpu: Seq<char>,
    battery: Seq<char>,
    time: Seq<char>,
) -> Seq<char> {
    weather + separator() + disk + separator() + internet + separator() + memory + separator()
        + cpu + separator() + battery + separator() + time + seq![' ']
}

/// Returns the status line made of its seven parts.
pub fn status_line(
    weather: &str,
    disk: &str,
    internet: &str,
    memory: &str,
    cpu: &str,
    battery: &str,
    time: &str,
) -> (line: String)
    ensures
        line@ == line_text(weather@, disk@, internet@, memory@, cpu@, battery@, time@),
{
    proof {
        reveal_strlit(" | ");
        reveal_strlit(" ");
        assert(" | "@ =~= separator());
    }
    let mut line = String::from_str(weather);
    line.append(" | ");
    line.append(disk);
    line.append(" | ");
    line.append(internet);
    line.append(" | ");
    line.append(memory);
    line.append(" | ");
    line.append(cpu);
    line.append(" | ");
    line.append(battery);
    line.append(" | ");
    line.append(time);
    line.append(" ");
    assert(line@ =~= line_text(weather@, disk@, internet@, memory@, cpu@, battery@, time@));
    line
}

} // verus!
