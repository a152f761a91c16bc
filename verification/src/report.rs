//! The event reporter: pure formatting of one resolved row into the fixed
//! column format. Every function's view is pinned character by character.

use vstd::prelude::*;

use crate::packet::{Function, Instant, Report};

verus! {

/// The header printed above all rows.
pub open spec fn spec_header() -> Seq<char> {
    " TIMESTAMP   EXCEPTION"@
}

/// One decimal digit as a one-character sequence.
pub open spec fn spec_digit(d: int) -> Seq<char> {
    if d == 0 {
        "0"@
    } else if d == 1 {
        "1"@
    } else if d == 2 {
        "2"@
    } else if d == 3 {
        "3"@
    } else if d == 4 {
        "4"@
    } else if d == 5 {
        "5"@
    } else if d == 6 {
        "6"@
    } else if d == 7 {
        "7"@
    } else if d == 8 {
        "8"@
    } else {
        "9"@
    }
}

/// A tick-counter value, zero-padded to nine digits (the counter lives below
/// one billion).
pub open spec fn spec_ticks(n: int) -> Seq<char> {
    spec_digit(n / 100_000_000 % 10) + spec_digit(n / 10_000_000 % 10) + spec_digit(
        n / 1_000_000 % 10,
    ) + spec_digit(n / 100_000 % 10) + spec_digit(n / 10_000 % 10) + spec_digit(n / 1_000 % 10)
        + spec_digit(n / 100 % 10) + spec_digit(n / 10 % 10) + spec_digit(n % 10)
}

/// A number in plain decimal, most significant digit first, no leading
/// zeros.
pub open spec fn spec_decimal(n: int) -> Seq<char>
    decreases n,
{
    if n < 10 {
        spec_digit(n)
    } else {
        spec_decimal(n / 10) + spec_digit(n % 10)
    }
}

/// The name column: the reserved vector names for numbers 0 through 15, and
/// `IRQ(n-16)` for external interrupts.
pub open spec fn spec_exception_name(n: int) -> Seq<char> {
    if n == 0 {
        "Thread"@
    } else if n == 1 {
        "Reset"@
    } else if n == 2 {
        "NMI"@
    } else if n == 3 {
        "HardFault"@
    } else if n == 4 {
        "MemManage"@
    } else if n == 5 {
        "BusFault"@
    } else if n == 6 {
        "UsageFault"@
    } else if 7 <= n && n <= 10 {
        "<reserved 7-10>"@
    } else if n == 11 {
        "SVCall"@
    } else if n == 12 {
        "DebugMonitor"@
    } else if n == 13 {
        "<reserved 13>"@
    } else if n == 14 {
        "PendSV"@
    } else if n == 15 {
        "SysTick"@
    } else {
        "IRQ("@ + spec_decimal(n - 16) + ")"@
    }
}

/// The arrow glyph for each lifecycle phase.
pub open spec fn spec_arrow(f: Function) -> Seq<char> {
    match f {
        Function::Enter => "→"@,
        Function::Exit => "←"@,
        Function::Return => "↓"@,
    }
}

/// The ten-character instant column: the unknown glyphs, the reset marker at
/// tick zero, or a precision marker followed by the nine-digit counter.
pub open spec fn spec_instant_column(inst: Instant) -> Seq<char> {
    match inst {
        Instant::Unknown => " ?????????"@,
        Instant::Reset => "!000000000"@,
        Instant::Known { now, precise } => (
        if precise {
            "="@
        } else {
            "<"@
        }) + spec_ticks(now as int),
    }
}

/// One full row: instant column, arrow, exception name.
pub open spec fn spec_line(r: Report) -> Seq<char> {
    spec_instant_column(r.instant) + " "@ + spec_arrow(r.event.function) + " "@
        + spec_exception_name(r.event.number as int)
}

/// The header printed once, before any row.
pub fn header_line() -> (s: String)
    ensures
        s@ == spec_header(),
{
    String::from_str(" TIMESTAMP   EXCEPTION")
}

fn digit_str(d: u32) -> (s: &'static str)
    requires
        d < 10,
    ensures
        s@ == spec_digit(d as int),
{
    match d {
        0 => "0",
        1 => "1",
        2 => "2",
        3 => "3",
        4 => "4",
        5 => "5",
        6 => "6",
        7 => "7",
        8 => "8",
        _ => "9",
    }
}

/// The nine-digit, zero-padded tick counter column.
pub fn format_ticks(now: u32) -> (s: String)
    ensures
        s@ == spec_ticks(now as int),
{
    let mut s = String::new();
    s.append(digit_str(now / 100_000_000 % 10));
    s.append(digit_str(now / 10_000_000 % 10));
    s.append(digit_str(now / 1_000_000 % 10));
    s.append(digit_str(now / 100_000 % 10));
    s.append(digit_str(now / 10_000 % 10));
    s.append(digit_str(now / 1_000 % 10));
    s.append(digit_str(now / 100 % 10));
    s.append(digit_str(now / 10 % 10));
    s.append(digit_str(now % 10));
    proof {
        assert(s@ =~= spec_ticks(now as int));
    }
    s
}

/// Plain decimal rendering, used for the external interrupt numbers.
pub fn format_decimal(n: u16) -> (s: String)
    ensures
        s@ == spec_decimal(n as int),
    decreases n,
{
    if n < 10 {
        String::from_str(digit_str(n as u32))
    } else {
        let mut s = format_decimal(n / 10);
        s.append(digit_str((n % 10) as u32));
        s
    }
}

/// The exception-number-to-name table.
pub fn exception_name(n: u16) -> (s: String)
    ensures
        s@ == spec_exception_name(n as int),
{
    if n == 0 {
        String::from_str("Thread")
    } else if n == 1 {
        String::from_str("Reset")
    } else if n == 2 {
        String::from_str("NMI")
    } else if n == 3 {
        String::from_str("HardFault")
    } else if n == 4 {
        String::from_str("MemManage")
    } else if n == 5 {
        String::from_str("BusFault")
    } else if n == 6 {
        String::from_str("UsageFault")
    } else if 7 <= n && n <= 10 {
        String::from_str("<reserved 7-10>")
    } else if n == 11 {
        String::from_str("SVCall")
    } else if n == 12 {
        String::from_str("DebugMonitor")
    } else if n == 13 {
        String::from_str("<reserved 13>")
    } else if n == 14 {
        String::from_str("PendSV")
    } else if n == 15 {
        String::from_str("SysTick")
    } else {
        let mut s = String::from_str("IRQ(");
        let irq = format_decimal(n - 16);
        s.append(irq.as_str());
        s.append(")");
        proof {
            assert(s@ =~= spec_exception_name(n as int));
        }
        s
    }
}

fn arrow_str(f: Function) -> (s: &'static str)
    ensures
        s@ == spec_arrow(f),
{
    match f {
        Function::Enter => "→",
        Function::Exit => "←",
        Function::Return => "↓",
    }
}

/// Format one resolved row, bit for bit as the fixed column format demands.
pub fn format_line(r: &Report) -> (s: String)
    ensures
        s@ == spec_line(*r),
{
    let mut s = match r.instant {
        Instant::Unknown => String::from_str(" ?????????"),
        Instant::Reset => String::from_str("!000000000"),
        Instant::Known { now, precise } => {
            let mut t = String::from_str(if precise { "=" } else { "<" });
            let ticks = format_ticks(now);
            t.append(ticks.as_str());
            t
        },
    };
    s.append(" ");
    s.append(arrow_str(r.event.function));
    s.append(" ");
    let name = exception_name(r.event.number);
    s.append(name.as_str());
    proof {
        assert(s@ =~= spec_line(*r));
    }
    s
}

} // verus!
