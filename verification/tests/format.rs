use excevt::packet::{Function, Instant, Packet, Report, StreamEvent, TraceEvent};
use excevt::report::{exception_name, format_decimal, format_line, format_ticks, header_line};
use excevt::resolver::{Outcome, TraceResolver};

fn row(number: u16, function: Function, instant: Instant) -> Report {
    Report {
        event: TraceEvent { number, function },
        instant,
    }
}

#[test]
fn header_is_fixed() {
    assert_eq!(header_line(), " TIMESTAMP   EXCEPTION");
}

#[test]
fn unknown_row() {
    let line = format_line(&row(15, Function::Enter, Instant::Unknown));
    assert_eq!(line, " ????????? → SysTick");
}

#[test]
fn reset_row() {
    let line = format_line(&row(14, Function::Exit, Instant::Reset));
    assert_eq!(line, "!000000000 ← PendSV");
}

#[test]
fn known_precise_row() {
    let line = format_line(&row(
        3,
        Function::Return,
        Instant::Known {
            now: 123,
            precise: true,
        },
    ));
    assert_eq!(line, "=000000123 ↓ HardFault");
}

#[test]
fn known_imprecise_row() {
    let line = format_line(&row(
        2,
        Function::Enter,
        Instant::Known {
            now: 999_999_999,
            precise: false,
        },
    ));
    assert_eq!(line, "<999999999 → NMI");
}

#[test]
fn ticks_are_zero_padded() {
    assert_eq!(format_ticks(0), "000000000");
    assert_eq!(format_ticks(7), "000000007");
    assert_eq!(format_ticks(1_000_000), "001000000");
    assert_eq!(format_ticks(999_999_999), "999999999");
}

#[test]
fn decimal_has_no_leading_zeros() {
    assert_eq!(format_decimal(0), "0");
    assert_eq!(format_decimal(9), "9");
    assert_eq!(format_decimal(10), "10");
    assert_eq!(format_decimal(407), "407");
    assert_eq!(format_decimal(65535), "65535");
}

#[test]
fn reserved_vector_names() {
    assert_eq!(exception_name(0), "Thread");
    assert_eq!(exception_name(1), "Reset");
    assert_eq!(exception_name(2), "NMI");
    assert_eq!(exception_name(3), "HardFault");
    assert_eq!(exception_name(4), "MemManage");
    assert_eq!(exception_name(5), "BusFault");
    assert_eq!(exception_name(6), "UsageFault");
    assert_eq!(exception_name(7), "<reserved 7-10>");
    assert_eq!(exception_name(8), "<reserved 7-10>");
    assert_eq!(exception_name(9), "<reserved 7-10>");
    assert_eq!(exception_name(10), "<reserved 7-10>");
    assert_eq!(exception_name(11), "SVCall");
    assert_eq!(exception_name(12), "DebugMonitor");
    assert_eq!(exception_name(13), "<reserved 13>");
    assert_eq!(exception_name(14), "PendSV");
    assert_eq!(exception_name(15), "SysTick");
}

#[test]
fn irq_names() {
    assert_eq!(exception_name(16), "IRQ(0)");
    assert_eq!(exception_name(17), "IRQ(1)");
    assert_eq!(exception_name(42), "IRQ(26)");
    assert_eq!(exception_name(65535), "IRQ(65519)");
}

#[test]
fn disabled_then_first_timestamp_then_reset_row() {
    // state Disabled; a standalone timestamp establishes Unknown; a trace
    // classified by the next timestamp is reported as a reset of SysTick.
    let mut r = TraceResolver::new(false);
    let (reps, out) = r.step(StreamEvent::Item(Packet::LocalTimestamp {
        delta: 7,
        precise: false,
    }));
    assert!(reps.is_empty());
    assert_eq!(out, Outcome::Proceed);
    let (reps, _) = r.step(StreamEvent::Item(Packet::ExceptionTrace(TraceEvent {
        number: 15,
        function: Function::Enter,
    })));
    assert!(reps.is_empty());
    let (reps, out) = r.step(StreamEvent::Item(Packet::LocalTimestamp {
        delta: 3,
        precise: true,
    }));
    assert_eq!(out, Outcome::Proceed);
    assert_eq!(reps.len(), 1);
    assert_eq!(format_line(&reps[0]), "!000000000 → SysTick");
}
