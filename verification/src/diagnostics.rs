//! Human-readable diagnostic text for the exception handlers: hexadecimal
//! rendering of the saved registers and the fixed report each handler
//! writes to the diagnostic sink.
use crate::interrupts::ExceptionFrame;
use vstd::prelude::*;
use vstd::string::StringExecFns;

verus! {

/// The hexadecimal digit character for one value below sixteen.
pub open spec fn spec_hex_digit(d: int) -> char {
    if d == 0 {
        '0'
    } else if d == 1 {
        '1'
    } else if d == 2 {
        '2'
    } else if d == 3 {
        '3'
    } else if d == 4 {
        '4'
    } else if d == 5 {
        '5'
    } else if d == 6 {
        '6'
    } else if d == 7 {
        '7'
    } else if d == 8 {
        '8'
    } else if d == 9 {
        '9'
    } else if d == 10 {
        'a'
    } else if d == 11 {
        'b'
    } else if d == 12 {
        'c'
    } else if d == 13 {
        'd'
    } else if d == 14 {
        'e'
    } else {
        'f'
    }
}

/// The hexadecimal digits of a number, most significant first, no leading
/// zeros (a single `0` for zero).
pub open spec fn spec_hex(n: nat) -> Seq<char>
    decreases n,
{
    if n < 16 {
        seq![spec_hex_digit(n as int)]
    } else {
        spec_hex(n / 16).push(spec_hex_digit((n % 16) as int))
    }
}

/// A number as written in the reports: `0x` then its hexadecimal digits.
pub open spec fn spec_hex_prefixed(n: u64) -> Seq<char> {
    "0x"@ + spec_hex(n as nat)
}

fn hex_digit_str(d: u8) -> (r: &'static str)
    requires
        d < 16,
    ensures
        r@ == seq![spec_hex_digit(d as int)],
{
    let r: &'static str = match d {
        0 => "0",
        1 => "1",
        2 => "2",
        3 => "3",
        4 => "4",
        5 => "5",
        6 => "6",
        7 => "7",
        8 => "8",
        9 => "9",
        10 => "a",
        11 => "b",
        12 => "c",
        13 => "d",
        14 => "e",
        _ => "f",
    };
    proof {
        reveal_strlit("0");
        reveal_strlit("1");
        reveal_strlit("2");
        reveal_strlit("3");
        reveal_strlit("4");
        reveal_strlit("5");
        reveal_strlit("6");
        reveal_strlit("7");
        reveal_strlit("8");
        reveal_strlit("9");
        reveal_strlit("a");
        reveal_strlit("b");
        reveal_strlit("c");
        reveal_strlit("d");
        reveal_strlit("e");
        reveal_strlit("f");
        assert(r@ =~= seq![spec_hex_digit(d as int)]);
    }
    r
}

fn push_hex(out: &mut String, n: u64)
    ensures
        final(out)@ == old(out)@ + spec_hex(n as nat),
    decreases n,
{
    if n >= 16 {
        push_hex(out, n / 16);
    }
    let d = (n % 16) as u8;
    let digit = hex_digit_str(d);
    out.append(digit);
    proof {
        assert(out@ =~= old(out)@ + spec_hex(n as nat));
    }
}

/// A number as the reports write it: `0x` then hexadecimal digits.
pub fn u64_to_hex(n: u64) -> (r: String)
    ensures
        r@ == spec_hex_prefixed(n),
{
    let mut s = String::from_str("0x");
    push_hex(&mut s, n);
    s
}

/// The saved-register snapshot every exception report ends with.
pub open spec fn spec_frame_lines(f: ExceptionFrame) -> Seq<char> {
    "instruction pointer: "@ + spec_hex_prefixed(f.instruction_pointer) + "\ncode segment: "@
        + spec_hex_prefixed(f.code_segment) + "\ncpu flags: "@ + spec_hex_prefixed(f.cpu_flags)
        + "\nstack pointer: "@ + spec_hex_prefixed(f.stack_pointer) + "\nstack segment: "@
        + spec_hex_prefixed(f.stack_segment) + "\n"@
}

/// Renders the saved-register snapshot.
pub fn frame_report(f: &ExceptionFrame) -> (r: String)
    ensures
        r@ == spec_frame_lines(*f),
{
    let mut s = String::from_str("instruction pointer: ");
    let h0 = u64_to_hex(f.instruction_pointer);
    s.append(h0.as_str());
    s.append("\ncode segment: ");
    let h1 = u64_to_hex(f.code_segment);
    s.append(h1.as_str());
    s.append("\ncpu flags: ");
    let h2 = u64_to_hex(f.cpu_flags);
    s.append(h2.as_str());
    s.append("\nstack pointer: ");
    let h3 = u64_to_hex(f.stack_pointer);
    s.append(h3.as_str());
    s.append("\nstack segment: ");
    let h4 = u64_to_hex(f.stack_segment);
    s.append(h4.as_str());
    s.append("\n");
    proof {
        assert(s@ =~= spec_frame_lines(*f));
    }
    s
}

/// What the breakpoint handler writes to the diagnostic sink.
pub open spec fn spec_breakpoint_message(f: ExceptionFrame) -> Seq<char> {
    "EXCEPTION: BREAKPOINT\n"@ + spec_frame_lines(f)
}

pub fn breakpoint_report(f: &ExceptionFrame) -> (r: String)
    ensures
        r@ == spec_breakpoint_message(*f),
{
    let mut s = String::from_str("EXCEPTION: BREAKPOINT\n");
    let frame = frame_report(f);
    s.append(frame.as_str());
    proof {
        assert(s@ =~= spec_breakpoint_message(*f));
    }
    s
}

/// What the double-fault handler writes before the system halts.
pub open spec fn spec_double_fault_message(f: ExceptionFrame) -> Seq<char> {
    "EXCEPTION: DOUBLE_FAULT\n"@ + spec_frame_lines(f)
}

pub fn double_fault_report(f: &ExceptionFrame) -> (r: String)
    ensures
        r@ == spec_double_fault_message(*f),
{
    let mut s = String::from_str("EXCEPTION: DOUBLE_FAULT\n");
    let frame = frame_report(f);
    s.append(frame.as_str());
    proof {
        assert(s@ =~= spec_double_fault_message(*f));
    }
    s
}

/// What the page-fault handler writes before the system halts: the
/// faulting virtual address, the fault-reason flags, then the snapshot.
pub open spec fn spec_page_fault_message(f: ExceptionFrame, address: u64, error_code: u64) -> Seq<
    char,
> {
    "EXCEPTION: PAGE FAULT\nAccessed Address: "@ + spec_hex_prefixed(address) + "\nError Code: "@
        + spec_hex_prefixed(error_code) + "\n"@ + spec_frame_lines(f)
}

pub fn page_fault_report(f: &ExceptionFrame, address: u64, error_code: u64) -> (r: String)
    ensures
        r@ == spec_page_fault_message(*f, address, error_code),
{
    let mut s = String::from_str("EXCEPTION: PAGE FAULT\nAccessed Address: ");
    let ha = u64_to_hex(address);
    s.append(ha.as_str());
    s.append("\nError Code: ");
    let hc = u64_to_hex(error_code);
    s.append(hc.as_str());
    s.append("\n");
    let frame = frame_report(f);
    s.append(frame.as_str());
    proof {
        assert(s@ =~= spec_page_fault_message(*f, address, error_code));
    }
    s
}

} // verus!
