//! The tracing program that catches a process at its exit.
//!
//! To dump a process that exits of its own accord, the inspector has it
//! stopped the moment it enters its exit routine. A tracing program does
//! that: it probes the entry of `__exit` in the target, stops the target
//! there and ends itself, which wakes the inspector.

use vstd::prelude::*;
use vstd::string::StringExecFns;
use crate::hex::{digit, spec_digit};

verus! {

/// The decimal digits of `value`, the most significant first.
pub open spec fn spec_decimal(value: nat) -> Seq<char>
    decreases value,
{
    if value < 10 {
        seq![spec_digit(value as int)]
    } else {
        spec_decimal(value / 10).push(spec_digit((value % 10) as int))
    }
}

/// The decimal text of `value`, with a minus sign where it is negative.
pub open spec fn spec_signed_decimal(value: int) -> Seq<char> {
    if value < 0 {
        seq!['-'] + spec_decimal((-value) as nat)
    } else {
        spec_decimal(value as nat)
    }
}

/// The program that stops process `pid` at the entry of its exit routine.
pub open spec fn spec_exit_probe_program(pid: i32) -> Seq<char> {
    "pid"@ + spec_signed_decimal(pid as int) + "::__exit:entry{stop(); exit(0)}"@
}

fn append_decimal(text: &mut String, value: u32)
    ensures
        final(text)@ == old(text)@ + spec_decimal(value as nat),
    decreases value,
{
    if value >= 10 {
        append_decimal(text, value / 10);
    }
    text.append(digit((value % 10) as u64));
    assert(text@ =~= old(text)@ + spec_decimal(value as nat));
}

/// The program that stops process `pid` at the entry of its exit routine:
/// a probe on `pid<pid>::__exit:entry` whose action is `stop(); exit(0)`.
pub fn exit_probe_program(pid: i32) -> (program: String)
    ensures
        program@ == spec_exit_probe_program(pid),
{
    let mut program = String::from_str("pid");
    if pid < 0 {
        proof {
            reveal_strlit("-");
        }
        program.append("-");
        let below: i32 = -(pid + 1);
        append_decimal(&mut program, below as u32 + 1);
        assert(program@ =~= "pid"@ + spec_signed_decimal(pid as int));
    } else {
        append_decimal(&mut program, pid as u32);
    }
    program.append("::__exit:entry{stop(); exit(0)}");
    program
}

} // verus!
