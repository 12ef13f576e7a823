//! The input pins of the footswitch buttons, and the pace of their
//! debouncing.

use vstd::prelude::*;

verus! {

/// Each pin but the first has the number that follows the number of the
/// pin in front of it.
pub open spec fn consecutive(pin_ids: Seq<u8>) -> bool {
    forall|i: int| 0 < i < pin_ids.len() ==> #[trigger] pin_ids[i] as int == pin_ids[i - 1] + 1
}

/// The button scanner reads a run of pins: at least one pin, consecutive,
/// and few enough to be counted in a byte.
pub open spec fn is_pin_run(pin_ids: Seq<u8>) -> bool {
    0 < pin_ids.len() <= u8::MAX && consecutive(pin_ids)
}

/// Checks that the pins form a run, and gives its first pin and its length.
pub fn validate_pins(pin_ids: &[u8]) -> (run: Option<(u8, u8)>)
    ensures
        run is Some <==> is_pin_run(pin_ids@),
        run matches Some((base_pin, pin_count)) ==> base_pin == pin_ids@[0] && pin_count
            == pin_ids@.len(),
{
    if pin_ids.len() == 0 || pin_ids.len() > u8::MAX as usize {
        return None;
    }
    let base_pin = pin_ids[0];
    let mut prev_pin = base_pin;
    let mut pin_count: u8 = 1;
    while (pin_count as usize) < pin_ids.len()
        invariant
            0 < pin_count <= pin_ids@.len() <= u8::MAX,
            prev_pin == pin_ids@[pin_count - 1],
            consecutive(pin_ids@.take(pin_count as int)),
        decreases pin_ids@.len() - pin_count,
    {
        let pin_id = pin_ids[pin_count as usize];
        if prev_pin == u8::MAX || prev_pin + 1 != pin_id {
            assert(!consecutive(pin_ids@)) by {
                if consecutive(pin_ids@) {
                    assert(pin_ids@[pin_count as int] as int == pin_ids@[pin_count - 1] + 1);
                }
            }
            return None;
        }
        assert(consecutive(pin_ids@.take(pin_count + 1))) by {
            let grown = pin_ids@.take(pin_count + 1);
            let so_far = pin_ids@.take(pin_count as int);
            assert forall|i: int| 0 < i < grown.len() implies #[trigger] grown[i] as int
                == grown[i - 1] + 1 by {
                if i < pin_count {
                    assert(so_far[i] as int == so_far[i - 1] + 1);
                }
            }
        }
        prev_pin = pin_id;
        pin_count += 1;
    }
    assert(pin_ids@.take(pin_count as int) =~= pin_ids@);
    Some((base_pin, pin_count))
}

/// Time for which a button has to rest before its state counts, in
/// milliseconds.
pub const TARGET_DEBOUNCE_TIME_MS: u32 = 5;

/// Instructions that the button scanner runs to debounce one change: so
/// many cycles of so many instructions each.
pub open spec fn debounce_instructions(cycle_instructions: u8, cycles: u8) -> int {
    cycle_instructions as int * cycles as int
}

/// The clock divisor that stretches the debouncing over the target time at
/// a system clock of `sys_hz`: the instructions that the system clock runs
/// in that time, divided by those that the debouncing takes, and no more
/// than the divisor can hold.
pub open spec fn debounce_divisor(sys_hz: u32, cycle_instructions: u8, cycles: u8) -> int {
    let wanted = (TARGET_DEBOUNCE_TIME_MS * (sys_hz / 1000)) / debounce_instructions(
        cycle_instructions,
        cycles,
    );
    if wanted < u16::MAX {
        wanted
    } else {
        u16::MAX as int
    }
}

/// Computes the clock divisor of the button scanner, or nothing where the
/// debouncing takes no instruction at all.
pub fn debounce_clock_divisor(sys_hz: u32, cycle_instructions: u8, cycles: u8) -> (div: Option<
    u16,
>)
    ensures
        div is Some <==> debounce_instructions(cycle_instructions, cycles) > 0,
        div matches Some(d) ==> d as int == debounce_divisor(sys_hz, cycle_instructions, cycles),
{
    assert(0 <= cycle_instructions as int * cycles as int <= 255 * 255) by (nonlinear_arith)
        requires
            0 <= cycle_instructions <= 255,
            0 <= cycles <= 255,
    ;
    let total_debounce_instructions: u32 = cycle_instructions as u32 * cycles as u32;
    if total_debounce_instructions == 0 {
        return None;
    }
    let target_clk_div: u32 = (TARGET_DEBOUNCE_TIME_MS * (sys_hz / 1000))
        / total_debounce_instructions;
    if target_clk_div < u16::MAX as u32 {
        Some(target_clk_div as u16)
    } else {
        Some(u16::MAX)
    }
}

} // verus!
