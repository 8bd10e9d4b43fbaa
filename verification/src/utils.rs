//! Shared helpers: decimal formatting and the bounded progress simulation.

use vstd::prelude::*;

use crate::effect::{EffectModel, ScreenEffect};

verus! {

/// The decimal digit character of one digit value.
pub open spec fn spec_digit_char(d: nat) -> char {
    if d == 0 {
        '0'
    } else if d == 1 {
        '1'
    } else if d == 2 {
        '2'
    } else if d == 3 {
        '3'
    } else if d == 4 {
        '4'
    } else if d == 5 {
        '5'
    } else if d == 6 {
        '6'
    } else if d == 7 {
        '7'
    } else if d == 8 {
        '8'
    } else {
        '9'
    }
}

/// The decimal numeral of `n`, most significant digit first, no leading
/// zeros (a single `'0'` for zero).
pub open spec fn spec_decimal(n: nat) -> Seq<char>
    decreases n,
{
    if n < 10 {
        seq![spec_digit_char(n)]
    } else {
        spec_decimal(n / 10).push(spec_digit_char(n % 10))
    }
}

fn digit_str(d: u8) -> (r: &'static str)
    requires
        d < 10,
    ensures
        r@ == seq![spec_digit_char(d as nat)],
{
    if d == 0 {
        proof {
            reveal_strlit("0");
            assert("0"@ =~= seq![spec_digit_char(0)]);
        }
        "0"
    } else if d == 1 {
        proof {
            reveal_strlit("1");
            assert("1"@ =~= seq![spec_digit_char(1)]);
        }
        "1"
    } else if d == 2 {
        proof {
            reveal_strlit("2");
            assert("2"@ =~= seq![spec_digit_char(2)]);
        }
        "2"
    } else if d == 3 {
        proof {
            reveal_strlit("3");
            assert("3"@ =~= seq![spec_digit_char(3)]);
        }
        "3"
    } else if d == 4 {
        proof {
            reveal_strlit("4");
            assert("4"@ =~= seq![spec_digit_char(4)]);
        }
        "4"
    } else if d == 5 {
        proof {
            reveal_strlit("5");
            assert("5"@ =~= seq![spec_digit_char(5)]);
        }
        "5"
    } else if d == 6 {
        proof {
            reveal_strlit("6");
            assert("6"@ =~= seq![spec_digit_char(6)]);
        }
        "6"
    } else if d == 7 {
        proof {
            reveal_strlit("7");
            assert("7"@ =~= seq![spec_digit_char(7)]);
        }
        "7"
    } else if d == 8 {
        proof {
            reveal_strlit("8");
            assert("8"@ =~= seq![spec_digit_char(8)]);
        }
        "8"
    } else {
        proof {
            reveal_strlit("9");
            assert("9"@ =~= seq![spec_digit_char(9)]);
        }
        "9"
    }
}

/// The decimal numeral of `n` as an owned string.
pub fn decimal_string(n: u8) -> (r: String)
    ensures
        r@ == spec_decimal(n as nat),
    decreases n,
{
    if n < 10 {
        String::from_str(digit_str(n))
    } else {
        let prefix = decimal_string(n / 10);
        let r = prefix.concat(digit_str(n % 10));
        proof {
            assert(r@ =~= spec_decimal(n as nat));
        }
        r
    }
}

/// The percentage shown at step `i` of a simulation with `steps` steps.
pub open spec fn spec_percent(i: int, steps: int) -> int {
    i * 100 / steps
}

/// The line printed at one progress step: `"<task>... <pct>%"`.
pub open spec fn spec_progress_line(task: Seq<char>, pct: nat) -> Seq<char> {
    task + "... "@ + spec_decimal(pct) + "%"@
}

/// One clear-print-sleep cycle of the progress simulation.
pub open spec fn spec_progress_cycle(task: Seq<char>, pct: nat, delay_ms: u64) -> Seq<EffectModel> {
    seq![
        EffectModel::ClearScreen,
        EffectModel::PrintLine(spec_progress_line(task, pct)),
        EffectModel::SleepMs(delay_ms),
    ]
}

/// The first `n` cycles of the progress simulation, steps `0` through `n-1`.
pub open spec fn spec_progress_prefix(
    task: Seq<char>,
    steps: u8,
    delay_ms: u64,
    n: int,
) -> Seq<EffectModel>
    decreases n,
{
    if n <= 0 {
        Seq::empty()
    } else {
        spec_progress_prefix(task, steps, delay_ms, n - 1) + spec_progress_cycle(
            task,
            spec_percent(n - 1, steps as int) as nat,
            delay_ms,
        )
    }
}

/// The whole progress script: cycles for steps `0` through `steps` inclusive.
pub open spec fn spec_progress(task: Seq<char>, steps: u8, delay_ms: u64) -> Seq<EffectModel> {
    spec_progress_prefix(task, steps, delay_ms, steps as int + 1)
}

/// Simulate work with a progress display: for each step `i` from `0` through
/// `steps` inclusive, clear the screen, print `"<task>... <pct>%"` with
/// `pct = i * 100 / steps`, and pace the animation by `delay_ms`.
pub fn simulate_progress(task_name: &str, steps: u8, delay_ms: u64) -> (r: Vec<ScreenEffect>)
    requires
        1 <= steps,
    ensures
        r.deep_view() == spec_progress(task_name@, steps, delay_ms),
{
    let mut r: Vec<ScreenEffect> = Vec::new();
    let mut i: u16 = 0;
    while i <= steps as u16
        invariant
            1 <= steps,
            i <= steps as u16 + 1,
            r.deep_view() =~= spec_progress_prefix(task_name@, steps, delay_ms, i as int),
        decreases steps as int + 1 - i as int,
    {
        assert(i as int * 100 <= steps as int * 100) by (nonlinear_arith)
            requires
                i as int <= steps as int,
        ;
        assert(i as int * 100 / (steps as int) <= 100) by (nonlinear_arith)
            requires
                1 <= steps as int,
                i as int * 100 <= steps as int * 100,
        ;
        let pct: u8 = (i * 100 / (steps as u16)) as u8;
        let ghost prev = r.deep_view();
        r.push(ScreenEffect::ClearScreen);
        let line = String::from_str(task_name).concat("... ").concat(
            decimal_string(pct).as_str(),
        ).concat("%");
        r.push(ScreenEffect::PrintLine(line));
        r.push(ScreenEffect::SleepMs(delay_ms));
        proof {
            assert(line@ == spec_progress_line(task_name@, pct as nat));
            assert(r.deep_view() =~= prev + spec_progress_cycle(
                task_name@,
                spec_percent(i as int, steps as int) as nat,
                delay_ms,
            ));
        }
        i = i + 1;
    }
    r
}

/// The ten-step progress simulation emits exactly eleven clear-print-sleep
/// cycles, one per step, with percentages 0, 10, ..., 100 — strictly
/// increasing — each cycle paced by the configured delay.
pub proof fn lemma_progress_ten_steps(task: Seq<char>, delay_ms: u64)
    ensures
        spec_progress(task, 10, delay_ms).len() == 33,
        spec_progress(task, 10, delay_ms) =~= spec_progress_cycle(task, 0, delay_ms)
            + spec_progress_cycle(task, 10, delay_ms) + spec_progress_cycle(task, 20, delay_ms)
            + spec_progress_cycle(task, 30, delay_ms) + spec_progress_cycle(task, 40, delay_ms)
            + spec_progress_cycle(task, 50, delay_ms) + spec_progress_cycle(task, 60, delay_ms)
            + spec_progress_cycle(task, 70, delay_ms) + spec_progress_cycle(task, 80, delay_ms)
            + spec_progress_cycle(task, 90, delay_ms) + spec_progress_cycle(task, 100, delay_ms),
        forall|i: int| 0 <= i <= 10 ==> spec_percent(i, 10) == 10 * i,
        forall|i: int, j: int| 0 <= i < j <= 10 ==> spec_percent(i, 10) < spec_percent(j, 10),
{
    assert forall|i: int| 0 <= i <= 10 implies spec_percent(i, 10) == 10 * i by {
        vstd::arithmetic::div_mod::lemma_fundamental_div_mod_converse(i * 100, 10, 10 * i, 0);
    }
    reveal_with_fuel(spec_progress_prefix, 12);
    assert(spec_progress(task, 10, delay_ms) =~= spec_progress_cycle(task, 0, delay_ms)
        + spec_progress_cycle(task, 10, delay_ms) + spec_progress_cycle(task, 20, delay_ms)
        + spec_progress_cycle(task, 30, delay_ms) + spec_progress_cycle(task, 40, delay_ms)
        + spec_progress_cycle(task, 50, delay_ms) + spec_progress_cycle(task, 60, delay_ms)
        + spec_progress_cycle(task, 70, delay_ms) + spec_progress_cycle(task, 80, delay_ms)
        + spec_progress_cycle(task, 90, delay_ms) + spec_progress_cycle(task, 100, delay_ms));
}

} // verus!
