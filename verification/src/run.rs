//! The run: the factorials of one to nine, handed out in ascending order.
//!
//! A host that prints them supplies the printing itself. Here the run appends
//! each value to a log, one entry for each value the host is to print, in the
//! order in which it prints them.

use vstd::prelude::*;
use crate::factorial::{fact, factorial, lemma_factorial_values};

verus! {

/// The first argument of a run.
pub const FIRST: i32 = 1;

/// The end of a run: the first argument that it leaves out.
pub const END: i32 = 10;

/// The values of a run, in order: the factorial of `FIRST`, then of each
/// argument after it, up to and without `END`.
pub open spec fn run_values() -> Seq<i32> {
    Seq::new((END - FIRST) as nat, |k: int| factorial((FIRST + k) as nat) as i32)
}

/// A run has nine values, and they are these.
pub proof fn lemma_run_values()
    ensures
        run_values().len() == 9,
        run_values() == seq![1i32, 2i32, 6i32, 24i32, 120i32, 720i32, 5040i32, 40320i32, 362880i32],
{
    lemma_factorial_values();
    assert(run_values() =~= seq![
        1i32,
        2i32,
        6i32,
        24i32,
        120i32,
        720i32,
        5040i32,
        40320i32,
        362880i32,
    ]);
}

/// Appends the values of a run to `log`, in ascending order of the argument.
///
/// What `log` held before stays in front, untouched. Nine entries follow it,
/// the factorials of one to nine, and nothing comes after them.
pub fn run(log: &mut Vec<i32>)
    ensures
        final(log)@ == old(log)@ + run_values(),
        final(log)@.len() == old(log)@.len() + 9,
        final(log)@ == old(log)@ + seq![
            1i32,
            2i32,
            6i32,
            24i32,
            120i32,
            720i32,
            5040i32,
            40320i32,
            362880i32,
        ],
{
    let ghost before = log@;
    let mut i: i32 = FIRST;
    while i < END
        invariant
            FIRST <= i <= END,
            log@ == before + run_values().subrange(0, i - FIRST),
        decreases END - i,
    {
        let value: i32 = fact(i);
        log.push(value);
        proof {
            let done = run_values().subrange(0, i - FIRST);
            let next = run_values().subrange(0, i - FIRST + 1);
            assert(next =~= done.push(value));
            assert(before + next =~= (before + done).push(value));
        }
        i = i + 1;
    }
    proof {
        lemma_run_values();
        assert(run_values().subrange(0, END - FIRST) =~= run_values());
    }
}

} // verus!
