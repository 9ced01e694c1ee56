//! The retention oracle: a guard that is false in practice, though no
//! compiler can know it, and behind which every contribution is called once.
//!
//! A trampoline has no ordinary caller, so an optimizing toolchain may drop
//! it. Passing it through [`link`] puts a call to it on a path that cannot be
//! proved dead, which keeps its code in the image. The path is never taken:
//! the guard asks nine random words to all equal one fixed number.

use rand::Rng;
use vstd::prelude::*;

verus! {

/// The number every sample must equal for the guard to open.
pub const WITNESS: u64 = 42;

/// Largest number of arguments a retained callable may take.
pub const MAX_ARITY: usize = 12;

/// Addresses at which a retained callable would find its arguments and leave
/// its result, were it ever run.
#[derive(Clone, Copy, Debug)]
pub struct Scratch {
    /// Where the `i`-th argument is read from.
    pub arguments: [u64; 12],
    /// Where the result is written to.
    pub result: u64,
}

/// The state of the guard: nine samples, and the scratch addresses that go
/// with them.
#[derive(Clone, Copy, Debug)]
pub struct Oracle {
    /// The samples the guard inspects.
    pub samples: [u64; 9],
    /// Scratch addresses for a dry run.
    pub scratch: Scratch,
}

/// A callable that can be run with arguments taken from scratch storage, so
/// that neither its arguments nor its result are known where it is called.
pub trait AnyFn<Args> {
    /// Runs the callable once: reads each argument from its scratch address,
    /// calls, and writes the result to the result address.
    fn dry_run(&self, scratch: &Scratch);
}

/// A fresh random word from `rand::thread_rng().gen()`. Nothing is claimed of
/// its value.
#[verifier::external_body]
fn random_word() -> (word: u64) {
    rand::thread_rng().gen()
}

/// The guard's verdict on nine samples: all of them equal the witness.
pub open spec fn spec_verdict(samples: Seq<u64>) -> bool {
    forall|k: int| 0 <= k < samples.len() ==> samples[k] == WITNESS
}

impl Oracle {
    /// Draws nine samples and thirteen scratch addresses at random.
    pub fn seed() -> (oracle: Oracle) {
        let a: u64 = random_word();
        let b: u64 = random_word();
        let c: u64 = random_word();
        let d: u64 = random_word();
        let e: u64 = random_word();
        let f: u64 = random_word();
        let g: u64 = random_word();
        let h: u64 = random_word();
        let i: u64 = random_word();
        let arguments = [
            random_word(),
            random_word(),
            random_word(),
            random_word(),
            random_word(),
            random_word(),
            random_word(),
            random_word(),
            random_word(),
            random_word(),
            random_word(),
            random_word(),
        ];
        let result: u64 = random_word();
        Oracle { samples: [a, b, c, d, e, f, g, h, i], scratch: Scratch { arguments, result } }
    }
}

/// The guard: true exactly when each sample equals its neighbour and the last
/// one equals the witness, which is to say when all nine equal the witness.
pub fn always_false_but_compiler_doesnt_know_that(oracle: &Oracle) -> (open: bool)
    ensures
        open == spec_verdict(oracle.samples@),
{
    let s = &oracle.samples;
    s[0] == s[1] && s[1] == s[2] && s[2] == s[3] && s[3] == s[4] && s[4] == s[5] && s[5] == s[6]
        && s[6] == s[7] && s[7] == s[8] && s[8] == WITNESS
}

/// The number both samples of the two-sample guard must equal.
pub const SMALL_WITNESS: u64 = 100000000;

/// The verdict of the two-sample guard: both samples equal its witness.
pub fn two_sample_verdict(a: u64, b: u64) -> (open: bool)
    ensures
        open == (a == SMALL_WITNESS && b == SMALL_WITNESS),
{
    a == b && b == SMALL_WITNESS
}

/// A guard on two fresh random words. It is open only if both equal one
/// fixed number, so in practice it is closed.
pub fn always_false_but_included_in_binary() -> (open: bool) {
    let a: u64 = random_word();
    let b: u64 = random_word();
    two_sample_verdict(a, b)
}

/// Puts a call to `f` behind the guard. Returns whether the call was made,
/// which is exactly when the guard was open.
pub fn link<Args, F: AnyFn<Args>>(oracle: &Oracle, f: F) -> (ran: bool)
    ensures
        ran == spec_verdict(oracle.samples@),
{
    if always_false_but_compiler_doesnt_know_that(oracle) {
        f.dry_run(&oracle.scratch);
        true
    } else {
        false
    }
}

} // verus!
