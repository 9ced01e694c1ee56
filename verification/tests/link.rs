use generic_linkme::link::always_false_but_compiler_doesnt_know_that;
use generic_linkme::link::always_false_but_included_in_binary;
use generic_linkme::link::link;
use generic_linkme::link::two_sample_verdict;
use generic_linkme::link::AnyFn;
use generic_linkme::link::Oracle;
use generic_linkme::link::Scratch;
use generic_linkme::link::MAX_ARITY;
use generic_linkme::link::SMALL_WITNESS;
use generic_linkme::link::WITNESS;
use std::cell::Cell;
use std::rc::Rc;

struct Probe {
    runs: Rc<Cell<u32>>,
    seen: Rc<Cell<u64>>,
}

impl AnyFn<()> for Probe {
    fn dry_run(&self, scratch: &Scratch) {
        self.runs.set(self.runs.get() + 1);
        self.seen.set(scratch.result);
    }
}

fn oracle(samples: [u64; 9]) -> Oracle {
    Oracle { samples, scratch: Scratch { arguments: [0; 12], result: 77 } }
}

#[test]
fn guard_opens_only_for_nine_witnesses() {
    assert_eq!(WITNESS, 42);
    assert!(always_false_but_compiler_doesnt_know_that(&oracle([42; 9])));
    for i in 0..9 {
        let mut samples = [42u64; 9];
        samples[i] = 41;
        assert!(!always_false_but_compiler_doesnt_know_that(&oracle(samples)));
    }
    assert!(!always_false_but_compiler_doesnt_know_that(&oracle([7; 9])));
    assert!(!always_false_but_compiler_doesnt_know_that(&oracle([0; 9])));
}

#[test]
fn seeded_guard_is_closed() {
    for _ in 0..100 {
        let oracle = Oracle::seed();
        assert!(!always_false_but_compiler_doesnt_know_that(&oracle));
    }
}

#[test]
fn seed_draws_fresh_words() {
    let first = Oracle::seed();
    let second = Oracle::seed();
    assert_ne!(first.samples, second.samples);
    assert_ne!(first.scratch.arguments, second.scratch.arguments);
    assert_eq!(first.scratch.arguments.len(), MAX_ARITY);
}

#[test]
fn link_runs_the_callable_only_behind_an_open_guard() {
    let runs = Rc::new(Cell::new(0));
    let seen = Rc::new(Cell::new(0));
    let closed = oracle([42, 42, 42, 42, 42, 42, 42, 42, 43]);
    assert!(!link(&closed, Probe { runs: runs.clone(), seen: seen.clone() }));
    assert_eq!(runs.get(), 0);
    let open = oracle([42; 9]);
    assert!(link(&open, Probe { runs: runs.clone(), seen: seen.clone() }));
    assert_eq!(runs.get(), 1);
    assert_eq!(seen.get(), 77);
}

#[test]
fn link_with_a_seeded_oracle_does_nothing() {
    let runs = Rc::new(Cell::new(0));
    let seen = Rc::new(Cell::new(0));
    let oracle = Oracle::seed();
    assert!(!link(&oracle, Probe { runs: runs.clone(), seen }));
    assert_eq!(runs.get(), 0);
}

#[test]
fn two_sample_guard() {
    assert_eq!(SMALL_WITNESS, 100000000);
    assert!(two_sample_verdict(100000000, 100000000));
    assert!(!two_sample_verdict(100000000, 100000001));
    assert!(!two_sample_verdict(5, 5));
    assert!(!two_sample_verdict(0, 100000000));
    assert!(!always_false_but_included_in_binary());
}
