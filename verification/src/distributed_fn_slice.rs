//! The materialized registry: a region of the linked image, read back as an
//! ordered list of function addresses.

use crate::disasm::extract_function_pointers;
use crate::disasm::joined;
use crate::disasm::lemma_one_entry_per_contribution;
use crate::disasm::spec_scan;
use crate::disasm::x86_decode;
use crate::disasm::Instruction;
use crate::disasm::ScanError;
use crate::linker::proofs::lemma_placement_sorts_by_ordinal;
use crate::linker::Platform;
use crate::text::lex_less;
use once_cell::sync::OnceCell;
use vstd::prelude::*;
use vstd::slice::slice_to_vec;

verus! {

/// Size in bytes of the word that every declaration of a registry emits into
/// the duplicate-check region.
pub const DUPCHECK_WORD: u64 = 8;

/// `once_cell::sync::OnceCell`, carried as an opaque value.
#[verifier::external_type_specification]
#[verifier::external_body]
#[verifier::reject_recursive_types(T)]
pub struct ExOnceCell<T>(once_cell::sync::OnceCell<T>);

/// A registry as it was recovered from one region, together with the region
/// it was recovered from.
///
/// A value of this type is its own evidence: the targets it holds are those
/// of the code and load address it holds.
#[derive(Debug)]
pub struct Published {
    origin: u64,
    code: Vec<u8>,
    targets: Vec<u64>,
}

/// A registry of function pointers that is assembled by the linker and
/// recovered from the image on first access.
#[derive(Debug)]
pub struct DistributedFnSlice {
    name: String,
    section_start: u64,
    section_stop: u64,
    dupcheck_start: u64,
    dupcheck_stop: u64,
    slice: OnceCell<Published>,
}

/// The mathematical value of a [`DistributedFnSlice`]: its name and the four
/// boundary addresses. The cache is no part of it.
pub struct DistributedFnSliceView {
    pub name: Seq<char>,
    pub section_start: u64,
    pub section_stop: u64,
    pub dupcheck_start: u64,
    pub dupcheck_stop: u64,
}

/// `OnceCell::clone`: a cell of its own. Nothing is claimed of what the copy
/// holds.
pub assume_specification<T: Clone>[ <OnceCell<T> as Clone>::clone ](
    cell: &OnceCell<T>,
) -> (copy: OnceCell<T>)
;

/// `OnceCell::new`: a cell, of which nothing is claimed.
#[verifier::external_body]
fn cell_new() -> (cell: OnceCell<Published>) {
    OnceCell::new()
}

/// `OnceCell::get`: what the cell holds at the moment of the call, if
/// anything. Other threads may fill the cell at any time, so nothing is
/// claimed of the outcome beyond its type: what comes out is a registry that
/// was put in through [`cell_set`].
#[verifier::external_body]
fn cell_get(cell: &OnceCell<Published>) -> (found: Option<&Published>) {
    cell.get()
}

/// `OnceCell::set`: offers `value` to the cell. A cell that was full hands
/// the value back unchanged.
#[verifier::external_body]
fn cell_set(cell: &OnceCell<Published>, value: Published) -> (outcome: Result<(), Published>)
    ensures
        outcome matches Err(rejected) ==> rejected == value,
{
    cell.set(value)
}

/// Whether two byte strings are equal.
fn same_bytes(a: &[u8], b: &Vec<u8>) -> (same: bool)
    ensures
        same == (a@ == b@),
{
    if a.len() != b.len() {
        return false;
    }
    let mut i: usize = 0;
    while i < a.len()
        invariant
            i <= a.len(),
            a.len() == b.len(),
            forall|k: int| 0 <= k < i ==> a@[k] == b@[k],
        decreases a.len() - i,
    {
        if a[i] != b[i] {
            return false;
        }
        i = i + 1;
    }
    assert(a@ =~= b@);
    true
}

impl Published {
    #[verifier::type_invariant]
    spec fn recovered(self) -> bool {
        spec_scan(x86_decode(self.code@, self.origin)) == Some(self.targets@)
    }

    /// Address at which the region is loaded.
    pub closed spec fn origin(self) -> u64 {
        self.origin
    }

    /// Content of the region.
    pub closed spec fn code(self) -> Seq<u8> {
        self.code@
    }

    /// The registry recovered from the region.
    pub closed spec fn targets(self) -> Seq<u64> {
        self.targets@
    }

    /// Scans `code`, the content of a region loaded at `addr`, and keeps the
    /// outcome together with the region.
    pub fn scan(code: &[u8], addr: u64) -> (result: Result<Published, ScanError>)
        ensures
            match result {
                Ok(published) => {
                    &&& published.origin() == addr
                    &&& published.code() == code@
                    &&& spec_scan(x86_decode(code@, addr)) == Some(published.targets())
                },
                Err(ScanError::Detail) => spec_scan(x86_decode(code@, addr)) is None,
                Err(_) => true,
            },
    {
        match extract_function_pointers(code, addr) {
            Ok(targets) => Ok(Published { origin: addr, code: slice_to_vec(code), targets }),
            Err(error) => Err(error),
        }
    }

    /// Whether this registry was recovered from `code` loaded at `addr`.
    pub fn is_for(&self, code: &[u8], addr: u64) -> (matches: bool)
        ensures
            matches == (self.origin() == addr && self.code() == code@),
            matches ==> spec_scan(x86_decode(code@, addr)) == Some(self.targets()),
    {
        proof {
            use_type_invariant(self);
        }
        self.origin == addr && same_bytes(code, &self.code)
    }

    /// A copy of the recovered registry, in region order.
    pub fn to_vec(&self) -> (targets: Vec<u64>)
        ensures
            targets@ == self.targets(),
            spec_scan(x86_decode(self.code(), self.origin())) == Some(targets@),
    {
        proof {
            use_type_invariant(self);
        }
        self.targets.clone()
    }
}

impl Clone for Published {
    fn clone(&self) -> (copy: Published)
        ensures
            copy.origin() == self.origin(),
            copy.code() == self.code(),
            copy.targets() == self.targets(),
    {
        proof {
            use_type_invariant(self);
        }
        Published { origin: self.origin, code: self.code.clone(), targets: self.targets.clone() }
    }
}

impl Clone for DistributedFnSlice {
    /// A handle to the same registry: same name, same boundaries. The copy
    /// has a cache of its own.
    fn clone(&self) -> (copy: DistributedFnSlice)
        ensures
            copy@ == self@,
    {
        DistributedFnSlice {
            name: self.name.clone(),
            section_start: self.section_start,
            section_stop: self.section_stop,
            dupcheck_start: self.dupcheck_start,
            dupcheck_stop: self.dupcheck_stop,
            slice: self.slice.clone(),
        }
    }
}

impl View for DistributedFnSlice {
    type V = DistributedFnSliceView;

    closed spec fn view(&self) -> DistributedFnSliceView {
        DistributedFnSliceView {
            name: self.name@,
            section_start: self.section_start,
            section_stop: self.section_stop,
            dupcheck_start: self.dupcheck_start,
            dupcheck_stop: self.dupcheck_stop,
        }
    }
}

impl DistributedFnSliceView {
    /// Number of bytes between the boundaries of the content region.
    pub open spec fn code_len(self) -> int {
        self.section_stop - self.section_start
    }

    /// Number of bytes between the boundaries of the duplicate-check region.
    pub open spec fn dupcheck_len(self) -> int {
        self.dupcheck_stop - self.dupcheck_start
    }

    /// The registry was declared exactly once in the linked image: its
    /// duplicate-check region holds exactly one word.
    pub open spec fn single_declaration(self) -> bool {
        self.dupcheck_len() == DUPCHECK_WORD
    }

    /// `code` can be the content of the content region.
    pub open spec fn holds(self, code: Seq<u8>) -> bool {
        code.len() == self.code_len()
    }

    /// The registry that the region holding `code` materializes to.
    pub open spec fn materialized(self, code: Seq<u8>) -> Option<Seq<u64>> {
        spec_scan(x86_decode(code, self.section_start))
    }
}

impl DistributedFnSlice {
    /// A registry named `name` whose content lies between the addresses
    /// `section_start` and `section_stop`, and whose duplicate-check words lie
    /// between `dupcheck_start` and `dupcheck_stop`.
    pub fn private_new(
        name: &str,
        section_start: u64,
        section_stop: u64,
        dupcheck_start: u64,
        dupcheck_stop: u64,
    ) -> (registry: DistributedFnSlice)
        ensures
            registry@ == (DistributedFnSliceView {
                name: name@,
                section_start,
                section_stop,
                dupcheck_start,
                dupcheck_stop,
            }),
    {
        DistributedFnSlice {
            name: String::from_str(name),
            section_start,
            section_stop,
            dupcheck_start,
            dupcheck_stop,
            slice: cell_new(),
        }
    }

    /// Accepts any value of the registry's element type and does nothing with
    /// it. A contribution names this function so that the compiler compares
    /// its own type with the element type.
    pub fn private_typecheck(&self, element: u64) {
    }

    /// The registry's name.
    pub fn name(&self) -> (name: &str)
        ensures
            name@ == self@.name,
    {
        self.name.as_str()
    }

    /// Address of the first byte of the content region.
    pub fn section_start(&self) -> (addr: u64)
        ensures
            addr == self@.section_start,
    {
        self.section_start
    }

    /// Number of bytes in the content region; `None` where the boundaries
    /// are out of order.
    pub fn code_len(&self) -> (len: Option<u64>)
        ensures
            match len {
                Some(len) => len == self@.code_len(),
                None => self@.code_len() < 0,
            },
    {
        if self.section_start <= self.section_stop {
            Some(self.section_stop - self.section_start)
        } else {
            None
        }
    }

    /// Whether the duplicate-check region holds exactly one word, as it does
    /// when the registry was declared once.
    pub fn has_single_declaration(&self) -> (single: bool)
        ensures
            single == self@.single_declaration(),
    {
        self.dupcheck_start <= self.dupcheck_stop && self.dupcheck_stop - self.dupcheck_start
            == DUPCHECK_WORD
    }

    /// The diagnostic for a registry that was declared more than once.
    pub fn duplicate_message(&self) -> (text: String)
        ensures
            text@ == "duplicate #[distributed_slice] with name \""@ + self@.name + "\""@,
    {
        String::from_str("duplicate #[distributed_slice] with name \"").concat(
            self.name.as_str(),
        ).concat("\"")
    }

    /// The registry's entries, in region order.
    ///
    /// `code` is the content of the content region. The first access scans it
    /// and publishes the outcome; later accesses, from any thread, find the
    /// published registry. Whichever way the entries were come by, they are
    /// those that `code` at the region's start address materializes to.
    ///
    /// A registry that was declared more than once must not be materialized:
    /// its boundaries are meaningless.
    pub fn static_slice(&self, code: &[u8]) -> (result: Result<Vec<u64>, ScanError>)
        requires
            self@.single_declaration(),
            self@.holds(code@),
        ensures
            match result {
                Ok(entries) => self@.materialized(code@) == Some(entries@),
                Err(ScanError::Detail) => self@.materialized(code@) is None,
                Err(_) => true,
            },
    {
        match cell_get(&self.slice) {
            Some(found) => {
                if found.is_for(code, self.section_start) {
                    return Ok(found.to_vec());
                }
            },
            None => {},
        }
        let fresh = Published::scan(code, self.section_start)?;
        let entries = fresh.to_vec();
        match cell_set(&self.slice, fresh) {
            Ok(()) => Ok(entries),
            Err(_) => {
                // Another access published first; this copy is dropped.
                match cell_get(&self.slice) {
                    Some(found) => {
                        if found.is_for(code, self.section_start) {
                            Ok(found.to_vec())
                        } else {
                            Ok(entries)
                        }
                    },
                    None => Ok(entries),
                }
            },
        }
    }
}

/// Every access observes the same registry: entries that two accesses to one
/// region came by, at any time and from any thread, are equal. The entries
/// are a function of the region, so they never change once they were seen.
pub proof fn lemma_accesses_agree(
    registry: DistributedFnSliceView,
    code: Seq<u8>,
    first: Seq<u64>,
    second: Seq<u64>,
)
    requires
        registry.materialized(code) == Some(first),
        registry.materialized(code) == Some(second),
    ensures
        first == second,
{
}

/// Round trip: where the region's code decodes contribution by contribution,
/// and the code of each of `k` contributions scans to exactly one entry, the
/// registry materializes to exactly these `k` entries, in the order in which
/// the contributions lie in the region.
pub proof fn lemma_round_trip(
    registry: DistributedFnSliceView,
    code: Seq<u8>,
    streams: Seq<Seq<Instruction>>,
    entries: Seq<u64>,
)
    requires
        x86_decode(code, registry.section_start) == joined(streams),
        streams.len() == entries.len(),
        forall|i: int|
            0 <= i < streams.len() ==> spec_scan(#[trigger] streams[i]) == Some(seq![entries[i]]),
    ensures
        registry.materialized(code) == Some(entries),
{
    lemma_one_entry_per_contribution(streams, entries);
}

/// Sections lie in the order of their names: none is followed by one of a
/// lexically smaller name. This is how a linker that sorts input sections by
/// name lays them out.
pub open spec fn laid_out_by_name(sections: Seq<Seq<char>>) -> bool {
    forall|a: int, b: int|
        0 <= a < b < sections.len() ==> !lex_less(#[trigger] sections[b], #[trigger] sections[a])
}

/// Ordering: let the contributions to a registry carry ordinals below ten
/// thousand, let the linker lay their sections out by name, and let the
/// region's code decode contribution by contribution, each to one entry.
/// Then a contribution with a smaller ordinal lies before one with a greater
/// ordinal, and its entry comes before the other's in the materialized
/// registry, whatever the order of compilation.
pub proof fn lemma_lower_ordinal_comes_first(
    platform: Platform,
    ident: Seq<char>,
    ordinals: Seq<usize>,
    registry: DistributedFnSliceView,
    code: Seq<u8>,
    streams: Seq<Seq<Instruction>>,
    entries: Seq<u64>,
    lower: int,
    higher: int,
)
    requires
        ordinals.len() == streams.len(),
        streams.len() == entries.len(),
        forall|k: int| 0 <= k < ordinals.len() ==> #[trigger] ordinals[k] < 10000,
        laid_out_by_name(
            Seq::new(
                ordinals.len(),
                |k: int| platform.spec_ordered_section(ident, Some(ordinals[k])),
            ),
        ),
        x86_decode(code, registry.section_start) == joined(streams),
        forall|i: int|
            0 <= i < streams.len() ==> spec_scan(#[trigger] streams[i]) == Some(seq![entries[i]]),
        0 <= lower < ordinals.len(),
        0 <= higher < ordinals.len(),
        ordinals[lower] < ordinals[higher],
    ensures
        lower < higher,
        registry.materialized(code) == Some(entries),
{
    lemma_round_trip(registry, code, streams, entries);
    let sections = Seq::new(
        ordinals.len(),
        |k: int| platform.spec_ordered_section(ident, Some(ordinals[k])),
    );
    assert(ordinals[lower] < 10000 && ordinals[higher] < 10000);
    lemma_placement_sorts_by_ordinal(platform, ident, ordinals[lower], ordinals[higher]);
    assert(lex_less(sections[lower], sections[higher]));
    if higher < lower {
        assert(!lex_less(sections[lower], sections[higher]));
    }
}

/// Duplicate detection: a duplicate-check region that holds `words` words
/// passes the check exactly when `words` is one. Two declarations under one
/// name leave two words, so their registry is never materialized.
pub proof fn lemma_duplicates_are_detected(registry: DistributedFnSliceView, words: nat)
    requires
        registry.dupcheck_len() == words * DUPCHECK_WORD,
    ensures
        registry.single_declaration() <==> words == 1,
{
}

} // verus!
