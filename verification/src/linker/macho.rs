//! Section naming for Mach-O targets.
//!
//! A Mach-O section name holds at most sixteen bytes, so the registry name is
//! not embedded in it; its eight-letter symbol hash is. A four-letter prefix
//! tells the content region from the duplicate-check region, which leaves
//! four bytes for the sort key of a contribution. Boundary symbols use the
//! linker's reserved `section$start$`/`section$end$` forms, introduced by a
//! `\x01` byte that suppresses symbol mangling.

use crate::hash::hash;
use crate::hash::spec_hash;
use crate::hash::symbol_text;
use crate::linker::sort_key;
use crate::linker::spec_sort_key;
use vstd::prelude::*;

verus! {

/// Longest name a Mach-O section may bear, in bytes.
pub const SECTION_NAME_LIMIT: usize = 16;

/// What the name of every content section begins with.
pub open spec fn content_prefix() -> Seq<char> {
    "__gl"@
}

/// What the name of every duplicate-check section begins with.
pub open spec fn dupcheck_prefix() -> Seq<char> {
    "__g2"@
}

/// The sort key that an ordinal contributes to a section name: none where no
/// ordinal is given.
pub open spec fn spec_key(pos: Option<usize>) -> Seq<char> {
    match pos {
        Some(pos) => spec_sort_key(pos as nat),
        None => Seq::empty(),
    }
}

/// The name of a section: a prefix, the symbol hash of the registry's name,
/// and a sort key.
pub open spec fn spec_name(prefix: Seq<char>, ident: Seq<char>, key: Seq<char>) -> Seq<char> {
    prefix + symbol_text(spec_hash(ident)) + key
}

/// The specifier under which a section of the given name is requested: the
/// name between the segment and the section's attributes.
pub open spec fn spec_specifier(name: Seq<char>) -> Seq<char> {
    "__DATA,"@ + name + ",regular,no_dead_strip"@
}

/// Specifier of the content region of registry `ident`.
pub open spec fn spec_section(ident: Seq<char>) -> Seq<char> {
    spec_specifier(spec_name(content_prefix(), ident, Seq::empty()))
}

/// Symbol marking the first byte of the content region.
pub open spec fn spec_section_start(ident: Seq<char>) -> Seq<char> {
    "\x01section$start$__DATA$"@ + spec_name(content_prefix(), ident, Seq::empty())
}

/// Symbol marking the first byte after the content region.
pub open spec fn spec_section_stop(ident: Seq<char>) -> Seq<char> {
    "\x01section$end$__DATA$"@ + spec_name(content_prefix(), ident, Seq::empty())
}

/// Specifier of the duplicate-check region of registry `ident`.
pub open spec fn spec_dupcheck_section(ident: Seq<char>) -> Seq<char> {
    spec_specifier(spec_name(dupcheck_prefix(), ident, Seq::empty()))
}

/// Symbol marking the first byte of the duplicate-check region.
pub open spec fn spec_dupcheck_start(ident: Seq<char>) -> Seq<char> {
    "\x01section$start$__DATA$"@ + spec_name(dupcheck_prefix(), ident, Seq::empty())
}

/// Symbol marking the first byte after the duplicate-check region.
pub open spec fn spec_dupcheck_stop(ident: Seq<char>) -> Seq<char> {
    "\x01section$end$__DATA$"@ + spec_name(dupcheck_prefix(), ident, Seq::empty())
}

/// Specifier of the section a contribution is placed in: that of the content
/// region, with the sort key at the end of the section's name.
pub open spec fn spec_ordered_section(ident: Seq<char>, pos: Option<usize>) -> Seq<char> {
    spec_specifier(spec_name(content_prefix(), ident, spec_key(pos)))
}

/// The specifier of a content section up to where the sort key goes.
pub open spec fn spec_section_head(ident: Seq<char>) -> Seq<char> {
    "__DATA,"@ + content_prefix() + symbol_text(spec_hash(ident))
}

/// The specifier of a content section from where the sort key ends.
pub open spec fn spec_section_tail() -> Seq<char> {
    ",regular,no_dead_strip"@
}

/// The specifier of a section named by `prefix`, the symbol hash of `ident`
/// and `key`.
fn specifier(prefix: &str, ident: &str, key: &str) -> (name: String)
    ensures
        name@ == spec_specifier(spec_name(prefix@, ident@, key@)),
{
    let symbol = hash(ident).to_string();
    let name = String::from_str("__DATA,").concat(prefix).concat(symbol.as_str()).concat(
        key,
    ).concat(",regular,no_dead_strip");
    assert(name@ =~= spec_specifier(spec_name(prefix@, ident@, key@)));
    name
}

/// The boundary symbol that `lead` introduces for the section named by
/// `prefix` and the symbol hash of `ident`.
fn boundary(lead: &str, prefix: &str, ident: &str) -> (name: String)
    ensures
        name@ == lead@ + spec_name(prefix@, ident@, Seq::empty()),
{
    let symbol = hash(ident).to_string();
    let name = String::from_str(lead).concat(prefix).concat(symbol.as_str());
    assert(name@ =~= lead@ + spec_name(prefix@, ident@, Seq::empty()));
    name
}

/// Specifier of the content region of registry `ident`.
pub fn section(ident: &str) -> (name: String)
    ensures
        name@ == spec_section(ident@),
{
    proof {
        reveal_strlit("");
        assert(""@ =~= Seq::<char>::empty());
    }
    specifier("__gl", ident, "")
}

/// Symbol marking the first byte of the content region.
pub fn section_start(ident: &str) -> (name: String)
    ensures
        name@ == spec_section_start(ident@),
{
    boundary("\x01section$start$__DATA$", "__gl", ident)
}

/// Symbol marking the first byte after the content region.
pub fn section_stop(ident: &str) -> (name: String)
    ensures
        name@ == spec_section_stop(ident@),
{
    boundary("\x01section$end$__DATA$", "__gl", ident)
}

/// Specifier of the duplicate-check region of registry `ident`.
pub fn dupcheck_section(ident: &str) -> (name: String)
    ensures
        name@ == spec_dupcheck_section(ident@),
{
    proof {
        reveal_strlit("");
        assert(""@ =~= Seq::<char>::empty());
    }
    specifier("__g2", ident, "")
}

/// Symbol marking the first byte of the duplicate-check region.
pub fn dupcheck_start(ident: &str) -> (name: String)
    ensures
        name@ == spec_dupcheck_start(ident@),
{
    boundary("\x01section$start$__DATA$", "__g2", ident)
}

/// Symbol marking the first byte after the duplicate-check region.
pub fn dupcheck_stop(ident: &str) -> (name: String)
    ensures
        name@ == spec_dupcheck_stop(ident@),
{
    boundary("\x01section$end$__DATA$", "__g2", ident)
}

/// Specifier of the section a contribution to registry `ident` is placed in.
/// The sort key goes into the section's name, before the attributes.
pub fn ordered_section(ident: &str, pos: Option<usize>) -> (name: String)
    ensures
        name@ == spec_ordered_section(ident@, pos),
{
    match pos {
        Some(pos) => specifier("__gl", ident, sort_key(pos).as_str()),
        None => {
            proof {
                reveal_strlit("");
                assert(""@ =~= Seq::<char>::empty());
            }
            specifier("__gl", ident, "")
        },
    }
}

/// The specifier of the content section of registry `ident` up to where a
/// sort key goes.
pub fn section_head(ident: &str) -> (head: String)
    ensures
        head@ == spec_section_head(ident@),
{
    let symbol = hash(ident).to_string();
    String::from_str("__DATA,").concat("__gl").concat(symbol.as_str())
}

/// The specifier of a content section from where the sort key ends: the
/// section's attributes.
pub fn section_tail() -> (tail: String)
    ensures
        tail@ == spec_section_tail(),
{
    String::from_str(",regular,no_dead_strip")
}

} // verus!
