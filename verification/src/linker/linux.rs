//! Section naming for ELF targets, where the linker synthesizes
//! `__start_`/`__stop_` boundary symbols for a section whose name is a valid
//! identifier.

use vstd::prelude::*;

verus! {

/// Name of the content region of registry `ident`.
pub open spec fn spec_section(ident: Seq<char>) -> Seq<char> {
    "generic_linkme_"@ + ident
}

/// Symbol marking the first byte of the content region.
pub open spec fn spec_section_start(ident: Seq<char>) -> Seq<char> {
    "__start_generic_linkme_"@ + ident
}

/// Symbol marking the first byte after the content region.
pub open spec fn spec_section_stop(ident: Seq<char>) -> Seq<char> {
    "__stop_generic_linkme_"@ + ident
}

/// Name of the content region of registry `ident`.
pub fn section(ident: &str) -> (name: String)
    ensures
        name@ == spec_section(ident@),
{
    String::from_str("generic_linkme_").concat(ident)
}

/// Symbol marking the first byte of the content region.
pub fn section_start(ident: &str) -> (name: String)
    ensures
        name@ == spec_section_start(ident@),
{
    String::from_str("__start_generic_linkme_").concat(ident)
}

/// Symbol marking the first byte after the content region.
pub fn section_stop(ident: &str) -> (name: String)
    ensures
        name@ == spec_section_stop(ident@),
{
    String::from_str("__stop_generic_linkme_").concat(ident)
}

} // verus!
