//! Section naming for PE/COFF targets.
//!
//! The linker synthesizes no boundary symbols. Three sections share one
//! prefix and differ in the letter after `$`; the linker lays them out in
//! alphabetical order of that suffix, so `$a` holds the start sentinel, `$b`
//! the content and `$c` the stop sentinel.

use vstd::prelude::*;

verus! {

/// Name of the content region of registry `ident`.
pub open spec fn spec_section(ident: Seq<char>) -> Seq<char> {
    ".generic_linkme_"@ + ident + "$b"@
}

/// Name of the section holding the start sentinel.
pub open spec fn spec_section_start(ident: Seq<char>) -> Seq<char> {
    ".generic_linkme_"@ + ident + "$a"@
}

/// Name of the section holding the stop sentinel.
pub open spec fn spec_section_stop(ident: Seq<char>) -> Seq<char> {
    ".generic_linkme_"@ + ident + "$c"@
}

/// Name of the content region of registry `ident`.
pub fn section(ident: &str) -> (name: String)
    ensures
        name@ == spec_section(ident@),
{
    String::from_str(".generic_linkme_").concat(ident).concat("$b")
}

/// Name of the section holding the start sentinel.
pub fn section_start(ident: &str) -> (name: String)
    ensures
        name@ == spec_section_start(ident@),
{
    String::from_str(".generic_linkme_").concat(ident).concat("$a")
}

/// Name of the section holding the stop sentinel.
pub fn section_stop(ident: &str) -> (name: String)
    ensures
        name@ == spec_section_stop(ident@),
{
    String::from_str(".generic_linkme_").concat(ident).concat("$c")
}

} // verus!
