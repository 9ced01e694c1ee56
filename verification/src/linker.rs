//! The section locator: which section and boundary-symbol names a registry
//! uses on each supported family of targets.

pub mod freebsd;
pub mod illumos;
pub mod linux;
pub mod macho;
pub mod proofs;
pub mod windows;

use crate::text::replace_first;
use crate::text::replace_first_in;
use crate::text::text_eq;
use crate::text::views;
use vstd::prelude::*;

verus! {

/// A family of targets that share one naming scheme.
#[derive(Clone, Copy, Debug, PartialEq, Eq, Structural)]
pub enum Platform {
    /// ELF targets: Linux and bare metal.
    Linux,
    /// Mach-O targets: macOS, iOS, tvOS.
    MachO,
    /// PE/COFF targets.
    Windows,
    /// illumos.
    Illumos,
    /// FreeBSD.
    FreeBsd,
}

/// The build was asked for a target that no naming scheme covers.
#[derive(Clone, Copy, Debug, PartialEq, Eq, Structural)]
pub struct UnsupportedPlatform;

/// The names under which the linker knows one region.
#[derive(Clone, Debug, PartialEq, Eq)]
pub struct RegionNames {
    /// Section the region's content is placed in.
    pub section: String,
    /// Start boundary: a symbol, or on PE/COFF the section of the start
    /// sentinel.
    pub start: String,
    /// Stop boundary: a symbol, or on PE/COFF the section of the stop
    /// sentinel.
    pub stop: String,
}

/// The mathematical value of a [`RegionNames`].
pub struct RegionNamesView {
    pub section: Seq<char>,
    pub start: Seq<char>,
    pub stop: Seq<char>,
}

impl View for RegionNames {
    type V = RegionNamesView;

    open spec fn view(&self) -> RegionNamesView {
        RegionNamesView { section: self.section@, start: self.start@, stop: self.stop@ }
    }
}

/// The family that an operating-system name of the build target belongs to.
pub open spec fn spec_resolve(target_os: Seq<char>) -> Option<Platform> {
    if target_os == "none"@ || target_os == "linux"@ {
        Some(Platform::Linux)
    } else if target_os == "macos"@ || target_os == "ios"@ || target_os == "tvos"@ {
        Some(Platform::MachO)
    } else if target_os == "windows"@ {
        Some(Platform::Windows)
    } else if target_os == "illumos"@ {
        Some(Platform::Illumos)
    } else if target_os == "freebsd"@ {
        Some(Platform::FreeBsd)
    } else {
        None
    }
}

/// The tag that a content-region name carries wherever the registry's name is
/// embedded in it, which is everywhere but on Mach-O.
pub open spec fn content_tag() -> Seq<char> {
    "generic_linkme"@
}

/// The tag that takes the place of [`content_tag`] in the names of the
/// duplicate-check region.
pub open spec fn dupcheck_tag() -> Seq<char> {
    "generic_linkm2"@
}

/// The duplicate-check counterpart of a content-region name that carries the
/// content tag.
pub open spec fn spec_dupcheck(name: Seq<char>) -> Seq<char> {
    replace_first(name, content_tag(), dupcheck_tag())
}

/// The character that stands for decimal digit `d`.
pub open spec fn digit_char(d: int) -> char {
    "0123456789"@[d]
}

/// Decimal notation of `n`, without leading zeros.
pub open spec fn decimal(n: nat) -> Seq<char>
    decreases n,
{
    if n < 10 {
        seq![digit_char(n as int)]
    } else {
        decimal(n / 10).push(digit_char((n % 10) as int))
    }
}

/// Width to which a sort key is padded.
pub const SORT_KEY_WIDTH: usize = 4;

/// The sort key of ordinal `pos`: its decimal notation, padded on the left
/// with zeros to four characters.
pub open spec fn spec_sort_key(pos: nat) -> Seq<char> {
    let digits = decimal(pos);
    if digits.len() >= 4 {
        digits
    } else {
        Seq::new((4 - digits.len()) as nat, |i: int| '0') + digits
    }
}

/// A section name followed by the sort key of an ordinal, where one is given.
/// This is the section a contribution is placed in wherever the name is all
/// that a section is requested by, which is everywhere but on Mach-O.
pub open spec fn spec_ordered_section(section: Seq<char>, pos: Option<usize>) -> Seq<char> {
    match pos {
        Some(pos) => section + spec_sort_key(pos as nat),
        None => section,
    }
}

impl Platform {
    /// Name of the content region of registry `ident`.
    pub open spec fn spec_section(self, ident: Seq<char>) -> Seq<char> {
        match self {
            Platform::Linux => linux::spec_section(ident),
            Platform::MachO => macho::spec_section(ident),
            Platform::Windows => windows::spec_section(ident),
            Platform::Illumos => illumos::spec_section(ident),
            Platform::FreeBsd => freebsd::spec_section(ident),
        }
    }

    /// Start boundary of the content region of registry `ident`.
    pub open spec fn spec_section_start(self, ident: Seq<char>) -> Seq<char> {
        match self {
            Platform::Linux => linux::spec_section_start(ident),
            Platform::MachO => macho::spec_section_start(ident),
            Platform::Windows => windows::spec_section_start(ident),
            Platform::Illumos => illumos::spec_section_start(ident),
            Platform::FreeBsd => freebsd::spec_section_start(ident),
        }
    }

    /// Stop boundary of the content region of registry `ident`.
    pub open spec fn spec_section_stop(self, ident: Seq<char>) -> Seq<char> {
        match self {
            Platform::Linux => linux::spec_section_stop(ident),
            Platform::MachO => macho::spec_section_stop(ident),
            Platform::Windows => windows::spec_section_stop(ident),
            Platform::Illumos => illumos::spec_section_stop(ident),
            Platform::FreeBsd => freebsd::spec_section_stop(ident),
        }
    }

    /// The three names of the content region of registry `ident`.
    pub open spec fn spec_content(self, ident: Seq<char>) -> RegionNamesView {
        RegionNamesView {
            section: self.spec_section(ident),
            start: self.spec_section_start(ident),
            stop: self.spec_section_stop(ident),
        }
    }

    /// The three names of the duplicate-check region of registry `ident`.
    /// On Mach-O the region has a prefix of its own; elsewhere its names are
    /// those of the content region with the tag exchanged.
    pub open spec fn spec_dupcheck(self, ident: Seq<char>) -> RegionNamesView {
        match self {
            Platform::MachO => RegionNamesView {
                section: macho::spec_dupcheck_section(ident),
                start: macho::spec_dupcheck_start(ident),
                stop: macho::spec_dupcheck_stop(ident),
            },
            _ => RegionNamesView {
                section: spec_dupcheck(self.spec_section(ident)),
                start: spec_dupcheck(self.spec_section_start(ident)),
                stop: spec_dupcheck(self.spec_section_stop(ident)),
            },
        }
    }

    /// The section a contribution to registry `ident` is placed in: the
    /// content section, with the sort key of the ordinal at the end of its
    /// name. On Mach-O the name is followed by the section's attributes;
    /// elsewhere the name is all there is.
    pub open spec fn spec_ordered_section(self, ident: Seq<char>, pos: Option<usize>) -> Seq<
        char,
    > {
        match self {
            Platform::MachO => macho::spec_ordered_section(ident, pos),
            _ => spec_ordered_section(self.spec_section(ident), pos),
        }
    }

    /// The operating-system names of the build targets that belong to the
    /// family.
    pub open spec fn spec_targets(self) -> Seq<Seq<char>> {
        match self {
            Platform::Linux => seq!["none"@, "linux"@],
            Platform::MachO => seq!["macos"@, "ios"@, "tvos"@],
            Platform::Windows => seq!["windows"@],
            Platform::Illumos => seq!["illumos"@],
            Platform::FreeBsd => seq!["freebsd"@],
        }
    }

    /// The operating-system names of the build targets that belong to the
    /// family. These, over all families, are the names that
    /// [`Platform::resolve`] accepts.
    pub fn targets(&self) -> (names: Vec<String>)
        ensures
            views(names@) == self.spec_targets(),
    {
        let mut names: Vec<String> = Vec::new();
        match self {
            Platform::Linux => {
                names.push(String::from_str("none"));
                names.push(String::from_str("linux"));
            },
            Platform::MachO => {
                names.push(String::from_str("macos"));
                names.push(String::from_str("ios"));
                names.push(String::from_str("tvos"));
            },
            Platform::Windows => {
                names.push(String::from_str("windows"));
            },
            Platform::Illumos => {
                names.push(String::from_str("illumos"));
            },
            Platform::FreeBsd => {
                names.push(String::from_str("freebsd"));
            },
        }
        assert(views(names@) =~= self.spec_targets());
        names
    }

    /// Resolves the operating-system name of the build target to its family.
    /// Fails exactly for the names that no family covers.
    pub fn resolve(target_os: &str) -> (platform: Result<Platform, UnsupportedPlatform>)
        ensures
            platform == match spec_resolve(target_os@) {
                Some(p) => Ok::<Platform, UnsupportedPlatform>(p),
                None => Err::<Platform, UnsupportedPlatform>(UnsupportedPlatform),
            },
    {
        if text_eq(target_os, "none") || text_eq(target_os, "linux") {
            Ok(Platform::Linux)
        } else if text_eq(target_os, "macos") || text_eq(target_os, "ios") || text_eq(
            target_os,
            "tvos",
        ) {
            Ok(Platform::MachO)
        } else if text_eq(target_os, "windows") {
            Ok(Platform::Windows)
        } else if text_eq(target_os, "illumos") {
            Ok(Platform::Illumos)
        } else if text_eq(target_os, "freebsd") {
            Ok(Platform::FreeBsd)
        } else {
            Err(UnsupportedPlatform)
        }
    }

    /// Name of the content region of registry `ident`.
    pub fn section(&self, ident: &str) -> (name: String)
        ensures
            name@ == self.spec_section(ident@),
    {
        match self {
            Platform::Linux => linux::section(ident),
            Platform::MachO => macho::section(ident),
            Platform::Windows => windows::section(ident),
            Platform::Illumos => illumos::section(ident),
            Platform::FreeBsd => freebsd::section(ident),
        }
    }

    /// Start boundary of the content region of registry `ident`.
    pub fn section_start(&self, ident: &str) -> (name: String)
        ensures
            name@ == self.spec_section_start(ident@),
    {
        match self {
            Platform::Linux => linux::section_start(ident),
            Platform::MachO => macho::section_start(ident),
            Platform::Windows => windows::section_start(ident),
            Platform::Illumos => illumos::section_start(ident),
            Platform::FreeBsd => freebsd::section_start(ident),
        }
    }

    /// Stop boundary of the content region of registry `ident`.
    pub fn section_stop(&self, ident: &str) -> (name: String)
        ensures
            name@ == self.spec_section_stop(ident@),
    {
        match self {
            Platform::Linux => linux::section_stop(ident),
            Platform::MachO => macho::section_stop(ident),
            Platform::Windows => windows::section_stop(ident),
            Platform::Illumos => illumos::section_stop(ident),
            Platform::FreeBsd => freebsd::section_stop(ident),
        }
    }

    /// The three names of the content region of registry `ident`.
    pub fn content(&self, ident: &str) -> (names: RegionNames)
        ensures
            names@ == self.spec_content(ident@),
    {
        RegionNames {
            section: self.section(ident),
            start: self.section_start(ident),
            stop: self.section_stop(ident),
        }
    }

    /// The three names of the duplicate-check region of registry `ident`.
    pub fn dupcheck(&self, ident: &str) -> (names: RegionNames)
        ensures
            names@ == self.spec_dupcheck(ident@),
    {
        match self {
            Platform::MachO => RegionNames {
                section: macho::dupcheck_section(ident),
                start: macho::dupcheck_start(ident),
                stop: macho::dupcheck_stop(ident),
            },
            _ => RegionNames {
                section: dupcheck(self.section(ident).as_str()),
                start: dupcheck(self.section_start(ident).as_str()),
                stop: dupcheck(self.section_stop(ident).as_str()),
            },
        }
    }

    /// The section a contribution to registry `ident` is placed in. An
    /// ordinal goes into the name of the content section only; boundary names
    /// never carry one.
    pub fn ordered_section(&self, ident: &str, pos: Option<usize>) -> (name: String)
        ensures
            name@ == self.spec_ordered_section(ident@, pos),
    {
        match self {
            Platform::MachO => macho::ordered_section(ident, pos),
            _ => ordered_section(self.section(ident).as_str(), pos),
        }
    }
}

impl UnsupportedPlatform {
    /// The diagnostic that fails the build.
    pub fn message(&self) -> (text: String)
        ensures
            text@ == "distributed_fn_slice is not implemented for this platform"@,
    {
        String::from_str("distributed_fn_slice is not implemented for this platform")
    }
}

/// The duplicate-check counterpart of a content-region name: the leftmost
/// `generic_linkme` in it becomes `generic_linkm2`.
pub fn dupcheck(name: &str) -> (out: String)
    ensures
        out@ == spec_dupcheck(name@),
{
    replace_first_in(name, "generic_linkme", "generic_linkm2")
}

/// The sort key of ordinal `pos`.
pub fn sort_key(pos: usize) -> (key: String)
    ensures
        key@ == spec_sort_key(pos as nat),
{
    let numerals = "0123456789";
    proof {
        reveal_strlit("0123456789");
    }
    assert(numerals@.len() == 10);
    assert(numerals.is_ascii());
    // Digits of `pos`, least significant first.
    let mut low: Vec<usize> = Vec::new();
    let mut rest: usize = pos / 10;
    low.push(pos % 10);
    assert(decimal(pos as nat) == if rest > 0 {
        decimal(rest as nat).push(digit_char(low@[0] as int))
    } else {
        seq![digit_char(low@[0] as int)]
    });
    while rest > 0
        invariant
            low@.len() >= 1,
            forall|k: int| 0 <= k < low@.len() ==> low@[k] < 10,
            decimal(pos as nat) == (if rest > 0 {
                decimal(rest as nat)
            } else {
                Seq::<char>::empty()
            }) + Seq::new(low@.len(), |k: int| digit_char(low@[low@.len() - 1 - k] as int)),
        decreases rest,
    {
        let ghost before = low@;
        let ghost tail = Seq::new(
            before.len(),
            |k: int| digit_char(before[before.len() - 1 - k] as int),
        );
        low.push(rest % 10);
        proof {
            let after = Seq::new(low@.len(), |k: int| digit_char(low@[low@.len() - 1 - k] as int));
            assert(after =~= seq![digit_char((rest % 10) as int)] + tail);
            if rest / 10 > 0 {
                assert(decimal(rest as nat) == decimal((rest / 10) as nat).push(
                    digit_char((rest % 10) as int),
                ));
                assert(decimal(rest as nat) + tail =~= decimal((rest / 10) as nat) + after);
            } else {
                assert(decimal(rest as nat) =~= seq![digit_char((rest % 10) as int)]);
                assert(decimal(rest as nat) + tail =~= Seq::<char>::empty() + after);
            }
        }
        rest = rest / 10;
    }
    let count = low.len();
    let ghost digits = decimal(pos as nat);
    assert(digits =~= Seq::new(count as nat, |k: int| digit_char(low@[count - 1 - k] as int)));
    let mut key = String::new();
    let mut pad: usize = 0;
    while pad + count < SORT_KEY_WIDTH
        invariant
            count == low@.len(),
            pad + count <= SORT_KEY_WIDTH || pad == 0,
            key@ == Seq::new(pad as nat, |i: int| '0'),
        decreases SORT_KEY_WIDTH - pad,
    {
        key.append("0");
        proof {
            reveal_strlit("0");
            assert(key@ =~= Seq::new((pad + 1) as nat, |i: int| '0'));
        }
        pad = pad + 1;
    }
    let ghost padding = key@;
    let mut i: usize = count;
    while i > 0
        invariant
            i <= count,
            count == low@.len(),
            numerals@ == "0123456789"@,
            numerals@.len() == 10,
            numerals.is_ascii(),
            forall|k: int| 0 <= k < low@.len() ==> low@[k] < 10,
            key@ == padding + Seq::new(
                (count - i) as nat,
                |k: int| digit_char(low@[count - 1 - k] as int),
            ),
        decreases i,
    {
        i = i - 1;
        let d: usize = low[i];
        key.append(numerals.substring_ascii(d, d + 1));
        proof {
            assert(numerals@.subrange(d as int, d + 1) =~= seq![digit_char(d as int)]);
            assert(key@ =~= padding + Seq::new(
                (count - i) as nat,
                |k: int| digit_char(low@[count - 1 - k] as int),
            ));
        }
    }
    assert(key@ =~= padding + digits);
    assert(key@ =~= spec_sort_key(pos as nat));
    key
}

/// A section name followed by the sort key of an ordinal, where one is given.
pub fn ordered_section(section: &str, pos: Option<usize>) -> (name: String)
    ensures
        name@ == spec_ordered_section(section@, pos),
{
    match pos {
        Some(pos) => String::from_str(section).concat(sort_key(pos).as_str()),
        None => String::from_str(section),
    }
}

} // verus!
