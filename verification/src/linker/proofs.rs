//! What holds of the names the section locator derives.

use crate::linker::content_tag;
use crate::linker::decimal;
use crate::linker::digit_char;
use crate::linker::dupcheck_tag;
use crate::linker::spec_dupcheck;
use crate::linker::macho;
use crate::linker::spec_ordered_section;
use crate::linker::spec_resolve;
use crate::linker::spec_sort_key;
use crate::hash::spec_hash;
use crate::hash::is_symbol_char;
use crate::hash::lemma_symbol_text;
use crate::hash::symbol_text;
use crate::linker::Platform;
use crate::linker::RegionNamesView;
use crate::text::first_occurrence;
use crate::text::lemma_replace_first_at;
use crate::text::lex_less;
use crate::text::occurs_at;
use crate::text::splice;
use vstd::prelude::*;

verus! {

/// Naming is a function of the registry name and the platform alone: equal
/// names on one platform yield equal content and duplicate-check names,
/// whichever build or translation unit asks.
pub proof fn lemma_naming_is_deterministic(platform: Platform, first: Seq<char>, second: Seq<char>)
    requires
        first == second,
    ensures
        platform.spec_content(first) == platform.spec_content(second),
        platform.spec_dupcheck(first) == platform.spec_dupcheck(second),
{
}

/// The numeral characters are consecutive code points starting at `'0'`.
pub proof fn lemma_digit_char(d: int)
    requires
        0 <= d < 10,
    ensures
        digit_char(d) as u32 == 48 + d,
{
    reveal_strlit("0123456789");
}

/// Below ten thousand a sort key is exactly the four decimal digits of the
/// ordinal, most significant first.
pub proof fn lemma_sort_key_digits(pos: nat)
    requires
        pos < 10000,
    ensures
        spec_sort_key(pos) == seq![
            digit_char((pos / 1000) as int),
            digit_char((pos / 100 % 10) as int),
            digit_char((pos / 10 % 10) as int),
            digit_char((pos % 10) as int),
        ],
{
    reveal_strlit("0123456789");
    reveal_with_fuel(decimal, 5);
    let key = spec_sort_key(pos);
    let want = seq![
        digit_char((pos / 1000) as int),
        digit_char((pos / 100 % 10) as int),
        digit_char((pos / 10 % 10) as int),
        digit_char((pos % 10) as int),
    ];
    assert(digit_char(0) == '0');
    if pos < 10 {
        assert(decimal(pos).len() == 1);
        assert(key =~= want);
    } else if pos < 100 {
        assert(decimal(pos).len() == 2);
        assert(key =~= want);
    } else if pos < 1000 {
        assert(decimal(pos).len() == 3);
        assert(key =~= want);
    } else {
        assert(decimal(pos).len() == 4);
        assert(key =~= want);
    }
}

/// Four numerals compare lexically as the numbers they spell.
proof fn lemma_numerals_order(a: Seq<int>, b: Seq<int>)
    requires
        a.len() == 4,
        b.len() == 4,
        forall|i: int| 0 <= i < 4 ==> 0 <= #[trigger] a[i] < 10 && 0 <= #[trigger] b[i] < 10,
        a[0] * 1000 + a[1] * 100 + a[2] * 10 + a[3] < b[0] * 1000 + b[1] * 100 + b[2] * 10 + b[3],
    ensures
        lex_less(
            seq![digit_char(a[0]), digit_char(a[1]), digit_char(a[2]), digit_char(a[3])],
            seq![digit_char(b[0]), digit_char(b[1]), digit_char(b[2]), digit_char(b[3])],
        ),
{
    let x = seq![digit_char(a[0]), digit_char(a[1]), digit_char(a[2]), digit_char(a[3])];
    let y = seq![digit_char(b[0]), digit_char(b[1]), digit_char(b[2]), digit_char(b[3])];
    lemma_digit_char(a[0]);
    lemma_digit_char(a[1]);
    lemma_digit_char(a[2]);
    lemma_digit_char(a[3]);
    lemma_digit_char(b[0]);
    lemma_digit_char(b[1]);
    lemma_digit_char(b[2]);
    lemma_digit_char(b[3]);
    let k: int = if a[0] != b[0] {
        0
    } else if a[1] != b[1] {
        1
    } else if a[2] != b[2] {
        2
    } else {
        3
    };
    assert(x.subrange(0, k) =~= y.subrange(0, k));
    assert((x[k] as u32) < (y[k] as u32));
}

/// A number below ten thousand is the sum of its four decimal digits, each
/// weighted by its power of ten.
proof fn lemma_digits_compose(n: nat)
    requires
        n < 10000,
    ensures
        (n / 1000) * 1000 + (n / 100 % 10) * 100 + (n / 10 % 10) * 10 + n % 10 == n,
        0 <= n / 1000 < 10,
{
    let h = n / 100;
    let t = n / 10;
    assert(n == t * 10 + n % 10);
    assert(t / 10 == h) by {
        vstd::arithmetic::div_mod::lemma_div_denominator(n as int, 10, 10);
    }
    assert(t == h * 10 + t % 10);
    assert(h / 10 == n / 1000) by {
        vstd::arithmetic::div_mod::lemma_div_denominator(n as int, 100, 10);
    }
    assert(h == (h / 10) * 10 + h % 10);
}

/// Lexical order of sort keys is numeric order of ordinals: of two ordinals
/// below ten thousand, the smaller has the lexically smaller key.
pub proof fn lemma_sort_key_order(low: nat, high: nat)
    requires
        low < high < 10000,
    ensures
        lex_less(spec_sort_key(low), spec_sort_key(high)),
{
    lemma_sort_key_digits(low);
    lemma_sort_key_digits(high);
    let a = seq![(low / 1000) as int, (low / 100 % 10) as int, (low / 10 % 10) as int, (low % 10) as int];
    let b = seq![
        (high / 1000) as int,
        (high / 100 % 10) as int,
        (high / 10 % 10) as int,
        (high % 10) as int,
    ];
    lemma_digits_compose(low);
    lemma_digits_compose(high);
    lemma_numerals_order(a, b);
}

/// Placement order: the contribution with the smaller ordinal lands in the
/// lexically smaller section, so a linker that orders input sections by name
/// places it first, whatever the order of compilation.
pub proof fn lemma_ordered_sections_sort_by_ordinal(section: Seq<char>, low: usize, high: usize)
    requires
        low < high < 10000,
    ensures
        lex_less(
            spec_ordered_section(section, Some(low)),
            spec_ordered_section(section, Some(high)),
        ),
{
    lemma_sort_key_order(low as nat, high as nat);
    let a = spec_sort_key(low as nat);
    let b = spec_sort_key(high as nat);
    let k = choose|k: int|
        {
            &&& 0 <= k <= a.len()
            &&& k <= b.len()
            &&& #[trigger] a.subrange(0, k) == b.subrange(0, k)
            &&& (k == a.len() && k < b.len() || k < a.len() && k < b.len() && (a[k] as u32)
                < (b[k] as u32))
        };
    let n = section.len() as int;
    assert((section + a).subrange(0, n + k) =~= section + a.subrange(0, k));
    assert((section + b).subrange(0, n + k) =~= section + b.subrange(0, k));
    if k < a.len() {
        assert((section + a)[n + k] == a[k]);
        assert((section + b)[n + k] == b[k]);
    }
}

/// Where the content tag is preceded only by characters other than `g`, its
/// leftmost occurrence is the one written out, and the duplicate-check name
/// differs from the content name in the tag alone.
pub proof fn lemma_dupcheck_of_tagged(before: Seq<char>, after: Seq<char>)
    requires
        forall|i: int| 0 <= i < before.len() ==> before[i] != 'g',
    ensures
        spec_dupcheck(before + content_tag() + after) == before + dupcheck_tag() + after,
        before + dupcheck_tag() + after != before + content_tag() + after,
{
    reveal_strlit("generic_linkme");
    reveal_strlit("generic_linkm2");
    let text = before + content_tag() + after;
    let at = before.len() as int;
    assert(text.subrange(at, at + content_tag().len()) =~= content_tag());
    assert forall|earlier: int| 0 <= earlier < at implies !occurs_at(
        text,
        content_tag(),
        earlier,
    ) by {
        if occurs_at(text, content_tag(), earlier) {
            assert(text.subrange(earlier, earlier + content_tag().len())[0] == content_tag()[0]);
            assert(text[earlier] == before[earlier]);
        }
    }
    assert(first_occurrence(text, content_tag(), at));
    lemma_replace_first_at(text, content_tag(), dupcheck_tag(), at);
    assert(splice(text, at, content_tag(), dupcheck_tag()) =~= before + dupcheck_tag() + after);
    assert((before + dupcheck_tag() + after)[at + 13] == '2');
    assert((before + content_tag() + after)[at + 13] == 'e');
}

/// The same for a name made of a fixed head that holds the tag, and any
/// tail.
proof fn lemma_dupcheck_of_head(content: Seq<char>, dup: Seq<char>, at: int, tail: Seq<char>)
    requires
        0 <= at,
        at + 14 <= content.len(),
        content =~= content.subrange(0, at) + content_tag() + content.subrange(
            at + 14,
            content.len() as int,
        ),
        dup =~= content.subrange(0, at) + dupcheck_tag() + content.subrange(
            at + 14,
            content.len() as int,
        ),
        forall|i: int| 0 <= i < at ==> content.subrange(0, at)[i] != 'g',
    ensures
        spec_dupcheck(content + tail) == dup + tail,
        dup + tail != content + tail,
{
    let before = content.subrange(0, at);
    let after = content.subrange(at + 14, content.len() as int) + tail;
    lemma_dupcheck_of_tagged(before, after);
    assert(content + tail =~= before + content_tag() + after);
    assert(dup + tail =~= before + dupcheck_tag() + after);
}

/// The names of the duplicate-check region, written out.
pub open spec fn dupcheck_names(platform: Platform, ident: Seq<char>) -> RegionNamesView {
    match platform {
        Platform::Linux | Platform::FreeBsd => RegionNamesView {
            section: "generic_linkm2_"@ + ident,
            start: "__start_generic_linkm2_"@ + ident,
            stop: "__stop_generic_linkm2_"@ + ident,
        },
        Platform::MachO => RegionNamesView {
            section: "__DATA,__g2"@ + symbol_text(spec_hash(ident)) + ",regular,no_dead_strip"@,
            start: "\x01section$start$__DATA$__g2"@ + symbol_text(spec_hash(ident)),
            stop: "\x01section$end$__DATA$__g2"@ + symbol_text(spec_hash(ident)),
        },
        Platform::Windows => RegionNamesView {
            section: ".generic_linkm2_"@ + ident + "$b"@,
            start: ".generic_linkm2_"@ + ident + "$a"@,
            stop: ".generic_linkm2_"@ + ident + "$c"@,
        },
        Platform::Illumos => RegionNamesView {
            section: "set_generic_linkm2_"@ + ident,
            start: "__start_set_generic_linkm2_"@ + ident,
            stop: "__stop_set_generic_linkm2_"@ + ident,
        },
    }
}

/// The duplicate-check region is named like the content region, with
/// `generic_linkm2` in place of `generic_linkme`, or on Mach-O with the prefix
/// `__g2` in place of `__gl`. On every platform no name of the one region
/// equals its counterpart of the other.
pub proof fn lemma_dupcheck_names(platform: Platform, ident: Seq<char>)
    ensures
        platform.spec_dupcheck(ident) == dupcheck_names(platform, ident),
        platform.spec_dupcheck(ident).section != platform.spec_content(ident).section,
        platform.spec_dupcheck(ident).start != platform.spec_content(ident).start,
        platform.spec_dupcheck(ident).stop != platform.spec_content(ident).stop,
{
    reveal_strlit("generic_linkme");
    reveal_strlit("generic_linkm2");
    match platform {
        Platform::Linux | Platform::FreeBsd => {
            reveal_strlit("generic_linkme_");
            reveal_strlit("generic_linkm2_");
            reveal_strlit("__start_generic_linkme_");
            reveal_strlit("__start_generic_linkm2_");
            reveal_strlit("__stop_generic_linkme_");
            reveal_strlit("__stop_generic_linkm2_");
            lemma_dupcheck_of_head("generic_linkme_"@, "generic_linkm2_"@, 0, ident);
            lemma_dupcheck_of_head(
                "__start_generic_linkme_"@,
                "__start_generic_linkm2_"@,
                8,
                ident,
            );
            lemma_dupcheck_of_head("__stop_generic_linkme_"@, "__stop_generic_linkm2_"@, 7, ident);
        },
        Platform::MachO => {
            let symbol = symbol_text(spec_hash(ident));
            let none = Seq::<char>::empty();
            let names = platform.spec_dupcheck(ident);
            let content = platform.spec_content(ident);
            reveal_strlit("__gl");
            reveal_strlit("__g2");
            reveal_strlit("__DATA,");
            reveal_strlit("__DATA,__g2");
            reveal_strlit("\x01section$start$__DATA$");
            reveal_strlit("\x01section$start$__DATA$__g2");
            reveal_strlit("\x01section$end$__DATA$");
            reveal_strlit("\x01section$end$__DATA$__g2");
            assert(names.section =~= "__DATA,__g2"@ + symbol + ",regular,no_dead_strip"@);
            assert(names.start =~= "\x01section$start$__DATA$__g2"@ + symbol);
            assert(names.stop =~= "\x01section$end$__DATA$__g2"@ + symbol);
            assert(names.section[10] == '2' && content.section[10] == 'l');
            assert(names.start[25] == '2' && content.start[25] == 'l');
            assert(names.stop[23] == '2' && content.stop[23] == 'l');
        },
        Platform::Windows => {
            reveal_strlit(".generic_linkme_");
            reveal_strlit(".generic_linkm2_");
            lemma_dupcheck_of_head(".generic_linkme_"@, ".generic_linkm2_"@, 1, ident + "$a"@);
            lemma_dupcheck_of_head(".generic_linkme_"@, ".generic_linkm2_"@, 1, ident + "$b"@);
            lemma_dupcheck_of_head(".generic_linkme_"@, ".generic_linkm2_"@, 1, ident + "$c"@);
            assert(".generic_linkme_"@ + (ident + "$a"@) =~= ".generic_linkme_"@ + ident + "$a"@);
            assert(".generic_linkme_"@ + (ident + "$b"@) =~= ".generic_linkme_"@ + ident + "$b"@);
            assert(".generic_linkme_"@ + (ident + "$c"@) =~= ".generic_linkme_"@ + ident + "$c"@);
            assert(".generic_linkm2_"@ + (ident + "$a"@) =~= ".generic_linkm2_"@ + ident + "$a"@);
            assert(".generic_linkm2_"@ + (ident + "$b"@) =~= ".generic_linkm2_"@ + ident + "$b"@);
            assert(".generic_linkm2_"@ + (ident + "$c"@) =~= ".generic_linkm2_"@ + ident + "$c"@);
        },
        Platform::Illumos => {
            reveal_strlit("set_generic_linkme_");
            reveal_strlit("set_generic_linkm2_");
            reveal_strlit("__start_set_generic_linkme_");
            reveal_strlit("__start_set_generic_linkm2_");
            reveal_strlit("__stop_set_generic_linkme_");
            reveal_strlit("__stop_set_generic_linkm2_");
            lemma_dupcheck_of_head("set_generic_linkme_"@, "set_generic_linkm2_"@, 4, ident);
            lemma_dupcheck_of_head(
                "__start_set_generic_linkme_"@,
                "__start_set_generic_linkm2_"@,
                12,
                ident,
            );
            lemma_dupcheck_of_head(
                "__stop_set_generic_linkme_"@,
                "__stop_set_generic_linkm2_"@,
                11,
                ident,
            );
        },
    }
}

/// Whether a character may stand in a C identifier.
pub open spec fn is_identifier_char(c: char) -> bool {
    ||| 'a' <= c <= 'z'
    ||| 'A' <= c <= 'Z'
    ||| '0' <= c <= '9'
    ||| c == '_'
}

/// Whether text is made of identifier characters only.
pub open spec fn is_identifier_safe(text: Seq<char>) -> bool {
    forall|i: int| 0 <= i < text.len() ==> is_identifier_char(#[trigger] text[i])
}

/// On ELF targets the linker synthesizes boundary symbols only for sections
/// whose name is an identifier. A registry whose name is made of identifier
/// characters gets such names, for both of its regions.
pub proof fn lemma_elf_names_are_identifiers(ident: Seq<char>)
    requires
        is_identifier_safe(ident),
    ensures
        is_identifier_safe(Platform::Linux.spec_content(ident).section),
        is_identifier_safe(Platform::Linux.spec_content(ident).start),
        is_identifier_safe(Platform::Linux.spec_content(ident).stop),
        is_identifier_safe(Platform::Linux.spec_dupcheck(ident).section),
        is_identifier_safe(Platform::Linux.spec_dupcheck(ident).start),
        is_identifier_safe(Platform::Linux.spec_dupcheck(ident).stop),
{
    lemma_dupcheck_names(Platform::Linux, ident);
    reveal_strlit("generic_linkme_");
    reveal_strlit("generic_linkm2_");
    reveal_strlit("__start_generic_linkme_");
    reveal_strlit("__start_generic_linkm2_");
    reveal_strlit("__stop_generic_linkme_");
    reveal_strlit("__stop_generic_linkm2_");
}

/// On Mach-O targets the length of every name is fixed: it does not depend
/// on the registry's name, however long that is.
pub proof fn lemma_macho_names_have_fixed_width(first: Seq<char>, second: Seq<char>)
    ensures
        Platform::MachO.spec_content(first).section.len() == Platform::MachO.spec_content(
            second,
        ).section.len(),
        Platform::MachO.spec_content(first).start.len() == Platform::MachO.spec_content(
            second,
        ).start.len(),
        Platform::MachO.spec_content(first).stop.len() == Platform::MachO.spec_content(
            second,
        ).stop.len(),
{
}

/// On PE/COFF targets the three sections of a region sort in the order
/// start, content, stop, and a content section that carries a sort key still
/// sorts between the two sentinels.
pub proof fn lemma_windows_sections_are_ordered(ident: Seq<char>, pos: Option<usize>)
    ensures
        lex_less(
            Platform::Windows.spec_section_start(ident),
            spec_ordered_section(Platform::Windows.spec_section(ident), pos),
        ),
        lex_less(
            spec_ordered_section(Platform::Windows.spec_section(ident), pos),
            Platform::Windows.spec_section_stop(ident),
        ),
{
    reveal_strlit("$a");
    reveal_strlit("$b");
    reveal_strlit("$c");
    let head = ".generic_linkme_"@ + ident;
    let start = Platform::Windows.spec_section_start(ident);
    let stop = Platform::Windows.spec_section_stop(ident);
    let content = spec_ordered_section(Platform::Windows.spec_section(ident), pos);
    let k = head.len() as int + 1;
    assert(start.subrange(0, k) =~= head + seq!['$']);
    assert(stop.subrange(0, k) =~= head + seq!['$']);
    assert(content.subrange(0, k) =~= head + seq!['$']);
    assert(start[k] == 'a');
    assert(content[k] == 'b');
    assert(stop[k] == 'c');
}

/// Text is fixed by what stands before it and after it: two names built
/// around different text differ.
proof fn lemma_framed_text_differs(
    before: Seq<char>,
    first: Seq<char>,
    second: Seq<char>,
    after: Seq<char>,
)
    requires
        first != second,
    ensures
        before + first + after != before + second + after,
{
    let a = before + first + after;
    let b = before + second + after;
    if a == b {
        assert(first.len() == second.len()) by {
            assert(a.len() == before.len() + first.len() + after.len());
            assert(b.len() == before.len() + second.len() + after.len());
        }
        assert(first =~= second) by {
            assert forall|i: int| 0 <= i < first.len() implies first[i] == second[i] by {
                assert(a[before.len() + i] == first[i]);
                assert(b[before.len() + i] == second[i]);
            }
        }
    }
}

/// Where the registry's name is embedded in the section name, registries of
/// different names never share a region: their content sections differ, and
/// so do their duplicate-check sections. (On Mach-O the name is hashed, and
/// two names may collide.)
pub proof fn lemma_distinct_names_get_distinct_sections(
    platform: Platform,
    first: Seq<char>,
    second: Seq<char>,
)
    requires
        platform != Platform::MachO,
        first != second,
    ensures
        platform.spec_content(first).section != platform.spec_content(second).section,
        platform.spec_dupcheck(first).section != platform.spec_dupcheck(second).section,
{
    lemma_dupcheck_names(platform, first);
    lemma_dupcheck_names(platform, second);
    let none = Seq::<char>::empty();
    match platform {
        Platform::Linux | Platform::FreeBsd => {
            lemma_framed_text_differs("generic_linkme_"@, first, second, none);
            lemma_framed_text_differs("generic_linkm2_"@, first, second, none);
            assert("generic_linkme_"@ + first + none =~= "generic_linkme_"@ + first);
            assert("generic_linkme_"@ + second + none =~= "generic_linkme_"@ + second);
            assert("generic_linkm2_"@ + first + none =~= "generic_linkm2_"@ + first);
            assert("generic_linkm2_"@ + second + none =~= "generic_linkm2_"@ + second);
        },
        Platform::Illumos => {
            lemma_framed_text_differs("set_generic_linkme_"@, first, second, none);
            lemma_framed_text_differs("set_generic_linkm2_"@, first, second, none);
            assert("set_generic_linkme_"@ + first + none =~= "set_generic_linkme_"@ + first);
            assert("set_generic_linkme_"@ + second + none =~= "set_generic_linkme_"@ + second);
            assert("set_generic_linkm2_"@ + first + none =~= "set_generic_linkm2_"@ + first);
            assert("set_generic_linkm2_"@ + second + none =~= "set_generic_linkm2_"@ + second);
        },
        Platform::Windows => {
            lemma_framed_text_differs(".generic_linkme_"@, first, second, "$b"@);
            lemma_framed_text_differs(".generic_linkm2_"@, first, second, "$b"@);
        },
        Platform::MachO => {},
    }
}

/// Placement order on every platform: of two contributions to one registry,
/// the one with the smaller ordinal is placed in the lexically smaller
/// section.
pub proof fn lemma_placement_sorts_by_ordinal(
    platform: Platform,
    ident: Seq<char>,
    low: usize,
    high: usize,
)
    requires
        low < high < 10000,
    ensures
        lex_less(
            platform.spec_ordered_section(ident, Some(low)),
            platform.spec_ordered_section(ident, Some(high)),
        ),
{
    match platform {
        Platform::MachO => {
            lemma_sort_key_digits(low as nat);
            lemma_sort_key_digits(high as nat);
            let head = macho::spec_section_head(ident);
            let tail = macho::spec_section_tail();
            lemma_ordered_sections_sort_by_ordinal(head, low, high);
            let a = head + spec_sort_key(low as nat);
            let b = head + spec_sort_key(high as nat);
            let k = choose|k: int|
                {
                    &&& 0 <= k <= a.len()
                    &&& k <= b.len()
                    &&& #[trigger] a.subrange(0, k) == b.subrange(0, k)
                    &&& (k == a.len() && k < b.len() || k < a.len() && k < b.len() && (a[k] as u32)
                        < (b[k] as u32))
                };
            assert(a.len() == b.len());
            assert(platform.spec_ordered_section(ident, Some(low)) =~= a + tail);
            assert(platform.spec_ordered_section(ident, Some(high)) =~= b + tail);
            assert((a + tail).subrange(0, k) =~= a.subrange(0, k));
            assert((b + tail).subrange(0, k) =~= b.subrange(0, k));
            assert((a + tail)[k] == a[k]);
            assert((b + tail)[k] == b[k]);
        },
        _ => {
            lemma_ordered_sections_sort_by_ordinal(platform.spec_section(ident), low, high);
        },
    }
}

/// No character of text is a comma.
pub open spec fn has_no_comma(text: Seq<char>) -> bool {
    forall|i: int| 0 <= i < text.len() ==> #[trigger] text[i] != ','
}

/// A Mach-O section name holds at most sixteen bytes, and the names derived
/// here keep to that: the name of the content section and the name of the
/// duplicate-check section have twelve characters whatever the registry is
/// called, and the name of a section that carries the sort key of an ordinal
/// below ten thousand has sixteen. Every character is a letter, a numeral or
/// an underscore, so a character is a byte, and the name is what stands
/// between the first and the second comma of the section's specifier.
pub proof fn lemma_macho_section_names_fit(ident: Seq<char>, pos: Option<usize>)
    requires
        pos matches Some(ordinal) ==> ordinal < 10000,
    ensures
        macho::spec_section(ident) == macho::spec_specifier(
            macho::spec_name(macho::content_prefix(), ident, Seq::empty()),
        ),
        macho::spec_dupcheck_section(ident) == macho::spec_specifier(
            macho::spec_name(macho::dupcheck_prefix(), ident, Seq::empty()),
        ),
        macho::spec_ordered_section(ident, pos) == macho::spec_specifier(
            macho::spec_name(macho::content_prefix(), ident, macho::spec_key(pos)),
        ),
        macho::spec_name(macho::content_prefix(), ident, Seq::empty()).len() == 12,
        macho::spec_name(macho::dupcheck_prefix(), ident, Seq::empty()).len() == 12,
        macho::spec_name(macho::content_prefix(), ident, macho::spec_key(pos)).len()
            <= macho::SECTION_NAME_LIMIT,
        12 <= macho::SECTION_NAME_LIMIT,
        is_identifier_safe(macho::spec_name(macho::content_prefix(), ident, Seq::empty())),
        is_identifier_safe(macho::spec_name(macho::dupcheck_prefix(), ident, Seq::empty())),
        is_identifier_safe(
            macho::spec_name(macho::content_prefix(), ident, macho::spec_key(pos)),
        ),
        has_no_comma("__DATA"@),
{
    reveal_strlit("__gl");
    reveal_strlit("__g2");
    reveal_strlit("__DATA");
    reveal_strlit("0123456789");
    lemma_symbol_text(spec_hash(ident));
    let symbol = symbol_text(spec_hash(ident));
    assert forall|i: int| 0 <= i < 8 implies is_identifier_char(#[trigger] symbol[i]) by {
        assert(is_symbol_char(symbol[i]));
    }
    match pos {
        Some(ordinal) => {
            lemma_sort_key_digits(ordinal as nat);
            lemma_digit_char((ordinal / 1000) as int);
            lemma_digit_char((ordinal / 100 % 10) as int);
            lemma_digit_char((ordinal / 10 % 10) as int);
            lemma_digit_char((ordinal % 10) as int);
            let key = spec_sort_key(ordinal as nat);
            assert(key.len() == 4);
            assert forall|i: int| 0 <= i < 4 implies is_identifier_char(#[trigger] key[i]) by {
                assert('0' as u32 == 48);
                assert('9' as u32 == 57);
            }
        },
        None => {},
    }
    let plain = macho::spec_name(macho::content_prefix(), ident, Seq::empty());
    let check = macho::spec_name(macho::dupcheck_prefix(), ident, Seq::empty());
    let keyed = macho::spec_name(macho::content_prefix(), ident, macho::spec_key(pos));
    assert forall|i: int| 0 <= i < plain.len() implies is_identifier_char(
        #[trigger] plain[i],
    ) by {
        if i >= 4 {
            assert(plain[i] == symbol[i - 4]);
        }
    }
    assert forall|i: int| 0 <= i < check.len() implies is_identifier_char(
        #[trigger] check[i],
    ) by {
        if i >= 4 {
            assert(check[i] == symbol[i - 4]);
        }
    }
    assert forall|i: int| 0 <= i < keyed.len() implies is_identifier_char(
        #[trigger] keyed[i],
    ) by {
        if 4 <= i < 12 {
            assert(keyed[i] == symbol[i - 4]);
        } else if i >= 12 {
            assert(keyed[i] == macho::spec_key(pos)[i - 12]);
        }
    }
}

/// On Mach-O the section of a contribution is the head of the content
/// section's specifier, the sort key, and the attributes, in this order: the
/// key stands inside the name.
pub proof fn lemma_macho_ordered_section_parts(ident: Seq<char>, pos: Option<usize>)
    ensures
        macho::spec_ordered_section(ident, pos) == macho::spec_section_head(ident)
            + macho::spec_key(pos) + macho::spec_section_tail(),
        macho::spec_section(ident) == macho::spec_section_head(ident)
            + macho::spec_section_tail(),
{
    let head = macho::spec_section_head(ident);
    let tail = macho::spec_section_tail();
    assert(macho::spec_ordered_section(ident, pos) =~= head + macho::spec_key(pos) + tail);
    assert(macho::spec_section(ident) =~= head + tail);
}

/// A target resolves to a family exactly when the family lists it: the
/// targets of the five families are all the targets there are, and no target
/// belongs to two families.
pub proof fn lemma_targets_resolve(platform: Platform, target_os: Seq<char>)
    ensures
        platform.spec_targets().contains(target_os) <==> spec_resolve(target_os) == Some(
            platform,
        ),
{
    reveal_strlit("none");
    reveal_strlit("linux");
    reveal_strlit("macos");
    reveal_strlit("ios");
    reveal_strlit("tvos");
    reveal_strlit("windows");
    reveal_strlit("illumos");
    reveal_strlit("freebsd");
    let targets = platform.spec_targets();
    if targets.contains(target_os) {
        let i = choose|i: int| 0 <= i < targets.len() && targets[i] == target_os;
        assert(targets[i] == target_os);
        assert("linux"@[0] == 'l' && "macos"@[0] == 'm' && "tvos"@[0] == 't');
        assert("none"@[0] == 'n' && "ios"@[0] == 'i');
        assert("windows"@[0] == 'w' && "illumos"@[0] == 'i' && "freebsd"@[0] == 'f');
    }
    if spec_resolve(target_os) == Some(platform) {
        match platform {
            Platform::Linux => {
                assert(targets[0] == "none"@ && targets[1] == "linux"@);
            },
            Platform::MachO => {
                assert(targets[0] == "macos"@ && targets[1] == "ios"@ && targets[2] == "tvos"@);
            },
            Platform::Windows => {
                assert(targets[0] == "windows"@);
            },
            Platform::Illumos => {
                assert(targets[0] == "illumos"@);
            },
            Platform::FreeBsd => {
                assert(targets[0] == "freebsd"@);
            },
        }
    }
}

} // verus!
