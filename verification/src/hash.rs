//! Fixed-width symbol hashes for registry names.
//!
//! Some object formats cap the length of a section name, so a registry name
//! cannot be embedded verbatim. Instead the name is digested to 64 bits and
//! the digest is spelled with eight characters of a 62-letter alphabet.

use std::collections::hash_map::DefaultHasher;
use std::hash::Hasher;
use vstd::arithmetic::div_mod::lemma_div_denominator;
use vstd::arithmetic::div_mod::lemma_div_is_ordered_by_denominator;
use vstd::arithmetic::power::lemma_pow0;
use vstd::arithmetic::power::lemma_pow_positive;
use vstd::arithmetic::power::pow;
use vstd::prelude::*;
use vstd::std_specs::hash::DefaultHasherAdditionalSpecFns;
use vstd::string::StringSliceAdditionalSpecFns;

verus! {

/// Number of characters in the printed form of a [`Symbol`].
pub const SYMBOL_WIDTH: usize = 8;

/// Size of the alphabet a [`Symbol`] is printed with.
pub const SYMBOL_RADIX: u64 = 62;

/// A 64-bit digest of a registry name.
#[derive(Clone, Copy, Debug, PartialEq, Eq, Structural)]
pub struct Symbol(pub u64);

/// The letters a symbol is spelled with, in digit order.
pub open spec fn alphabet() -> Seq<char> {
    "abcdefghijklmnopqrstuvwxyzABCDEFGHIJKLMNOPQRSTUVWXYZ0123456789"@
}

/// The byte stream that is digested for a name: its UTF-8 bytes, then a
/// terminator byte that cannot occur inside UTF-8 text.
pub open spec fn digest_input(name: Seq<char>) -> Seq<Seq<u8>> {
    seq![vstd::utf8::encode_utf8(name), seq![0xffu8]]
}

/// The digest of a registry name.
pub open spec fn spec_hash(name: Seq<char>) -> u64 {
    DefaultHasher::spec_finish(digest_input(name))
}

/// The `i`-th character of the printed form of digest `h`: the `i`-th
/// base-62 digit, least significant first.
pub open spec fn symbol_char(h: u64, i: int) -> char {
    alphabet()[(h as int / pow(62, i as nat)) % 62]
}

/// The printed form of digest `h`: exactly eight letters.
pub open spec fn symbol_text(h: u64) -> Seq<char> {
    Seq::new(8, |i: int| symbol_char(h, i))
}

/// Whether a character is one of the sixty-two a symbol is spelled with: a
/// letter or a numeral.
pub open spec fn is_symbol_char(c: char) -> bool {
    ||| 'a' <= c <= 'z'
    ||| 'A' <= c <= 'Z'
    ||| '0' <= c <= '9'
}

/// Every place of the alphabet holds a letter or a numeral.
proof fn lemma_alphabet(digit: int)
    requires
        0 <= digit < 62,
    ensures
        is_symbol_char(alphabet()[digit]),
{
    reveal_strlit("abcdefghijklmnopqrstuvwxyzABCDEFGHIJKLMNOPQRSTUVWXYZ0123456789");
}

/// The printed form of a digest has exactly eight characters, each a letter
/// or a numeral.
pub proof fn lemma_symbol_text(h: u64)
    ensures
        symbol_text(h).len() == 8,
        forall|i: int| 0 <= i < 8 ==> is_symbol_char(#[trigger] symbol_text(h)[i]),
{
    assert forall|i: int| 0 <= i < 8 implies is_symbol_char(#[trigger] symbol_text(h)[i]) by {
        lemma_pow_positive(62, i as nat);
        lemma_alphabet((h as int / pow(62, i as nat)) % 62);
    }
}

/// Digests a registry name.
pub fn hash(ident: &str) -> (symbol: Symbol)
    ensures
        symbol.0 == spec_hash(ident@),
{
    let mut hasher = DefaultHasher::new();
    hasher.write(ident.as_bytes());
    let mut terminator: Vec<u8> = Vec::new();
    terminator.push(0xff);
    assert(terminator@ =~= seq![0xffu8]);
    hasher.write(terminator.as_slice());
    assert(hasher@ =~= digest_input(ident@));
    Symbol(hasher.finish())
}

impl Symbol {
    /// Spells the digest with eight letters of the alphabet.
    pub fn to_string(&self) -> (text: String)
        ensures
            text@ == symbol_text(self.0),
    {
        let letters = "abcdefghijklmnopqrstuvwxyzABCDEFGHIJKLMNOPQRSTUVWXYZ0123456789";
        proof {
            reveal_strlit("abcdefghijklmnopqrstuvwxyzABCDEFGHIJKLMNOPQRSTUVWXYZ0123456789");
            lemma_pow0(62);
        }
        assert(letters@.len() == 62);
        assert(letters.is_ascii());
        let mut text = String::new();
        let mut remainder: u64 = self.0;
        let mut i: usize = 0;
        while i < SYMBOL_WIDTH
            invariant
                i <= SYMBOL_WIDTH,
                letters@ == alphabet(),
                letters@.len() == 62,
                letters.is_ascii(),
                remainder as int == self.0 as int / pow(62, i as nat),
                text@.len() == i,
                forall|k: int| 0 <= k < i ==> text@[k] == symbol_char(self.0, k),
            decreases SYMBOL_WIDTH - i,
        {
            let digit: usize = (remainder % SYMBOL_RADIX) as usize;
            let letter = letters.substring_ascii(digit, digit + 1);
            proof {
                lemma_pow_positive(62, i as nat);
                lemma_div_denominator(self.0 as int, pow(62, i as nat), 62);
                vstd::arithmetic::power::lemma_pow1(62);
                vstd::arithmetic::power::lemma_pow_adds(62, i as nat, 1);
                assert(letter@ =~= seq![symbol_char(self.0, i as int)]);
            }
            text.append(letter);
            remainder = remainder / SYMBOL_RADIX;
            i = i + 1;
        }
        assert(text@ =~= symbol_text(self.0));
        text
    }
}

} // verus!
