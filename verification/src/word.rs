//! The machine words that bus identifiers, addresses and payloads are made of.

use vstd::prelude::*;

verus! {

/// An unsigned fixed-width integer that can serve as a bus word.
///
/// A word is modelled by the integer it holds, `bits()`, widened to the
/// largest unsigned type. The three laws tie that model to the type: every
/// word stays under `limit()`, and `word` and `bits` are inverse to each
/// other on that range.
pub trait Word: Copy {
    /// The integer that this word holds.
    spec fn bits(self) -> u128;

    /// The largest integer that a word of this type holds.
    spec fn limit() -> nat;

    /// The word that holds `n`, for `n` up to `limit()`.
    spec fn word(n: nat) -> Self;

    /// No word holds more than `limit()`.
    proof fn lemma_bits_bounded(self)
        ensures
            self.bits() <= Self::limit(),
    ;

    /// Reading the word made from `n` gives `n` back.
    proof fn lemma_bits_of_word(n: nat)
        requires
            n <= Self::limit(),
        ensures
            Self::word(n).bits() == n,
    ;

    /// Making a word from what a word holds gives the same word.
    proof fn lemma_word_of_bits(self)
        ensures
            Self::word(self.bits() as nat) == self,
    ;

    /// The word with no bit set.
    fn zero() -> (z: Self)
        ensures
            z.bits() == 0,
    ;

    /// Bitwise AND of two words.
    fn mask(self, other: Self) -> (r: Self)
        ensures
            r.bits() == self.bits() & other.bits(),
    ;

    /// Whether two words hold the same integer.
    fn same(self, other: Self) -> (eq: bool)
        ensures
            eq == (self.bits() == other.bits()),
    ;

    /// The word for a peer index, or `None` where the index is too large for
    /// this word type.
    fn from_index(index: usize) -> (r: Option<Self>)
        ensures
            index <= Self::limit() ==> r == Some(Self::word(index as nat)),
            index > Self::limit() ==> r is None,
    ;

    /// The peer index that this word names, or `None` where it is too large
    /// for `usize`.
    fn to_index(self) -> (r: Option<usize>)
        ensures
            self.bits() <= usize::MAX ==> r == Some(self.bits() as usize),
            self.bits() > usize::MAX ==> r is None,
    ;
}

/// The word that names peer `index`, where the word type can hold it.
pub open spec fn word_of_index<W: Word>(index: nat) -> Option<W> {
    if index <= W::limit() {
        Some(W::word(index))
    } else {
        None
    }
}

/// The peer index that `w` names, where `usize` can hold it.
pub open spec fn index_of_word<W: Word>(w: W) -> Option<usize> {
    if w.bits() <= usize::MAX {
        Some(w.bits() as usize)
    } else {
        None
    }
}

/// Two words are equal exactly when they hold the same integer.
pub proof fn lemma_bits_injective<W: Word>(a: W, b: W)
    ensures
        a.bits() == b.bits() <==> a == b,
{
    a.lemma_word_of_bits();
    b.lemma_word_of_bits();
}

/// A peer index that a word type can hold survives the trip into a word and
/// back: the word made from it names the same index again.
pub proof fn lemma_index_round_trip<W: Word>(index: usize)
    requires
        index <= W::limit(),
    ensures
        word_of_index::<W>(index as nat) matches Some(w) && index_of_word(w) == Some(index),
{
    W::lemma_bits_of_word(index as nat);
}

/// A peer index beyond the word type's range has no word: it is refused, not
/// cut down to fit.
pub proof fn lemma_index_out_of_range<W: Word>(index: usize)
    requires
        index > W::limit(),
    ensures
        word_of_index::<W>(index as nat) is None,
{
}

impl Word for u8 {
    open spec fn bits(self) -> u128 {
        self as u128
    }

    open spec fn limit() -> nat {
        0xff
    }

    open spec fn word(n: nat) -> u8 {
        n as u8
    }

    proof fn lemma_bits_bounded(self) {
    }

    proof fn lemma_bits_of_word(n: nat) {
    }

    proof fn lemma_word_of_bits(self) {
    }

    fn zero() -> u8 {
        0
    }

    fn mask(self, other: u8) -> u8 {
        assert((self & other) as u128 == (self as u128) & (other as u128)) by (bit_vector);
        self & other
    }

    fn same(self, other: u8) -> bool {
        self == other
    }

    fn from_index(index: usize) -> Option<u8> {
        if index <= 0xff {
            Some(index as u8)
        } else {
            None
        }
    }

    fn to_index(self) -> Option<usize> {
        Some(self as usize)
    }
}

impl Word for u16 {
    open spec fn bits(self) -> u128 {
        self as u128
    }

    open spec fn limit() -> nat {
        0xffff
    }

    open spec fn word(n: nat) -> u16 {
        n as u16
    }

    proof fn lemma_bits_bounded(self) {
    }

    proof fn lemma_bits_of_word(n: nat) {
    }

    proof fn lemma_word_of_bits(self) {
    }

    fn zero() -> u16 {
        0
    }

    fn mask(self, other: u16) -> u16 {
        assert((self & other) as u128 == (self as u128) & (other as u128)) by (bit_vector);
        self & other
    }

    fn same(self, other: u16) -> bool {
        self == other
    }

    fn from_index(index: usize) -> Option<u16> {
        if index <= 0xffff {
            Some(index as u16)
        } else {
            None
        }
    }

    fn to_index(self) -> Option<usize> {
        Some(self as usize)
    }
}

impl Word for u32 {
    open spec fn bits(self) -> u128 {
        self as u128
    }

    open spec fn limit() -> nat {
        0xffff_ffff
    }

    open spec fn word(n: nat) -> u32 {
        n as u32
    }

    proof fn lemma_bits_bounded(self) {
    }

    proof fn lemma_bits_of_word(n: nat) {
    }

    proof fn lemma_word_of_bits(self) {
    }

    fn zero() -> u32 {
        0
    }

    fn mask(self, other: u32) -> u32 {
        assert((self & other) as u128 == (self as u128) & (other as u128)) by (bit_vector);
        self & other
    }

    fn same(self, other: u32) -> bool {
        self == other
    }

    fn from_index(index: usize) -> Option<u32> {
        if index <= 0xffff_ffff {
            Some(index as u32)
        } else {
            None
        }
    }

    fn to_index(self) -> Option<usize> {
        Some(self as usize)
    }
}

impl Word for u64 {
    open spec fn bits(self) -> u128 {
        self as u128
    }

    open spec fn limit() -> nat {
        0xffff_ffff_ffff_ffff
    }

    open spec fn word(n: nat) -> u64 {
        n as u64
    }

    proof fn lemma_bits_bounded(self) {
    }

    proof fn lemma_bits_of_word(n: nat) {
    }

    proof fn lemma_word_of_bits(self) {
    }

    fn zero() -> u64 {
        0
    }

    fn mask(self, other: u64) -> u64 {
        assert((self & other) as u128 == (self as u128) & (other as u128)) by (bit_vector);
        self & other
    }

    fn same(self, other: u64) -> bool {
        self == other
    }

    fn from_index(index: usize) -> Option<u64> {
        Some(index as u64)
    }

    fn to_index(self) -> Option<usize> {
        if self <= usize::MAX as u64 {
            Some(self as usize)
        } else {
            None
        }
    }
}

impl Word for u128 {
    open spec fn bits(self) -> u128 {
        self as u128
    }

    open spec fn limit() -> nat {
        0xffff_ffff_ffff_ffff_ffff_ffff_ffff_ffff
    }

    open spec fn word(n: nat) -> u128 {
        n as u128
    }

    proof fn lemma_bits_bounded(self) {
    }

    proof fn lemma_bits_of_word(n: nat) {
    }

    proof fn lemma_word_of_bits(self) {
    }

    fn zero() -> u128 {
        0
    }

    fn mask(self, other: u128) -> u128 {
        assert((self & other) as u128 == (self as u128) & (other as u128)) by (bit_vector);
        self & other
    }

    fn same(self, other: u128) -> bool {
        self == other
    }

    fn from_index(index: usize) -> Option<u128> {
        Some(index as u128)
    }

    fn to_index(self) -> Option<usize> {
        if self <= usize::MAX as u128 {
            Some(self as usize)
        } else {
            None
        }
    }
}

impl Word for usize {
    open spec fn bits(self) -> u128 {
        self as u128
    }

    open spec fn limit() -> nat {
        usize::MAX as nat
    }

    open spec fn word(n: nat) -> usize {
        n as usize
    }

    proof fn lemma_bits_bounded(self) {
    }

    proof fn lemma_bits_of_word(n: nat) {
    }

    proof fn lemma_word_of_bits(self) {
    }

    fn zero() -> usize {
        0
    }

    fn mask(self, other: usize) -> usize {
        assert((self & other) as u128 == (self as u128) & (other as u128)) by (bit_vector);
        self & other
    }

    fn same(self, other: usize) -> bool {
        self == other
    }

    fn from_index(index: usize) -> Option<usize> {
        Some(index)
    }

    fn to_index(self) -> Option<usize> {
        Some(self)
    }
}

} // verus!
