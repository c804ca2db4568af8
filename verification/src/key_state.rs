//! The key-state bitmap and its fixed-size six-key report.
//!
//! [`Bitmap`] is a 256-bit set stored as eight 32-bit words; [`KeyState`]
//! keys it by [`ScanCode`] code. Every operation is specified bit by bit
//! through [`Bitmap::spec_bit`], so the contracts of the debouncer and the
//! report builder can speak about individual keys.

use vstd::prelude::*;

use crate::scancode::MODIFIER_BASE;
use crate::scancode::ScanCode;

verus! {

/// Whether bit `j` of the word `w` is set.
pub open spec fn word_bit(w: u32, j: u32) -> bool {
    (w >> j) & 1 == 1
}

/// Whether bit `j` of the byte `b` is set.
pub open spec fn byte_bit(b: u8, j: u8) -> bool {
    (b >> j) & 1 == 1
}

proof fn lemma_word_bit_or(x: u32, y: u32)
    by (bit_vector)
    ensures
        forall|j: u32| j < 32 ==> #[trigger] word_bit(x | y, j) == (word_bit(x, j) || word_bit(
            y,
            j,
        )),
{
}

proof fn lemma_word_bit_xor(x: u32, y: u32)
    by (bit_vector)
    ensures
        forall|j: u32| j < 32 ==> #[trigger] word_bit(x ^ y, j) == (word_bit(x, j) != word_bit(
            y,
            j,
        )),
{
}

proof fn lemma_word_bit_select(m: u32, a: u32, b: u32)
    by (bit_vector)
    ensures
        forall|j: u32|
            j < 32 ==> #[trigger] word_bit((m & a) | (!m & b), j) == (if word_bit(m, j) {
                word_bit(a, j)
            } else {
                word_bit(b, j)
            }),
{
}

proof fn lemma_word_bit_set(x: u32, k: u32)
    by (bit_vector)
    requires
        k < 32,
    ensures
        forall|j: u32| j < 32 ==> #[trigger] word_bit(x | (1u32 << k), j) == (word_bit(x, j) || j
            == k),
{
}

proof fn lemma_word_bit_clear(x: u32, k: u32)
    by (bit_vector)
    requires
        k < 32,
    ensures
        forall|j: u32| j < 32 ==> #[trigger] word_bit(x & !(1u32 << k), j) == (word_bit(x, j) && j
            != k),
{
}

proof fn lemma_word_bit_test(x: u32, k: u32)
    by (bit_vector)
    requires
        k < 32,
    ensures
        ((x & (1u32 << k)) != 0) == word_bit(x, k),
{
}

proof fn lemma_word_zero(x: u32)
    ensures
        (x == 0) <==> (forall|j: u32| j < 32 ==> !(#[trigger] word_bit(x, j))),
{
    if x == 0 {
        assert(forall|j: u32| j < 32 ==> !(#[trigger] word_bit(0u32, j))) by (bit_vector);
    } else {
        let tz = vstd::std_specs::bits::u32_trailing_zeros(x);
        vstd::std_specs::bits::axiom_u32_trailing_zeros(x);
        assert(word_bit(x, tz));
    }
}

proof fn lemma_word_low_byte(x: u32)
    by (bit_vector)
    ensures
        forall|j: u8| j < 8 ==> #[trigger] byte_bit((x & 0xff) as u8, j) == word_bit(x, j as u32),
{
}

/// Two words with the same bits are the same word.
proof fn lemma_word_bits_unique(x: u32, y: u32)
    requires
        forall|j: u32| j < 32 ==> #[trigger] word_bit(x, j) == word_bit(y, j),
    ensures
        x == y,
{
    if x != y {
        let d = x ^ y;
        assert(d != 0) by (bit_vector)
            requires
                x != y,
                d == x ^ y,
        ;
        let tz = vstd::std_specs::bits::u32_trailing_zeros(d);
        vstd::std_specs::bits::axiom_u32_trailing_zeros(d);
        assert(word_bit(d, tz));
        lemma_word_bit_xor(x, y);
        assert(word_bit(x, tz) != word_bit(y, tz));
    }
}

/// Splitting a bit index below 256 into a word index and a bit offset is
/// injective.
proof fn lemma_bit_index(i: int, bit: int)
    requires
        0 <= i < 256,
        0 <= bit < 256,
    ensures
        (i == bit) <==> (i / 32 == bit / 32 && i % 32 == bit % 32),
{
    vstd::arithmetic::div_mod::lemma_fundamental_div_mod(i, 32);
    vstd::arithmetic::div_mod::lemma_fundamental_div_mod(bit, 32);
}

/// A 256-bit set stored as eight 32-bit words, least-significant bit
/// first within each word.
#[derive(Debug, PartialEq, Eq, Clone, Copy)]
pub struct Bitmap {
    pub data: [u32; 8],
}

impl Bitmap {
    /// Whether bit `i` is set. Out-of-range indices are never set.
    pub open spec fn spec_bit(self, i: int) -> bool {
        0 <= i < 256 && word_bit(self.data[i / 32], (i % 32) as u32)
    }

    /// Creates a bitmap with no bits set.
    pub fn new() -> (r: Self)
        ensures
            forall|i: int| !r.spec_bit(i),
    {
        let r = Bitmap { data: [0u32; 8] };
        proof {
            assert forall|i: int| !r.spec_bit(i) by {
                if 0 <= i < 256 {
                    lemma_word_zero(0u32);
                }
            }
        }
        r
    }

    /// Sets bit `bit`; bits out of range are ignored.
    pub fn set(&mut self, bit: usize)
        ensures
            forall|i: int|
                #[trigger] final (self).spec_bit(i) == (old(self).spec_bit(i) || (i == bit && bit
                    < 256)),
    {
        if bit >= 256 {
            return ;
        }
        let word = bit / 32;
        let b = (bit % 32) as u32;
        let updated = self.data[word] | (1u32 << b);
        let ghost prev = *self;
        self.data[word] = updated;
        proof {
            lemma_word_bit_set(prev.data[word as int], b);
            assert forall|i: int|
                #[trigger] self.spec_bit(i) == (prev.spec_bit(i) || i == bit as int) by {
                if 0 <= i < 256 {
                    lemma_bit_index(i, bit as int);
                }
            }
        }
    }

    /// Clears bit `bit`; bits out of range are ignored.
    pub fn clear(&mut self, bit: usize)
        ensures
            forall|i: int|
                #[trigger] final (self).spec_bit(i) == (old(self).spec_bit(i) && i != bit),
    {
        if bit >= 256 {
            return ;
        }
        let word = bit / 32;
        let b = (bit % 32) as u32;
        let updated = self.data[word] & !(1u32 << b);
        let ghost prev = *self;
        self.data[word] = updated;
        proof {
            lemma_word_bit_clear(prev.data[word as int], b);
            assert forall|i: int|
                #[trigger] self.spec_bit(i) == (prev.spec_bit(i) && i != bit as int) by {
                if 0 <= i < 256 {
                    lemma_bit_index(i, bit as int);
                }
            }
        }
    }

    /// Tests bit `bit`; bits out of range read as clear.
    pub fn bit_is_set(&mut self, bit: usize) -> (r: bool)
        ensures
            *final (self) == *old(self),
            r == old(self).spec_bit(bit as int),
    {
        if bit >= 256 {
            return false;
        }
        let word = bit / 32;
        let b = (bit % 32) as u32;
        let r = (self.data[word] & (1u32 << b)) != 0;
        proof {
            lemma_word_bit_test(self.data[word as int], b);
        }
        r
    }

    /// Bitwise union.
    pub fn or(&self, other: &Bitmap) -> (r: Bitmap)
        ensures
            forall|i: int|
                #[trigger] r.spec_bit(i) == (self.spec_bit(i) || other.spec_bit(i)),
    {
        let mut bitmap = self.clone();
        let mut i: usize = 0;
        while i < 8
            invariant
                i <= 8,
                forall|k: int| 0 <= k < i ==> bitmap.data[k] == self.data[k] | other.data[k],
                forall|k: int| i <= k < 8 ==> bitmap.data[k] == self.data[k],
            decreases 8 - i,
        {
            bitmap.data[i] = bitmap.data[i] | other.data[i];
            i = i + 1;
        }
        proof {
            assert forall|i: int|
                #[trigger] bitmap.spec_bit(i) == (self.spec_bit(i) || other.spec_bit(i)) by {
                if 0 <= i < 256 {
                    lemma_word_bit_or(self.data[i / 32], other.data[i / 32]);
                }
            }
        }
        bitmap
    }

    /// Bitwise symmetric difference.
    pub fn xor(&self, other: &Bitmap) -> (r: Bitmap)
        ensures
            forall|i: int|
                #[trigger] r.spec_bit(i) == (self.spec_bit(i) != other.spec_bit(i)),
    {
        let mut bitmap = self.clone();
        let mut i: usize = 0;
        while i < 8
            invariant
                i <= 8,
                forall|k: int| 0 <= k < i ==> bitmap.data[k] == self.data[k] ^ other.data[k],
                forall|k: int| i <= k < 8 ==> bitmap.data[k] == self.data[k],
            decreases 8 - i,
        {
            bitmap.data[i] = bitmap.data[i] ^ other.data[i];
            i = i + 1;
        }
        proof {
            assert forall|i: int|
                #[trigger] bitmap.spec_bit(i) == (self.spec_bit(i) != other.spec_bit(i)) by {
                if 0 <= i < 256 {
                    lemma_word_bit_xor(self.data[i / 32], other.data[i / 32]);
                }
            }
        }
        bitmap
    }

    /// Whether any bit at all is set.
    pub fn any_bit_set(&self) -> (r: bool)
        ensures
            r == exists|i: int| self.spec_bit(i),
    {
        let mut i: usize = 0;
        while i < 8
            invariant
                i <= 8,
                forall|k: int| 0 <= k < i ==> self.data[k] == 0,
            decreases 8 - i,
        {
            if self.data[i] != 0 {
                proof {
                    lemma_word_zero(self.data[i as int]);
                    let j = choose|j: u32| j < 32 && word_bit(self.data[i as int], j);
                    assert(self.spec_bit(i as int * 32 + j));
                }
                return true;
            }
            i = i + 1;
        }
        proof {
            assert forall|i: int| !self.spec_bit(i) by {
                if 0 <= i < 256 {
                    lemma_word_zero(self.data[i / 32]);
                }
            }
        }
        false
    }
}

proof fn lemma_shr_zero(x: u32, b: u32)
    by (bit_vector)
    requires
        b < 32,
        (x >> b) == 0,
    ensures
        forall|j: u32| b <= j < 32 ==> !(#[trigger] word_bit(x, j)),
{
}

proof fn lemma_shr_found(x: u32, b: u32, t: u32)
    by (bit_vector)
    requires
        b < 32,
        t < 32,
        ((x >> b) >> t) & 1 == 1,
    ensures
        b + t < 32,
{
}

proof fn lemma_shr_add(x: u32, b: u32, t: u32)
    by (bit_vector)
    requires
        b < 32,
        t < 32,
        b + t < 32,
    ensures
        (((x >> b) >> t) & 1 == 1) == word_bit(x, (b + t) as u32),
{
}

impl Bitmap {
    /// Starts an ascending walk over the set bits.
    pub fn iter(&self) -> (r: BitmapIter)
        ensures
            r.bitmap == self,
            r.pos == 0,
    {
        BitmapIter { bitmap: self, pos: 0 }
    }
}

/// Ascending walk over the set bits of a [`Bitmap`]; restartable by
/// constructing a fresh one.
pub struct BitmapIter<'a> {
    pub bitmap: &'a Bitmap,
    pub pos: usize,
}

impl<'a> BitmapIter<'a> {
    /// Returns the lowest set bit at or above the current position and
    /// advances past it, or `None` once no set bit remains.
    pub fn next(&mut self) -> (r: Option<usize>)
        ensures
            final (self).bitmap == old(self).bitmap,
            match r {
                Some(k) => old(self).pos <= k < 256 && old(self).bitmap.spec_bit(k as int)
                    && (forall|i: int| old(self).pos <= i < k ==> !old(self).bitmap.spec_bit(i))
                    && final (self).pos == k + 1,
                None => final (self).pos >= 256 && (old(self).pos <= 256 ==> final (self).pos
                    == 256) && (forall|i: int|
                    old(self).pos <= i < 256 ==> !old(self).bitmap.spec_bit(i)),
            },
    {
        while self.pos < 256
            invariant
                self.bitmap == old(self).bitmap,
                old(self).pos <= self.pos,
                old(self).pos <= 256 ==> self.pos <= 256,
                forall|i: int| old(self).pos <= i < self.pos ==> !self.bitmap.spec_bit(i),
            decreases 256 - self.pos,
        {
            let word = self.pos / 32;
            let bit = (self.pos % 32) as u32;
            let bits = self.bitmap.data[word] >> bit;
            proof {
                vstd::arithmetic::div_mod::lemma_fundamental_div_mod(self.pos as int, 32);
            }
            if bits == 0 {
                proof {
                    lemma_shr_zero(self.bitmap.data[word as int], bit);
                    assert forall|i: int|
                        self.pos <= i < (word + 1) * 32 implies !self.bitmap.spec_bit(i) by {
                        vstd::arithmetic::div_mod::lemma_fundamental_div_mod(i, 32);
                        assert(i / 32 == word as int);
                    }
                }
                self.pos = (word + 1) * 32;
                continue ;
            }
            let tz = bits.trailing_zeros();
            proof {
                vstd::std_specs::bits::axiom_u32_trailing_zeros(bits);
                lemma_shr_found(self.bitmap.data[word as int], bit, tz);
                lemma_shr_add(self.bitmap.data[word as int], bit, tz);
            }
            let next_bit = self.pos + (tz as usize);
            proof {
                assert(next_bit as int == word * 32 + (bit + tz));
                assert(next_bit as int / 32 == word as int && next_bit as int % 32 == (bit
                    + tz) as int) by {
                    vstd::arithmetic::div_mod::lemma_fundamental_div_mod_converse(
                        next_bit as int,
                        32,
                        word as int,
                        (bit + tz) as int,
                    );
                }
                assert(self.bitmap.spec_bit(next_bit as int));
                assert forall|i: int| self.pos <= i < next_bit implies !self.bitmap.spec_bit(
                    i,
                ) by {
                    vstd::arithmetic::div_mod::lemma_fundamental_div_mod(i, 32);
                    assert(i / 32 == word as int);
                    let j = (i % 32) as u32;
                    assert(bit <= j < bit + tz);
                    assert(((bits >> (j - bit) as u32) & 1) == 0);
                    lemma_shr_add(self.bitmap.data[word as int], bit, (j - bit) as u32);
                }
            }
            self.pos = next_bit + 1;
            return Some(next_bit);
        }
        None
    }
}

/// State of all keys, indexed by [`ScanCode`] code.
#[derive(Debug, PartialEq, Eq, Clone, Copy)]
pub struct KeyState {
    pub keys: Bitmap,
}

/// A six-key HID boot-protocol report: one modifier byte, one reserved
/// byte, then up to six pressed non-modifier key codes in ascending
/// order, zero-filled.
pub type SixKeySet = [u8; 8];

impl KeyState {
    /// Whether the key with code `i` is pressed.
    pub open spec fn spec_bit(self, i: int) -> bool {
        self.keys.spec_bit(i)
    }

    /// Whether `key` is pressed.
    pub open spec fn spec_key(self, key: ScanCode) -> bool {
        self.spec_bit(key.spec_code() as int)
    }

    /// Creates an empty key state with no key pressed.
    pub fn new() -> (r: KeyState)
        ensures
            forall|i: int| !r.spec_bit(i),
    {
        KeyState { keys: Bitmap::new() }
    }

    /// Marks a single key as pressed.
    pub fn set_key(&mut self, key: ScanCode)
        ensures
            forall|i: int|
                #[trigger] final (self).spec_bit(i) == (old(self).spec_bit(i) || i
                    == key.spec_code()),
    {
        self.keys.set(key.code() as usize);
    }

    /// Marks a single key as released.
    pub fn clear_key(&mut self, key: ScanCode)
        ensures
            forall|i: int|
                #[trigger] final (self).spec_bit(i) == (old(self).spec_bit(i) && i
                    != key.spec_code()),
    {
        self.keys.clear(key.code() as usize);
    }

    /// Tests whether a single key is pressed.
    pub fn key_is_set(&mut self, key: ScanCode) -> (r: bool)
        ensures
            *final (self) == *old(self),
            r == old(self).spec_key(key),
    {
        self.keys.bit_is_set(key.code() as usize)
    }

    /// For each bit of `bitmap`, picks the key from `if_set` where the
    /// bit is set and from `if_not_set` where it is clear.
    pub fn select(bitmap: &Bitmap, if_not_set: &KeyState, if_set: &KeyState) -> (r: KeyState)
        ensures
            forall|i: int|
                #[trigger] r.spec_bit(i) == if bitmap.spec_bit(i) {
                    if_set.spec_bit(i)
                } else {
                    if_not_set.spec_bit(i)
                },
    {
        let mut key_state = KeyState { keys: Bitmap { data: [0u32; 8] } };
        let mut i: usize = 0;
        while i < 8
            invariant
                i <= 8,
                forall|k: int|
                    0 <= k < i ==> key_state.keys.data[k] == (bitmap.data[k]
                        & if_set.keys.data[k]) | (!bitmap.data[k] & if_not_set.keys.data[k]),
                forall|k: int| i <= k < 8 ==> key_state.keys.data[k] == 0,
            decreases 8 - i,
        {
            key_state.keys.data[i] = (bitmap.data[i] & if_set.keys.data[i]) | (!bitmap.data[i]
                & if_not_set.keys.data[i]);
            i = i + 1;
        }
        proof {
            assert forall|i: int|
                #[trigger] key_state.spec_bit(i) == if bitmap.spec_bit(i) {
                    if_set.spec_bit(i)
                } else {
                    if_not_set.spec_bit(i)
                } by {
                if 0 <= i < 256 {
                    lemma_word_bit_select(
                        bitmap.data[i / 32],
                        if_set.keys.data[i / 32],
                        if_not_set.keys.data[i / 32],
                    );
                }
            }
        }
        key_state
    }

    /// The set of keys on which `self` and `other` differ.
    pub fn get_changes(&self, other: &KeyState) -> (r: Bitmap)
        ensures
            forall|i: int|
                #[trigger] r.spec_bit(i) == (self.spec_bit(i) != other.spec_bit(i)),
    {
        self.keys.xor(&other.keys)
    }

    /// Starts an ascending walk over the pressed keys.
    pub fn iter(&self) -> (r: KeyIter)
        ensures
            r.bitmap_iter.bitmap == &self.keys,
            r.bitmap_iter.pos == 0,
    {
        KeyIter { bitmap_iter: self.keys.iter() }
    }
}

impl KeyState {
    /// The codes of the pressed keys in `lo..hi`, in ascending order.
    pub open spec fn pressed_range(self, lo: int, hi: int) -> Seq<u8>
        decreases hi - lo,
    {
        if lo >= hi {
            Seq::empty()
        } else {
            (if self.spec_bit(lo) {
                seq![lo as u8]
            } else {
                Seq::empty()
            }) + self.pressed_range(lo + 1, hi)
        }
    }

    /// The codes of all pressed non-modifier keys, in ascending order.
    pub open spec fn spec_report_keys(self) -> Seq<u8> {
        self.pressed_range(0, MODIFIER_BASE as int)
    }

    /// What key slot `i` (numbering the six report slots from zero) of the
    /// six-key report holds: the `i`-th lowest pressed non-modifier code,
    /// or zero when fewer keys are pressed.
    pub open spec fn spec_report_slot(self, i: int) -> u8 {
        if 0 <= i < self.spec_report_keys().len() && i < 6 {
            self.spec_report_keys()[i]
        } else {
            0
        }
    }

    /// The modifier byte of the six-key report: bit `j` stands for the
    /// modifier key with code `0xE0 + j`.
    pub open spec fn spec_modifier_byte(self) -> u8 {
        (self.keys.data[7] & 0xff) as u8
    }
}

impl KeyState {
    /// Serializes the key state into the fixed six-key report layout:
    /// byte 0 carries the modifier keys as a bitmap, byte 1 is reserved,
    /// and bytes 2 to 7 carry the up to six pressed non-modifier keys
    /// with the lowest codes, in ascending order, zero-filled.
    pub fn to_6kro(&self) -> (r: SixKeySet)
        ensures
            r@[0] == self.spec_modifier_byte(),
            r@[1] == 0,
            forall|i: int| 0 <= i < 6 ==> #[trigger] r@[2 + i] == self.spec_report_slot(i),
    {
        let mut six_keys = [0u8; 8];
        // The modifier byte is the low byte of the bitmap word that holds
        // the modifier range starting at code 0xE0.
        six_keys[0] = (self.keys.data[7] & 0xff) as u8;

        // Scan the bitmap and collect the first six non-modifier keys.
        let ghost report = self.spec_report_keys();
        let mut count: usize = 0;
        let mut iter = self.keys.iter();
        let mut done = false;
        while !done
            invariant
                report == self.spec_report_keys(),
                iter.bitmap == &self.keys,
                iter.pos <= 256,
                count <= 6,
                !done ==> iter.pos <= MODIFIER_BASE as int && count < 6,
                count == self.pressed_range(0, if iter.pos <= MODIFIER_BASE as int {
                    iter.pos as int
                } else {
                    MODIFIER_BASE as int
                }).len(),
                forall|i: int|
                    0 <= i < count ==> #[trigger] six_keys@[2 + i] == self.pressed_range(
                        0,
                        if iter.pos <= MODIFIER_BASE as int {
                            iter.pos as int
                        } else {
                            MODIFIER_BASE as int
                        },
                    )[i],
                six_keys@[0] == self.spec_modifier_byte(),
                six_keys@[1] == 0,
                forall|i: int| 2 + count <= i < 8 ==> six_keys@[i] == 0,
                done ==> count == (if report.len() < 6 {
                    report.len() as int
                } else {
                    6
                }),
                done ==> (forall|i: int| 0 <= i < count ==> #[trigger] six_keys@[2 + i]
                    == report[i]),
            decreases (if done {
                0int
            } else {
                257 - iter.pos
            }),
        {
            let ghost pos0 = iter.pos as int;
            match iter.next() {
                Some(key) => {
                    if key >= MODIFIER_BASE as usize {
                        // Only modifiers and pseudo-codes remain; they
                        // never occupy the key slots.
                        proof {
                            lemma_pressed_range_none(*self, pos0, MODIFIER_BASE as int);
                            lemma_pressed_range_split(*self, 0, pos0, MODIFIER_BASE as int);
                            assert(report =~= self.pressed_range(0, pos0));
                        }
                        done = true;
                    } else {
                        six_keys[2 + count] = key as u8;
                        count = count + 1;
                        proof {
                            lemma_pressed_range_none(*self, pos0, key as int);
                            lemma_pressed_range_split(*self, 0, pos0, key as int);
                            lemma_pressed_range_split(*self, 0, key as int, key + 1);
                            reveal_with_fuel(KeyState::pressed_range, 2);
                            assert(self.pressed_range(key as int, key + 1) =~= seq![key as u8]);
                            assert(self.pressed_range(0, key + 1) =~= self.pressed_range(0, pos0)
                                + seq![key as u8]);
                        }
                        if count == 6 {
                            proof {
                                lemma_pressed_range_split(
                                    *self,
                                    0,
                                    key + 1,
                                    MODIFIER_BASE as int,
                                );
                                assert(report.len() >= 6);
                                assert forall|i: int| 0 <= i < 6 implies #[trigger] six_keys@[2
                                    + i] == report[i] by {
                                    assert(report[i] == self.pressed_range(0, key + 1)[i]);
                                }
                            }
                            done = true;
                        }
                    }
                },
                None => {
                    proof {
                        lemma_pressed_range_none(*self, pos0, MODIFIER_BASE as int);
                        lemma_pressed_range_split(*self, 0, pos0, MODIFIER_BASE as int);
                        assert(report =~= self.pressed_range(0, pos0));
                    }
                    done = true;
                },
            }
        }
        proof {
            assert forall|i: int| 0 <= i < 6 implies #[trigger] six_keys@[2 + i]
                == self.spec_report_slot(i) by {
                if i < count {
                } else {
                    assert(six_keys@[2 + i] == 0);
                }
            }
        }
        six_keys
    }
}

/// Splitting a pressed-key range at any point concatenates the parts.
proof fn lemma_pressed_range_split(s: KeyState, lo: int, mid: int, hi: int)
    requires
        lo <= mid <= hi,
    ensures
        s.pressed_range(lo, hi) == s.pressed_range(lo, mid) + s.pressed_range(mid, hi),
    decreases mid - lo,
{
    if lo >= mid {
        assert(s.pressed_range(lo, mid) == Seq::<u8>::empty());
        assert(s.pressed_range(lo, hi) =~= s.pressed_range(lo, mid) + s.pressed_range(mid, hi));
    } else {
        lemma_pressed_range_split(s, lo + 1, mid, hi);
        assert(s.pressed_range(lo, hi) =~= s.pressed_range(lo, mid) + s.pressed_range(mid, hi));
    }
}

/// A range without pressed keys contributes nothing.
proof fn lemma_pressed_range_none(s: KeyState, lo: int, hi: int)
    requires
        forall|i: int| lo <= i < hi ==> !s.spec_bit(i),
    ensures
        s.pressed_range(lo, hi) == Seq::<u8>::empty(),
    decreases hi - lo,
{
    if lo < hi {
        lemma_pressed_range_none(s, lo + 1, hi);
        assert(s.pressed_range(lo, hi) =~= Seq::<u8>::empty());
    }
}

/// Every code a pressed-key range reports lies in the range and is
/// pressed.
proof fn lemma_pressed_range_elems(s: KeyState, lo: int, hi: int)
    requires
        0 <= lo,
        hi <= 256,
    ensures
        forall|i: int|
            0 <= i < s.pressed_range(lo, hi).len() ==> lo <= #[trigger] s.pressed_range(lo, hi)[i]
                < hi && s.spec_bit(s.pressed_range(lo, hi)[i] as int),
    decreases hi - lo,
{
    if lo < hi {
        lemma_pressed_range_elems(s, lo + 1, hi);
        let whole = s.pressed_range(lo, hi);
        let rest = s.pressed_range(lo + 1, hi);
        assert forall|i: int|
            0 <= i < whole.len() implies lo <= #[trigger] whole[i] < hi && s.spec_bit(
            whole[i] as int,
        ) by {
            if s.spec_bit(lo) {
                if i == 0 {
                    assert(whole[i] == lo as u8);
                } else {
                    assert(whole[i] == rest[i - 1]);
                }
            } else {
                assert(whole[i] == rest[i]);
            }
        }
    }
}

/// Ascending walk over the pressed keys of a [`KeyState`].
pub struct KeyIter<'a> {
    pub bitmap_iter: BitmapIter<'a>,
}

impl<'a> KeyIter<'a> {
    /// Returns the pressed key with the lowest code at or above the
    /// current position and advances past it, or `None` once none
    /// remains.
    pub fn next(&mut self) -> (r: Option<ScanCode>)
        ensures
            final (self).bitmap_iter.bitmap == old(self).bitmap_iter.bitmap,
            match r {
                Some(key) => {
                    let k = final (self).bitmap_iter.pos - 1;
                    old(self).bitmap_iter.pos <= k < 256 && old(self).bitmap_iter.bitmap.spec_bit(
                        k,
                    ) && (forall|i: int|
                        old(self).bitmap_iter.pos <= i < k ==> !old(
                            self,
                        ).bitmap_iter.bitmap.spec_bit(i)) && key == ScanCode::spec_from_code(
                        k as u8,
                    )
                },
                None => final (self).bitmap_iter.pos >= 256 && (forall|i: int|
                    old(self).bitmap_iter.pos <= i < 256 ==> !old(self).bitmap_iter.bitmap.spec_bit(
                        i,
                    )),
            },
    {
        match self.bitmap_iter.next() {
            Some(key) => Some(ScanCode::from_code(key as u8)),
            None => None,
        }
    }
}

/// A pressed-key range lists its codes in strictly ascending order.
proof fn lemma_pressed_range_ascending(s: KeyState, lo: int, hi: int)
    requires
        0 <= lo,
        hi <= 256,
    ensures
        forall|i: int, j: int|
            0 <= i < j < s.pressed_range(lo, hi).len() ==> #[trigger] s.pressed_range(lo, hi)[i]
                < #[trigger] s.pressed_range(lo, hi)[j],
    decreases hi - lo,
{
    if lo < hi {
        lemma_pressed_range_ascending(s, lo + 1, hi);
        lemma_pressed_range_elems(s, lo + 1, hi);
        let whole = s.pressed_range(lo, hi);
        let rest = s.pressed_range(lo + 1, hi);
        assert forall|i: int, j: int|
            0 <= i < j < whole.len() implies #[trigger] whole[i] < #[trigger] whole[j] by {
            if s.spec_bit(lo) {
                assert(whole[j] == rest[j - 1]);
                if i == 0 {
                    assert(whole[i] == lo as u8);
                    assert(lo + 1 <= rest[j - 1]);
                } else {
                    assert(whole[i] == rest[i - 1]);
                }
            } else {
                assert(whole[i] == rest[i] && whole[j] == rest[j]);
            }
        }
    }
}

/// The key slots of the six-key report hold the pressed non-modifier
/// keys in strictly ascending code order: within one cycle, the report
/// depends on which keys are down, never on when they went down.
pub proof fn lemma_report_keys_ascending(s: KeyState)
    ensures
        forall|i: int, j: int|
            0 <= i < j < s.spec_report_keys().len() ==> #[trigger] s.spec_report_keys()[i]
                < #[trigger] s.spec_report_keys()[j],
{
    lemma_pressed_range_ascending(s, 0, MODIFIER_BASE as int);
}

/// Two key states with the same pressed keys are equal. Together with the
/// contract of [`KeyState::set_key`] this says that the order in which
/// keys are pressed within one cycle is irrelevant: any order leaves the
/// same key state, and so the same six-key report.
pub proof fn lemma_keys_determine_key_state(a: KeyState, b: KeyState)
    requires
        forall|i: int| #[trigger] a.spec_bit(i) == b.spec_bit(i),
    ensures
        a == b,
{
    assert forall|i: int| #[trigger] a.keys.spec_bit(i) == b.keys.spec_bit(i) by {
        assert(a.spec_bit(i) == b.spec_bit(i));
    }
    lemma_bits_determine_bitmap(a.keys, b.keys);
}

/// The six-key report is a function of the key state alone: any two
/// reports that satisfy the contract of [`KeyState::to_6kro`] for the
/// same state are byte-for-byte equal, so re-serializing an unchanged
/// state reproduces the report.
pub proof fn lemma_report_deterministic(s: KeyState, r1: SixKeySet, r2: SixKeySet)
    requires
        r1@[0] == s.spec_modifier_byte(),
        r1@[1] == 0,
        forall|i: int| 0 <= i < 6 ==> #[trigger] r1@[2 + i] == s.spec_report_slot(i),
        r2@[0] == s.spec_modifier_byte(),
        r2@[1] == 0,
        forall|i: int| 0 <= i < 6 ==> #[trigger] r2@[2 + i] == s.spec_report_slot(i),
    ensures
        r1 == r2,
{
    assert forall|i: int| 0 <= i < 8 implies r1[i] == r2[i] by {
        if 2 <= i {
            assert(r1@[2 + (i - 2)] == s.spec_report_slot(i - 2));
            assert(r2@[2 + (i - 2)] == s.spec_report_slot(i - 2));
        }
    }
    assert(r1 =~= r2);
}

/// The key slots of the six-key report never hold a modifier key: every
/// non-zero slot is the code of a pressed non-modifier key, and modifier
/// bits appear only in the report's first byte.
pub proof fn lemma_report_slots_non_modifier(s: KeyState, i: int)
    requires
        0 <= i < 6,
    ensures
        s.spec_report_slot(i) < MODIFIER_BASE,
        s.spec_report_slot(i) != 0 ==> s.spec_bit(s.spec_report_slot(i) as int),
{
    lemma_pressed_range_elems(s, 0, MODIFIER_BASE as int);
}

/// Bit `j` of the report's modifier byte is exactly the state of the
/// modifier key with code `0xE0 + j`.
pub proof fn lemma_modifier_byte_bits(s: KeyState, j: u8)
    requires
        j < 8,
    ensures
        byte_bit(s.spec_modifier_byte(), j) == s.spec_bit(MODIFIER_BASE as int + j),
{
    lemma_word_low_byte(s.keys.data[7]);
    vstd::arithmetic::div_mod::lemma_fundamental_div_mod_converse(
        MODIFIER_BASE as int + j,
        32,
        7,
        j as int,
    );
}

/// Two bitmaps with the same bits are equal.
pub proof fn lemma_bits_determine_bitmap(a: Bitmap, b: Bitmap)
    requires
        forall|i: int| #[trigger] a.spec_bit(i) == b.spec_bit(i),
    ensures
        a == b,
{
    assert forall|w: int| 0 <= w < 8 implies a.data[w] == b.data[w] by {
        assert forall|j: u32| j < 32 implies #[trigger] word_bit(a.data[w], j) == word_bit(
            b.data[w],
            j,
        ) by {
            let i = w * 32 + j;
            assert(a.spec_bit(i) == b.spec_bit(i));
            assert(i / 32 == w && i % 32 == j as int) by {
                vstd::arithmetic::div_mod::lemma_fundamental_div_mod_converse(i, 32, w, j as int);
            }
        }
        lemma_word_bits_unique(a.data[w], b.data[w]);
    }
    assert(a.data =~= b.data);
}

} // verus!
