use vstd::prelude::*;

verus! {

/// A 16-bit address held as its low byte and its high byte.
#[derive(Clone, Copy, Debug, PartialEq, Eq, Structural)]
pub struct Word(pub u8, pub u8);

/// Whether an offset applied to a word stayed inside its 256-byte page.
#[derive(Clone, Copy, Debug, PartialEq, Eq, Structural)]
pub enum OffsetResult {
    SamePage,
    /// The page was crossed; holds the word with the low byte already
    /// offset but the high byte not yet adjusted.
    CrossedPage(Word),
}

/// The address that a low and a high byte stand for.
pub open spec fn word_value(low: u8, high: u8) -> nat {
    (low + 256 * high) as nat
}

/// The word whose low byte and high byte make up `value`.
pub open spec fn word_from_u16(value: u16) -> Word {
    Word((value % 256) as u8, (value / 256) as u8)
}

impl Word {
    /// The 16-bit address that this word stands for.
    pub open spec fn value(self) -> nat {
        word_value(self.0, self.1)
    }

    /// The word for an address in the zero page.
    pub fn zero_page(zero_page_address: u8) -> (w: Self)
        ensures
            w == Word(zero_page_address, 0),
            w.value() == zero_page_address,
    {
        Word(zero_page_address, 0)
    }

    /// The word for a stack pointer: an address in page one.
    pub fn stack_page(stack_pointer: u8) -> (w: Self)
        ensures
            w == Word(stack_pointer, 1),
            w.value() == 0x100 + stack_pointer,
    {
        Word(stack_pointer, 1)
    }

    /// Adds `offset` to the low byte only; the high byte never changes.
    pub fn same_page_add(&self, offset: u8) -> (w: Self)
        ensures
            w.0 == (self.0 + offset) % 256,
            w.1 == self.1,
    {
        let Word(low, high) = *self;
        Word(low.wrapping_add(offset), high)
    }

    /// Adds `offset` to the word, carrying into the high byte. When the page
    /// is crossed, the result also says what the word was with the low byte
    /// added and the carry not yet applied.
    pub fn paged_add(&self, offset: u8) -> (res: (Word, OffsetResult))
        ensures
            res.0.value() == (self.value() + offset) % 0x10000,
            res.0.0 == (self.0 + offset) % 256,
            res.0.1 == if self.0 + offset >= 256 { (self.1 + 1) % 256 } else { self.1 as int },
            res.1 == if self.0 + offset >= 256 {
                OffsetResult::CrossedPage(Word(((self.0 + offset) % 256) as u8, self.1))
            } else {
                OffsetResult::SamePage
            },
    {
        let Word(low, high) = *self;
        let carried = low as u16 + offset as u16 > 0xff;
        let low = low.wrapping_add(offset);
        if carried {
            let intermediate = Word(low, high);
            let high = high.wrapping_add(1);
            (Word(low, high), OffsetResult::CrossedPage(intermediate))
        } else {
            (Word(low, high), OffsetResult::SamePage)
        }
    }

    /// Adds `offset` to the low byte and borrows from the high byte unless
    /// that addition carried: the word moves by `offset - 256`. Used with the
    /// two's complement encoding of a negative offset.
    pub fn paged_subtract(&self, offset: u8) -> (res: (Word, OffsetResult))
        ensures
            res.0.value() == (self.value() + offset + 0xff00) % 0x10000,
            res.0.0 == (self.0 + offset) % 256,
            res.0.1 == if self.0 + offset >= 256 { self.1 as int } else { (self.1 + 255) % 256 },
            res.1 == if self.0 + offset >= 256 {
                OffsetResult::SamePage
            } else {
                OffsetResult::CrossedPage(Word(((self.0 + offset) % 256) as u8, self.1))
            },
    {
        let Word(low, high) = *self;
        let carried = low as u16 + offset as u16 > 0xff;
        let low = low.wrapping_add(offset);
        if !carried {
            let intermediate = Word(low, high);
            let high = high.wrapping_sub(1);
            (Word(low, high), OffsetResult::CrossedPage(intermediate))
        } else {
            (Word(low, high), OffsetResult::SamePage)
        }
    }

    /// The word relative to page `base`: the high byte less `base`.
    pub fn rebased_to(&self, base: u8) -> (w: Self)
        requires
            self.1 >= base,
        ensures
            w == Word(self.0, (self.1 - base) as u8),
            w.value() == self.value() - 256 * base,
    {
        Word(self.0, self.1 - base)
    }

    /// Moves the word on by one, wrapping from 0xffff to 0x0000.
    pub fn increment(&mut self)
        ensures
            final(self).value() == (old(self).value() + 1) % 0x10000,
            final(self).0 == (old(self).0 + 1) % 256,
            final(self).1 == if old(self).0 == 255 { (old(self).1 + 1) % 256 } else { old(self).1 as int },
    {
        let carried = self.0 == 0xff;
        self.0 = self.0.wrapping_add(1);
        if carried {
            self.1 = self.1.wrapping_add(1);
        }
    }
}

impl Default for Word {
    fn default() -> (w: Self)
        ensures
            w == Word(0, 0),
    {
        Word(0, 0)
    }
}

impl From<Word> for u16 {
    fn from(w: Word) -> (v: u16) {
        let Word(low, high) = w;
        proof {
            lemma_word_bits(low, high);
        }
        (high as u16) << 8 | low as u16
    }
}

impl vstd::std_specs::convert::FromSpecImpl<Word> for u16 {
    open spec fn obeys_from_spec() -> bool {
        true
    }

    open spec fn from_spec(w: Word) -> u16 {
        w.value() as u16
    }
}

impl From<u16> for Word {
    fn from(value: u16) -> (w: Word) {
        proof {
            lemma_split_bits(value);
        }
        Word((value & 0xff) as u8, (value >> 8) as u8)
    }
}

impl vstd::std_specs::convert::FromSpecImpl<u16> for Word {
    open spec fn obeys_from_spec() -> bool {
        true
    }

    open spec fn from_spec(value: u16) -> Word {
        word_from_u16(value)
    }
}

/// Converting a 16-bit value to a word and back gives the value again, and
/// converting a word to its 16-bit value and back gives the word again.
pub proof fn lemma_word_u16_round_trip(value: u16, w: Word)
    ensures
        word_from_u16(value).value() == value,
        w.value() < 0x10000,
        word_from_u16(w.value() as u16) == w,
{
}

/// Joining a low and a high byte with shifts gives the word's value.
proof fn lemma_word_bits(low: u8, high: u8)
    ensures
        (high as u16) << 8 | low as u16 == low + 256 * high,
{
    assert((high as u16) << 8 | low as u16 == low + 256 * high) by (bit_vector);
}

/// Masking and shifting a 16-bit value gives its low and high bytes.
proof fn lemma_split_bits(value: u16)
    ensures
        (value & 0xff) as u8 == value % 256,
        (value >> 8) as u8 == value / 256,
{
    assert((value & 0xff) as u8 == value % 256) by (bit_vector);
    assert((value >> 8) as u8 == value / 256) by (bit_vector);
}

} // verus!
