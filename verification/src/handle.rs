//! 32-bit generational handles: an index in the low bits and a generation in
//! the bits above it. The index field is as wide as it must be to count up to
//! `MIN_COUNT`.
use vstd::prelude::*;
use vstd::std_specs::bits::{axiom_u32_leading_zeros, u32_leading_zeros};

verus! {

/// Why a handle could not be made.
#[derive(Debug, Clone, Copy, PartialEq, Eq, Structural)]
pub enum Error {
    NullHandle,
    IndexOutOfRange,
    GenerationOutOfRange,
}

/// A 32-bit handle whose index can hold at least `MIN_COUNT`.
#[derive(Clone, Copy, Debug, PartialEq, Eq)]
pub struct Handle32<const MIN_COUNT: u32> {
    value: u32,
}

impl<const MIN_COUNT: u32> Default for Handle32<MIN_COUNT> {
    /// The null handle: raw value 0, index 0, generation 0.
    fn default() -> (r: Self)
        ensures
            r.spec_value() == 0,
    {
        Handle32 { value: 0 }
    }
}

/// The index and generation fields cannot take up all 32 bits: `MIN_COUNT`
/// must be below `2^31`.
pub open spec fn valid_min_count(min_count: u32) -> bool {
    min_count < 0x8000_0000
}

/// The number of bits of the index field for `min_count`: the number of
/// significant bits of `min_count`.
pub open spec fn index_bits(min_count: u32) -> u32 {
    (32 - u32_leading_zeros(min_count)) as u32
}

/// The largest index for `min_count`.
pub open spec fn index_max(min_count: u32) -> u32 {
    ((1u32 << index_bits(min_count)) - 1) as u32
}

/// The bound that generations are checked against: the bits above the index
/// field.
pub open spec fn generation_max(min_count: u32) -> u32 {
    !index_max(min_count)
}

/// The raw value of the handle with `index` and `generation`; generation bits
/// shifted past bit 31 are lost.
pub open spec fn pack(min_count: u32, index: u32, generation: u32) -> u32 {
    index | (generation << index_bits(min_count))
}

proof fn lemma_index_bits(min_count: u32)
    requires
        valid_min_count(min_count),
    ensures
        index_bits(min_count) < 32,
        index_bits(min_count) == 0 <==> min_count == 0,
{
    axiom_u32_leading_zeros(min_count);
    let lz = u32_leading_zeros(min_count);
    if lz == 0 {
        assert((min_count >> 31u32) & 1u32 != 0u32 ==> min_count >= 0x8000_0000u32) by (bit_vector);
    }
}

impl<const MIN_COUNT: u32> Handle32<MIN_COUNT> {
    /// The handle's raw value.
    pub closed spec fn spec_value(self) -> u32 {
        self.value
    }

    /// The handle's index: the low `index_bits` bits.
    pub open spec fn spec_index(self) -> u32 {
        self.spec_value() & index_max(MIN_COUNT)
    }

    /// The handle's generation: the bits above the index.
    pub open spec fn spec_generation(self) -> u32 {
        self.spec_value() >> index_bits(MIN_COUNT)
    }

    fn bits() -> (r: u32)
        requires
            valid_min_count(MIN_COUNT),
        ensures
            r == index_bits(MIN_COUNT),
            r < 32,
    {
        proof {
            lemma_index_bits(MIN_COUNT);
            axiom_u32_leading_zeros(MIN_COUNT);
        }
        32 - MIN_COUNT.leading_zeros()
    }

    fn max_index() -> (r: u32)
        requires
            valid_min_count(MIN_COUNT),
        ensures
            r == index_max(MIN_COUNT),
    {
        let bits = Self::bits();
        assert(bits < 32 ==> 1u32 << bits >= 1u32) by (bit_vector);
        (1u32 << bits) - 1
    }

    /// A handle with index `value` and generation `generation`.
    ///
    /// - [`Error::IndexOutOfRange`] if `value` exceeds the largest index.
    /// - [`Error::GenerationOutOfRange`] if `generation` exceeds
    ///   `!index_max`.
    pub fn new(value: usize, generation: usize) -> (r: Result<Self, Error>)
        requires
            valid_min_count(MIN_COUNT),
        ensures
            value > index_max(MIN_COUNT) ==> r == Err::<Self, Error>(Error::IndexOutOfRange),
            value <= index_max(MIN_COUNT) && generation > generation_max(MIN_COUNT) ==> r == Err::<
                Self,
                Error,
            >(Error::GenerationOutOfRange),
            value <= index_max(MIN_COUNT) && generation <= generation_max(MIN_COUNT) ==> (r matches Ok(
                h,
            ) && h.spec_value() == pack(MIN_COUNT, value as u32, generation as u32)),
    {
        let bits = Self::bits();
        let index_max = Self::max_index();
        if value > index_max as usize {
            return Err(Error::IndexOutOfRange);
        }
        if generation > !index_max as usize {
            return Err(Error::GenerationOutOfRange);
        }
        let i = value as u32;
        let g = generation as u32;
        Ok(Self { value: i | (g << bits) })
    }

    /// A handle with index `index` and generation 1.
    pub fn new_index(index: usize) -> (r: Result<Self, Error>)
        requires
            valid_min_count(MIN_COUNT),
        ensures
            index > index_max(MIN_COUNT) ==> r == Err::<Self, Error>(Error::IndexOutOfRange),
            index <= index_max(MIN_COUNT) ==> (r matches Ok(h) && h.spec_value() == pack(
                MIN_COUNT,
                index as u32,
                1,
            )),
    {
        let bits = Self::bits();
        let index_max = Self::max_index();
        if index > index_max as usize {
            return Err(Error::IndexOutOfRange);
        }
        let i = index as u32;
        Ok(Self { value: i | (1 << bits) })
    }

    /// The handle with raw value `raw`.
    pub fn from_raw_value(raw: u32) -> (r: Self)
        ensures
            r.spec_value() == raw,
    {
        Self { value: raw }
    }

    /// The handle whose raw value is 0.
    pub fn null() -> (r: Self)
        ensures
            r.spec_value() == 0,
    {
        Self { value: 0 }
    }

    /// Whether the raw value is not 0.
    pub fn is_null(&self) -> (r: bool)
        ensures
            r == (self.spec_value() != 0),
    {
        self.value != 0
    }

    pub fn raw_value(&self) -> (r: u32)
        ensures
            r == self.spec_value(),
    {
        self.value
    }

    pub fn index(&self) -> (r: usize)
        requires
            valid_min_count(MIN_COUNT),
        ensures
            r == self.spec_index(),
    {
        (self.value & Self::max_index()) as usize
    }

    pub fn generation(&self) -> (r: usize)
        requires
            valid_min_count(MIN_COUNT),
        ensures
            r == self.spec_generation(),
    {
        (self.value >> Self::bits()) as usize
    }

    /// Moves the handle on to the next generation, keeping its index.
    /// [`Error::GenerationOutOfRange`], with the handle unchanged, if the next
    /// generation would exceed `!index_max`.
    pub fn inc_generation(&mut self) -> (r: Result<(), Error>)
        requires
            valid_min_count(MIN_COUNT),
        ensures
            old(self).spec_generation() + 1 > generation_max(MIN_COUNT) ==> r == Err::<(), Error>(
                Error::GenerationOutOfRange,
            ) && *final(self) == *old(self),
            old(self).spec_generation() + 1 <= generation_max(MIN_COUNT) ==> r == Ok::<(), Error>(())
                && final(self).spec_value() == pack(
                MIN_COUNT,
                old(self).spec_index(),
                (old(self).spec_generation() + 1) as u32,
            ),
    {
        let current = self.generation();
        let max = !Self::max_index();
        if current >= max as usize {
            return Err(Error::GenerationOutOfRange);
        }
        let gen = current + 1;
        proof {
            lemma_index_bits(MIN_COUNT);
            let b = index_bits(MIN_COUNT);
            let v = self.value;
            assert(b < 32 ==> v & (((1u32 << b) - 1) as u32) <= (((1u32 << b) - 1) as u32)) by (bit_vector);
        }
        match Self::new(self.index(), gen) {
            Ok(h) => {
                *self = h;
                Ok(())
            },
            Err(e) => Err(e),
        }
    }
}

/// The index and the generation that a handle is made with read back
/// unchanged, as long as the generation fits in the bits above the index.
pub proof fn lemma_new_roundtrip(min_count: u32, index: u32, generation: u32)
    requires
        valid_min_count(min_count),
        index <= index_max(min_count),
        generation <= (0xffff_ffffu32 >> index_bits(min_count)),
    ensures
        pack(min_count, index, generation) & index_max(min_count) == index,
        pack(min_count, index, generation) >> index_bits(min_count) == generation,
{
    lemma_index_bits(min_count);
    let b = index_bits(min_count);
    assert(b < 32 && index <= ((1u32 << b) - 1) as u32 && generation <= (0xffff_ffffu32 >> b) ==> (
    index | (generation << b)) & (((1u32 << b) - 1) as u32) == index) by (bit_vector);
    assert(b < 32 && index <= ((1u32 << b) - 1) as u32 && generation <= (0xffff_ffffu32 >> b) ==> (
    index | (generation << b)) >> b == generation) by (bit_vector);
}

/// The null handle has index 0 and generation 0.
pub proof fn lemma_null_is_zero(min_count: u32)
    requires
        valid_min_count(min_count),
    ensures
        0u32 & index_max(min_count) == 0,
        0u32 >> index_bits(min_count) == 0,
{
    lemma_index_bits(min_count);
    let b = index_bits(min_count);
    let m = index_max(min_count);
    assert(0u32 & m == 0) by (bit_vector);
    assert(b < 32 ==> 0u32 >> b == 0) by (bit_vector);
}

/// Moving on to the next generation keeps the index and adds one to the
/// generation, as long as the next generation fits above the index.
pub proof fn lemma_next_generation(min_count: u32, value: u32)
    requires
        valid_min_count(min_count),
        (value >> index_bits(min_count)) + 1 <= (0xffff_ffffu32 >> index_bits(min_count)),
    ensures
        ({
            let next = pack(
                min_count,
                value & index_max(min_count),
                ((value >> index_bits(min_count)) + 1) as u32,
            );
            &&& next & index_max(min_count) == value & index_max(min_count)
            &&& next >> index_bits(min_count) == (value >> index_bits(min_count)) + 1
        }),
{
    lemma_index_bits(min_count);
    let b = index_bits(min_count);
    assert(b < 32 ==> value & (((1u32 << b) - 1) as u32) <= (((1u32 << b) - 1) as u32)) by (bit_vector);
    lemma_new_roundtrip(
        min_count,
        value & index_max(min_count),
        ((value >> index_bits(min_count)) + 1) as u32,
    );
}

} // verus!
