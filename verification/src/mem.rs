//! Flat byte-addressable memory with word-granular little-endian accessors.
//! Zero-initialized at a fixed capacity; the program image overwrites the
//! low end once, and store instructions mutate it afterwards.

use crate::bits::byte_of;
use vstd::prelude::*;

verus! {

/// A flat little-endian byte store of fixed capacity.
pub struct Memory {
    pub data: Vec<u8>,
}

/// Why loading a program image failed.
#[derive(Clone, Copy, Debug, PartialEq, Eq, Structural)]
pub enum LoadError {
    /// The image has more bytes than the memory has capacity.
    ImageTooLarge,
}

impl View for Memory {
    type V = Seq<u8>;

    open spec fn view(&self) -> Seq<u8> {
        self.data@
    }
}

/// The 32-bit word stored little-endian at byte address `a`.
pub open spec fn word_at(m: Seq<u8>, a: int) -> u32
    recommends
        0 <= a,
        a + 4 <= m.len(),
{
    (m[a] + m[a + 1] * 0x100 + m[a + 2] * 0x10000 + m[a + 3] * 0x1000000) as u32
}

/// The memory after storing `v` little-endian at byte address `a`.
pub open spec fn store_word(m: Seq<u8>, a: int, v: u32) -> Seq<u8>
    recommends
        0 <= a,
        a + 4 <= m.len(),
{
    m.update(a, byte_of(v, 0) as u8).update(a + 1, byte_of(v, 1) as u8).update(
        a + 2,
        byte_of(v, 2) as u8,
    ).update(a + 3, byte_of(v, 3) as u8)
}

impl Memory {
    /// A zero-initialized memory of `size` bytes.
    pub fn new(size: usize) -> (m: Memory)
        ensures
            m@.len() == size,
            forall|i: int| 0 <= i < size ==> m@[i] == 0u8,
    {
        let mut data: Vec<u8> = Vec::new();
        let mut n: usize = 0;
        while n < size
            invariant
                n <= size,
                data@.len() == n,
                forall|i: int| 0 <= i < n ==> data@[i] == 0u8,
            decreases size - n,
        {
            data.push(0);
            n = n + 1;
        }
        Memory { data }
    }

    /// Overwrite the low end of memory with a program image, byte for byte.
    /// Fails, leaving memory unchanged, iff the image is larger than the
    /// memory.
    pub fn load_binary(&mut self, image: &Vec<u8>) -> (r: Result<(), LoadError>)
        ensures
            r is Ok <==> image@.len() <= old(self)@.len(),
            final(self)@.len() == old(self)@.len(),
            r is Ok ==> final(self)@ == image@ + old(self)@.skip(image@.len() as int),
            r is Err ==> final(self)@ == old(self)@,
    {
        if image.len() > self.data.len() {
            return Err(LoadError::ImageTooLarge);
        }
        let mut k: usize = 0;
        while k < image.len()
            invariant
                k <= image@.len(),
                image@.len() <= self.data@.len(),
                self.data@.len() == old(self)@.len(),
                forall|i: int| 0 <= i < k ==> self.data@[i] == image@[i],
                forall|i: int|
                    k <= i < self.data@.len() ==> self.data@[i] == old(self)@[i],
            decreases image@.len() - k,
        {
            self.data[k] = image[k];
            k = k + 1;
        }
        proof {
            assert(self.data@ =~= image@ + old(self)@.skip(image@.len() as int));
        }
        Ok(())
    }

    /// Little-endian 32-bit read at `addr`.
    pub fn read_u32(&self, addr: usize) -> (v: u32)
        requires
            addr + 4 <= self@.len(),
        ensures
            v == word_at(self@, addr as int),
    {
        // the length call bounds addr + 3 within usize for the verifier
        let _n = self.data.len();
        let b0 = self.data[addr] as u32;
        let b1 = self.data[addr + 1] as u32;
        let b2 = self.data[addr + 2] as u32;
        let b3 = self.data[addr + 3] as u32;
        b0 + b1 * 0x100 + b2 * 0x10000 + b3 * 0x1000000
    }

    /// Little-endian 32-bit write at `addr`.
    pub fn write_u32(&mut self, addr: usize, val: u32)
        requires
            addr + 4 <= old(self)@.len(),
        ensures
            final(self)@ == store_word(old(self)@, addr as int, val),
    {
        // the length call bounds addr + 3 within usize for the verifier
        let _n = self.data.len();
        self.data[addr] = (val % 0x100) as u8;
        self.data[addr + 1] = (val / 0x100 % 0x100) as u8;
        self.data[addr + 2] = (val / 0x10000 % 0x100) as u8;
        self.data[addr + 3] = (val / 0x1000000) as u8;
    }
}

/// A word load at the address of an immediately preceding word store returns
/// the exact value stored, at any in-bounds address.
pub proof fn lemma_store_load_roundtrip(m: Seq<u8>, a: int, v: u32)
    requires
        0 <= a,
        a + 4 <= m.len(),
    ensures
        word_at(store_word(m, a, v), a) == v,
{
    let s = store_word(m, a, v);
    assert(s[a] == byte_of(v, 0) as u8);
    assert(s[a + 1] == byte_of(v, 1) as u8);
    assert(s[a + 2] == byte_of(v, 2) as u8);
    assert(s[a + 3] == byte_of(v, 3) as u8);
    assert(v % 0x100 + (v / 0x100 % 0x100) * 0x100 + (v / 0x10000 % 0x100) * 0x10000 + (v
        / 0x1000000) * 0x1000000 == v) by (bit_vector);
}

} // verus!
