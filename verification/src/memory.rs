//! Flat, fixed-size, byte-addressable memory with bounds-checked byte and
//! little-endian word access.

use crate::error::VmError;
use vstd::prelude::*;

verus! {

/// The low byte of a word: the one stored at the lower address.
pub open spec fn low_byte(word: u16) -> u8 {
    (word % 256) as u8
}

/// The high byte of a word: the one stored at the higher address.
pub open spec fn high_byte(word: u16) -> u8 {
    (word / 256) as u8
}

/// The word whose low byte is `low` and whose high byte is `high`.
pub open spec fn word_of(low: u8, high: u8) -> u16 {
    (low + 256 * high) as u16
}

/// Whether a single byte at `address` lies inside `bytes`.
pub open spec fn byte_in_bounds(bytes: Seq<u8>, address: int) -> bool {
    0 <= address < bytes.len()
}

/// Whether the two bytes of a word at `address` lie inside `bytes`.
pub open spec fn word_in_bounds(bytes: Seq<u8>, address: int) -> bool {
    0 <= address && address + 1 < bytes.len()
}

/// The fault reported for an access at `address`.
pub open spec fn out_of_bounds(address: int) -> VmError {
    VmError::OutOfBounds { address: address as usize }
}

/// Reading one byte.
pub open spec fn read_byte_spec(bytes: Seq<u8>, address: int) -> Result<u8, VmError> {
    if byte_in_bounds(bytes, address) {
        Ok(bytes[address])
    } else {
        Err(out_of_bounds(address))
    }
}

/// Reading one little-endian word.
pub open spec fn read_word_spec(bytes: Seq<u8>, address: int) -> Result<u16, VmError> {
    if word_in_bounds(bytes, address) {
        Ok(word_of(bytes[address], bytes[address + 1]))
    } else {
        Err(out_of_bounds(address))
    }
}

/// The contents after writing one byte; unchanged when out of bounds.
pub open spec fn write_byte_spec(bytes: Seq<u8>, address: int, value: u8) -> Seq<u8> {
    if byte_in_bounds(bytes, address) {
        bytes.update(address, value)
    } else {
        bytes
    }
}

/// The contents after writing one little-endian word; unchanged when out of
/// bounds.
pub open spec fn write_word_spec(bytes: Seq<u8>, address: int, value: u16) -> Seq<u8> {
    if word_in_bounds(bytes, address) {
        bytes.update(address, low_byte(value)).update(address + 1, high_byte(value))
    } else {
        bytes
    }
}

/// A fixed-size buffer of bytes. Its view is the sequence of its bytes in
/// address order.
pub struct Memory {
    data: Vec<u8>,
}

impl View for Memory {
    type V = Seq<u8>;

    closed spec fn view(&self) -> Seq<u8> {
        self.data@
    }
}

impl Memory {
    /// The size of a memory fits in a `usize`.
    pub proof fn lemma_size_fits(&self)
        ensures
            self@.len() <= usize::MAX,
    {
        assert(self.data.len() == self.data@.len());
    }

    /// A zero-filled memory of `size` bytes.
    pub fn new(size: usize) -> (memory: Memory)
        ensures
            memory@.len() == size,
            forall|i: int| 0 <= i < size ==> memory@[i] == 0,
    {
        Memory { data: vec![0u8; size] }
    }

    /// A memory holding exactly `bytes`.
    pub fn from_bytes(bytes: Vec<u8>) -> (memory: Memory)
        ensures
            memory@ == bytes@,
    {
        Memory { data: bytes }
    }

    /// The number of bytes.
    pub fn size(&self) -> (size: usize)
        ensures
            size == self@.len(),
    {
        self.data.len()
    }

    /// Stores `value` at `address` and returns the number of bytes written.
    pub fn write_byte(&mut self, address: usize, value: u8) -> (written: Result<usize, VmError>)
        ensures
            final(self)@ == write_byte_spec(old(self)@, address as int, value),
            written == if byte_in_bounds(old(self)@, address as int) {
                Ok::<usize, VmError>(1)
            } else {
                Err::<usize, VmError>(out_of_bounds(address as int))
            },
    {
        if address >= self.data.len() {
            return Err(VmError::OutOfBounds { address });
        }
        self.data[address] = value;
        Ok(1)
    }

    /// The byte at `address`.
    pub fn read_byte(&self, address: usize) -> (byte: Result<u8, VmError>)
        ensures
            byte == read_byte_spec(self@, address as int),
    {
        if address >= self.data.len() {
            return Err(VmError::OutOfBounds { address });
        }
        Ok(self.data[address])
    }

    /// Stores `value` at `address` and `address + 1`, low byte first, and
    /// returns the number of bytes written.
    pub fn write_word(&mut self, address: usize, value: u16) -> (written: Result<usize, VmError>)
        ensures
            final(self)@ == write_word_spec(old(self)@, address as int, value),
            written == if word_in_bounds(old(self)@, address as int) {
                Ok::<usize, VmError>(2)
            } else {
                Err::<usize, VmError>(out_of_bounds(address as int))
            },
    {
        let size: usize = self.data.len();
        if address >= size || size - address < 2 {
            return Err(VmError::OutOfBounds { address });
        }
        assert(value as u8 == value % 256) by (bit_vector);
        assert((value >> 8) as u8 == value / 256) by (bit_vector);
        self.data[address] = value as u8;
        self.data[address + 1] = (value >> 8) as u8;
        Ok(2)
    }

    /// Replaces the whole buffer with `bytes`; the size becomes their number.
    pub fn load_from_bytes(&mut self, bytes: Vec<u8>)
        ensures
            final(self)@ == bytes@,
    {
        self.data = bytes;
    }

    /// A copy of the buffer, one byte per address, in address order.
    pub fn dump_to_bytes(&self) -> (bytes: Vec<u8>)
        ensures
            bytes@ == self@,
    {
        self.data.clone()
    }

    /// The addresses from `from` up to but excluding `to`, each paired with
    /// the byte stored there.
    pub fn hexdump(&self, from: usize, to: usize) -> (rows: Vec<(usize, u8)>)
        requires
            from <= to <= self@.len(),
        ensures
            rows@.len() == to - from,
            forall|i: int| 0 <= i < to - from ==> rows@[i] == (((from + i) as usize, self@[from + i])),
    {
        let mut rows: Vec<(usize, u8)> = Vec::new();
        let mut address: usize = from;
        while address < to
            invariant
                from <= address <= to <= self@.len(),
                rows@.len() == address - from,
                forall|i: int| 0 <= i < address - from ==> rows@[i] == (((from + i) as usize, self@[from + i])),
            decreases to - address,
        {
            rows.push((address, self.data[address]));
            address += 1;
        }
        rows
    }

    /// The word stored at `address` and `address + 1`, low byte first.
    pub fn read_word(&self, address: usize) -> (word: Result<u16, VmError>)
        ensures
            word == read_word_spec(self@, address as int),
    {
        let size: usize = self.data.len();
        if address >= size || size - address < 2 {
            return Err(VmError::OutOfBounds { address });
        }
        let low: u8 = self.data[address];
        let high: u8 = self.data[address + 1];
        assert(low as u16 | ((high as u16) << 8) == low + 256 * high) by (bit_vector);
        Ok(low as u16 | ((high as u16) << 8))
    }
}

/// A byte written inside memory is the byte read back from the same address.
pub proof fn lemma_byte_round_trip(bytes: Seq<u8>, address: int, value: u8)
    requires
        byte_in_bounds(bytes, address),
    ensures
        read_byte_spec(write_byte_spec(bytes, address, value), address) == Ok::<u8, VmError>(value),
{
}

/// A word is the one assembled from its own low and high bytes.
pub proof fn lemma_word_of_bytes(word: u16)
    ensures
        word_of(low_byte(word), high_byte(word)) == word,
{
}

/// A word written inside memory is the word read back from the same address.
pub proof fn lemma_word_round_trip(bytes: Seq<u8>, address: int, value: u16)
    requires
        word_in_bounds(bytes, address),
    ensures
        read_word_spec(write_word_spec(bytes, address, value), address) == Ok::<u16, VmError>(value),
{
    lemma_word_of_bytes(value);
}

/// A word occupies two bytes, low byte first: reading the two bytes of a
/// written word one by one yields its low and its high byte.
pub proof fn lemma_word_is_little_endian(bytes: Seq<u8>, address: int, value: u16)
    requires
        word_in_bounds(bytes, address),
    ensures
        read_byte_spec(write_word_spec(bytes, address, value), address) == Ok::<u8, VmError>(
            low_byte(value),
        ),
        read_byte_spec(write_word_spec(bytes, address, value), address + 1) == Ok::<u8, VmError>(
            high_byte(value),
        ),
        write_word_spec(bytes, address, value).len() == bytes.len(),
{
}

/// Writing a byte or a word leaves every other address as it was.
pub proof fn lemma_write_is_local(bytes: Seq<u8>, address: int, byte: u8, word: u16, other: int)
    requires
        0 <= other < bytes.len(),
    ensures
        other != address ==> write_byte_spec(bytes, address, byte)[other] == bytes[other],
        other != address && other != address + 1 ==> write_word_spec(bytes, address, word)[other]
            == bytes[other],
        write_byte_spec(bytes, address, byte).len() == bytes.len(),
        write_word_spec(bytes, address, word).len() == bytes.len(),
{
}

} // verus!
