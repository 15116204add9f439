//! The bytes of a loaded module, addressed as the target addresses them.
//!
//! Multi-byte values are little-endian. An access succeeds only where every
//! byte it touches lies inside the image and below the top of the target's
//! address space.

use vstd::prelude::*;
use crate::arch::Arch;

verus! {

/// The mathematical content of a [`Memory`]: where it starts and what it holds.
pub struct Image {
    pub arch: Arch,
    pub base: u64,
    pub bytes: Seq<u8>,
}

/// The memory of one module: `bytes[i]` is the byte at address `base + i`.
pub struct Memory {
    pub arch: Arch,
    pub base: u64,
    pub bytes: Vec<u8>,
}

impl View for Memory {
    type V = Image;

    open spec fn view(&self) -> Image {
        Image { arch: self.arch, base: self.base, bytes: self.bytes@ }
    }
}

/// Byte `k` of `value`, counting from the least significant.
pub open spec fn le_byte(value: u64, k: int) -> u8 {
    if k == 0 {
        (value % 0x100) as u8
    } else if k == 1 {
        (value / 0x100 % 0x100) as u8
    } else if k == 2 {
        (value / 0x1_0000 % 0x100) as u8
    } else if k == 3 {
        (value / 0x100_0000 % 0x100) as u8
    } else if k == 4 {
        (value / 0x1_0000_0000 % 0x100) as u8
    } else if k == 5 {
        (value / 0x100_0000_0000 % 0x100) as u8
    } else if k == 6 {
        (value / 0x1_0000_0000_0000 % 0x100) as u8
    } else {
        (value / 0x100_0000_0000_0000 % 0x100) as u8
    }
}

impl Image {
    /// Whether the `n` bytes from `addr` on all lie inside the image.
    pub open spec fn contains(self, addr: int, n: int) -> bool {
        &&& self.base <= addr
        &&& addr + n <= self.base + self.bytes.len()
        &&& addr + n <= self.arch.modulus()
    }

    /// The byte at `addr`.
    pub open spec fn byte(self, addr: int) -> int {
        self.bytes[addr - self.base] as int
    }

    /// The two bytes from `addr` on, as a number.
    pub open spec fn u16_at(self, addr: int) -> int {
        self.byte(addr) + 0x100 * self.byte(addr + 1)
    }

    /// The four bytes from `addr` on, as a number.
    pub open spec fn u32_at(self, addr: int) -> int {
        self.u16_at(addr) + 0x1_0000 * self.u16_at(addr + 2)
    }

    /// The eight bytes from `addr` on, as a number.
    pub open spec fn u64_at(self, addr: int) -> int {
        self.u32_at(addr) + 0x1_0000_0000 * self.u32_at(addr + 4)
    }

    /// The byte at `addr`; `None` where it does not lie inside the image.
    pub open spec fn read_u8(self, addr: int) -> Option<u8> {
        if self.contains(addr, 1) {
            Some(self.byte(addr) as u8)
        } else {
            None
        }
    }

    /// The two-byte number at `addr`; `None` where it does not lie inside the image.
    pub open spec fn read_u16(self, addr: int) -> Option<u16> {
        if self.contains(addr, 2) {
            Some(self.u16_at(addr) as u16)
        } else {
            None
        }
    }

    /// The four-byte number at `addr`; `None` where it does not lie inside the image.
    pub open spec fn read_u32(self, addr: int) -> Option<u32> {
        if self.contains(addr, 4) {
            Some(self.u32_at(addr) as u32)
        } else {
            None
        }
    }

    /// The eight-byte number at `addr`; `None` where it does not lie inside the image.
    pub open spec fn read_u64(self, addr: int) -> Option<u64> {
        if self.contains(addr, 8) {
            Some(self.u64_at(addr) as u64)
        } else {
            None
        }
    }

    /// The bytes of a machine word from `addr` on, as a number: four bytes on
    /// 32-bit targets, eight on 64-bit targets.
    pub open spec fn word_at(self, addr: int) -> u64 {
        match self.arch {
            Arch::Arm => self.u32_at(addr) as u64,
            Arch::Aarch64 => self.u64_at(addr) as u64,
        }
    }

    /// The machine word at `addr`.
    pub open spec fn read_word(self, addr: int) -> Option<u64> {
        if self.contains(addr, self.arch.word_bytes()) {
            Some(self.word_at(addr))
        } else {
            None
        }
    }

    /// The image with the `n` bytes from `addr` on replaced by the low bytes
    /// of `value`.
    pub open spec fn with_bytes(self, addr: int, n: int, value: u64) -> Image {
        Image {
            bytes: Seq::new(
                self.bytes.len(),
                |j: int|
                    if addr - self.base <= j < addr - self.base + n {
                        le_byte(value, j - (addr - self.base))
                    } else {
                        self.bytes[j]
                    },
            ),
            ..self
        }
    }

    /// The image after storing the machine word `value` at `addr`; unchanged
    /// where the word does not lie inside the image.
    pub open spec fn write_word(self, addr: int, value: u64) -> Image {
        if self.contains(addr, self.arch.word_bytes()) {
            self.with_bytes(addr, self.arch.word_bytes(), value)
        } else {
            self
        }
    }

    /// The image with the `n` bytes from `addr` on set to zero; unchanged
    /// where they do not all lie inside the image.
    pub open spec fn zeroed(self, addr: int, n: int) -> Image {
        if n >= 0 && self.contains(addr, n) {
            Image {
                bytes: Seq::new(
                    self.bytes.len(),
                    |j: int|
                        if addr - self.base <= j < addr - self.base + n {
                            0u8
                        } else {
                            self.bytes[j]
                        },
                ),
                ..self
            }
        } else {
            self
        }
    }
}

/// Byte `k` of `value`, counting from the least significant.
fn byte_of(value: u64, k: usize) -> (byte: u8)
    requires
        k < 8,
    ensures
        byte == le_byte(value, k as int),
{
    if k == 0 {
        (value % 0x100) as u8
    } else if k == 1 {
        (value / 0x100 % 0x100) as u8
    } else if k == 2 {
        (value / 0x1_0000 % 0x100) as u8
    } else if k == 3 {
        (value / 0x100_0000 % 0x100) as u8
    } else if k == 4 {
        (value / 0x1_0000_0000 % 0x100) as u8
    } else if k == 5 {
        (value / 0x100_0000_0000 % 0x100) as u8
    } else if k == 6 {
        (value / 0x1_0000_0000_0000 % 0x100) as u8
    } else {
        (value / 0x100_0000_0000_0000 % 0x100) as u8
    }
}

impl Memory {
    /// The index in `bytes` of address `addr`, where the `n` bytes from
    /// `addr` on lie inside the image.
    pub fn locate(&self, addr: u64, n: u64) -> (index: Option<usize>)
        ensures
            index is Some <==> self@.contains(addr as int, n as int),
            index is Some ==> index.unwrap() == addr - self.base,
            index is Some ==> index.unwrap() + n <= self.bytes.len(),
    {
        if addr < self.base {
            return None;
        }
        let offset: u64 = addr - self.base;
        let len: usize = self.bytes.len();
        if offset > len as u64 || len as u64 - offset < n {
            return None;
        }
        let max: u64 = self.arch.max_address();
        if n > 0 && (addr > max || max - addr < n - 1) {
            return None;
        }
        if n == 0 && addr > max && addr - max > 1 {
            return None;
        }
        Some(offset as usize)
    }

    /// The byte at `addr`; `None` where it does not lie inside the image.
    pub fn read_u8(&self, addr: u64) -> (value: Option<u8>)
        ensures
            value == self@.read_u8(addr as int),
    {
        match self.locate(addr, 1) {
            Some(i) => Some(self.bytes[i]),
            None => None,
        }
    }

    /// The two-byte number at `addr`; `None` where it does not lie inside the image.
    pub fn read_u16(&self, addr: u64) -> (value: Option<u16>)
        ensures
            value == self@.read_u16(addr as int),
    {
        match self.locate(addr, 2) {
            Some(i) => Some(self.bytes[i] as u16 + 0x100 * (self.bytes[i + 1] as u16)),
            None => None,
        }
    }

    /// The four-byte number at `addr`; `None` where it does not lie inside the image.
    pub fn read_u32(&self, addr: u64) -> (value: Option<u32>)
        ensures
            value == self@.read_u32(addr as int),
    {
        match self.locate(addr, 4) {
            Some(i) => {
                let low: u32 = self.bytes[i] as u32 + 0x100 * (self.bytes[i + 1] as u32);
                let high: u32 = self.bytes[i + 2] as u32 + 0x100 * (self.bytes[i + 3] as u32);
                Some(low + 0x1_0000 * high)
            },
            None => None,
        }
    }

    /// The eight-byte number at `addr`; `None` where it does not lie inside the image.
    pub fn read_u64(&self, addr: u64) -> (value: Option<u64>)
        ensures
            value == self@.read_u64(addr as int),
    {
        match self.locate(addr, 8) {
            Some(i) => {
                let a: u64 = self.bytes[i] as u64 + 0x100 * (self.bytes[i + 1] as u64);
                let b: u64 = self.bytes[i + 2] as u64 + 0x100 * (self.bytes[i + 3] as u64);
                let c: u64 = self.bytes[i + 4] as u64 + 0x100 * (self.bytes[i + 5] as u64);
                let d: u64 = self.bytes[i + 6] as u64 + 0x100 * (self.bytes[i + 7] as u64);
                let low: u64 = a + 0x1_0000 * b;
                let high: u64 = c + 0x1_0000 * d;
                Some(low + 0x1_0000_0000 * high)
            },
            None => None,
        }
    }

    /// Reads the machine word at `addr`.
    pub fn read_word(&self, addr: u64) -> (value: Option<u64>)
        ensures
            value == self@.read_word(addr as int),
    {
        match self.arch {
            Arch::Arm => match self.read_u32(addr) {
                Some(word) => Some(word as u64),
                None => None,
            },
            Arch::Aarch64 => self.read_u64(addr),
        }
    }

    /// Stores the machine word `value` at `addr`, and says whether the word
    /// lies inside the image. Where it does not, nothing is written.
    pub fn write_word(&mut self, addr: u64, value: u64) -> (stored: bool)
        ensures
            stored == old(self)@.contains(addr as int, old(self).arch.word_bytes()),
            final(self)@ == old(self)@.write_word(addr as int, value),
    {
        let width: u64 = self.arch.word_size();
        match self.locate(addr, width) {
            Some(start) => {
                let mut k: usize = 0;
                while k < width as usize
                    invariant
                        k <= width <= 8,
                        start + width <= self.bytes.len(),
                        self.arch == old(self).arch,
                        self.base == old(self).base,
                        start == addr - self.base,
                        self.bytes@ =~= old(self)@.with_bytes(addr as int, k as int, value).bytes,
                    decreases width - k,
                {
                    let byte = byte_of(value, k);
                    self.bytes[start + k] = byte;
                    k += 1;
                }
                true
            },
            None => false,
        }
    }

    /// Sets the `n` bytes from `addr` on to zero, and says whether they all
    /// lie inside the image. Where they do not, nothing is written.
    pub fn fill_zero(&mut self, addr: u64, n: u64) -> (filled: bool)
        ensures
            filled == old(self)@.contains(addr as int, n as int),
            final(self)@ == old(self)@.zeroed(addr as int, n as int),
    {
        match self.locate(addr, n) {
            Some(start) => {
                let mut k: usize = 0;
                while k < n as usize
                    invariant
                        k <= n,
                        start + n <= self.bytes.len(),
                        self.arch == old(self).arch,
                        self.base == old(self).base,
                        start == addr - self.base,
                        old(self)@.contains(addr as int, n as int),
                        self.bytes@ =~= old(self)@.zeroed(addr as int, k as int).bytes,
                    decreases n - k,
                {
                    self.bytes[start + k] = 0;
                    k += 1;
                }
                true
            },
            None => false,
        }
    }
}

/// The eight bytes of a number put together again give the number.
proof fn lemma_bytes_of_u64(value: u64)
    ensures
        le_byte(value, 0) + 0x100 * le_byte(value, 1) + 0x1_0000 * (le_byte(value, 2) + 0x100
            * le_byte(value, 3)) + 0x1_0000_0000 * (le_byte(value, 4) + 0x100 * le_byte(value, 5)
            + 0x1_0000 * (le_byte(value, 6) + 0x100 * le_byte(value, 7))) == value,
        le_byte(value, 0) + 0x100 * le_byte(value, 1) + 0x1_0000 * (le_byte(value, 2) + 0x100
            * le_byte(value, 3)) == value % 0x1_0000_0000,
{
    let b0 = value % 0x100;
    let r1 = value / 0x100;
    let b1 = r1 % 0x100;
    let r2 = r1 / 0x100;
    let b2 = r2 % 0x100;
    let r3 = r2 / 0x100;
    let b3 = r3 % 0x100;
    let r4 = r3 / 0x100;
    let b4 = r4 % 0x100;
    let r5 = r4 / 0x100;
    let b5 = r5 % 0x100;
    let r6 = r5 / 0x100;
    let b6 = r6 % 0x100;
    let r7 = r6 / 0x100;
    let b7 = r7 % 0x100;
    assert(r2 == value / 0x1_0000);
    assert(r3 == value / 0x100_0000);
    assert(r4 == value / 0x1_0000_0000);
    assert(r5 == value / 0x100_0000_0000);
    assert(r6 == value / 0x1_0000_0000_0000);
    assert(r7 == value / 0x100_0000_0000_0000);
    assert(r7 < 0x100);
}

impl Image {
    /// A word that was stored is the word that is read: storing `value` at
    /// `addr` and reading the word there gives `value`, cut to the width of
    /// a word; the image keeps its place and its size.
    pub proof fn lemma_read_after_write(self, addr: int, value: u64)
        requires
            self.contains(addr, self.arch.word_bytes()),
        ensures
            self.write_word(addr, value).read_word(addr) == Some(self.arch.wrap(value as int)),
            self.write_word(addr, value).base == self.base,
            self.write_word(addr, value).arch == self.arch,
            self.write_word(addr, value).bytes.len() == self.bytes.len(),
    {
        lemma_bytes_of_u64(value);
    }

    /// Storing a word changes no byte outside the word.
    pub proof fn lemma_write_leaves_the_rest(self, addr: int, value: u64, other: int)
        requires
            self.base <= other < self.base + self.bytes.len(),
            other < addr || other >= addr + self.arch.word_bytes(),
        ensures
            self.write_word(addr, value).byte(other) == self.byte(other),
    {
    }
}

} // verus!
