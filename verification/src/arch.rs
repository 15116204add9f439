//! The supported targets: word geometry, address arithmetic and relocation
//! type codes.

use vstd::prelude::*;

verus! {

/// The absolute address of a symbol, 32-bit ARM.
pub const R_ARM_ABS32: u64 = 2;

/// The address of a symbol in a global offset table entry, 32-bit ARM.
pub const R_ARM_GLOB_DAT: u64 = 21;

/// The address of a function in a call site, 32-bit ARM.
pub const R_ARM_JUMP_SLOT: u64 = 22;

/// A base-relative address, 32-bit ARM.
pub const R_ARM_RELATIVE: u64 = 23;

/// The absolute address of a symbol, 64-bit ARM.
pub const R_AARCH64_ABS64: u64 = 0x101;

/// The low half of the absolute address of a symbol, 64-bit ARM.
pub const R_AARCH64_ABS32: u64 = 0x102;

/// The address of a symbol in a global offset table entry, 64-bit ARM.
pub const R_AARCH64_GLOB_DAT: u64 = 0x401;

/// The address of a function in a call site, 64-bit ARM.
pub const R_AARCH64_JUMP_SLOT: u64 = 0x402;

/// A base-relative address, 64-bit ARM.
pub const R_AARCH64_RELATIVE: u64 = 0x403;

/// A target the linker can bring modules up for.
#[derive(Clone, Copy, Debug, PartialEq, Eq, Structural)]
pub enum Arch {
    /// 32-bit ARM: four-byte words.
    Arm,
    /// 64-bit ARM: eight-byte words.
    Aarch64,
}

impl Arch {
    /// Bytes in a machine word (a pointer, a table count, a relocation field).
    pub open spec fn word_bytes(self) -> int {
        match self {
            Arch::Arm => 4,
            Arch::Aarch64 => 8,
        }
    }

    /// One more than the largest address: two to the power of the word's bit count.
    pub open spec fn modulus(self) -> int {
        match self {
            Arch::Arm => 0x1_0000_0000,
            Arch::Aarch64 => 0x1_0000_0000_0000_0000,
        }
    }

    /// The word that a machine register holds after computing `x`: `x` reduced
    /// modulo the size of the address space.
    pub open spec fn wrap(self, x: int) -> u64 {
        (x % self.modulus()) as u64
    }

    /// The relocation type packed into an `info` word: its low byte on
    /// 32-bit targets, its low half on 64-bit targets.
    pub open spec fn type_of(self, info: u64) -> u64 {
        match self {
            Arch::Arm => (info % 0x100) as u64,
            Arch::Aarch64 => (info % 0x1_0000_0000) as u64,
        }
    }

    /// The symbol index packed into an `info` word: what lies above the type.
    pub open spec fn symbol_index_of(self, info: u64) -> u64 {
        match self {
            Arch::Arm => (info / 0x100) as u64,
            Arch::Aarch64 => (info / 0x1_0000_0000) as u64,
        }
    }

    /// Whether `reloc_type` is a symbol-relative fixup against the global
    /// offset table.
    pub open spec fn is_got_type(self, reloc_type: u64) -> bool {
        match self {
            Arch::Arm => reloc_type == R_ARM_ABS32 || reloc_type == R_ARM_GLOB_DAT,
            Arch::Aarch64 => reloc_type == R_AARCH64_ABS64 || reloc_type == R_AARCH64_ABS32
                || reloc_type == R_AARCH64_GLOB_DAT,
        }
    }

    /// Whether `reloc_type` is a procedure-linkage (call-site) fixup.
    pub open spec fn is_jump_slot_type(self, reloc_type: u64) -> bool {
        match self {
            Arch::Arm => reloc_type == R_ARM_JUMP_SLOT,
            Arch::Aarch64 => reloc_type == R_AARCH64_JUMP_SLOT,
        }
    }

    /// Whether `reloc_type` is a base-relative fixup.
    pub open spec fn is_relative_type(self, reloc_type: u64) -> bool {
        match self {
            Arch::Arm => reloc_type == R_ARM_RELATIVE,
            Arch::Aarch64 => reloc_type == R_AARCH64_RELATIVE,
        }
    }

    /// Bytes in a machine word.
    pub fn word_size(self) -> (size: u64)
        ensures
            size == self.word_bytes(),
    {
        match self {
            Arch::Arm => 4,
            Arch::Aarch64 => 8,
        }
    }

    /// The largest address of the target.
    pub fn max_address(self) -> (max: u64)
        ensures
            max == self.modulus() - 1,
    {
        match self {
            Arch::Arm => 0xffff_ffff,
            Arch::Aarch64 => 0xffff_ffff_ffff_ffff,
        }
    }

    /// `base + delta` as the target computes it, wrapping at the top of the
    /// address space.
    pub fn offset(self, base: u64, delta: u64) -> (address: u64)
        ensures
            address == self.wrap(base + delta),
    {
        let sum: u128 = base as u128 + delta as u128;
        match self {
            Arch::Arm => (sum % 0x1_0000_0000) as u64,
            Arch::Aarch64 => (sum % 0x1_0000_0000_0000_0000) as u64,
        }
    }

    /// `base + delta` for a signed `delta`, wrapping at either end of the
    /// address space.
    pub fn offset_signed(self, base: u64, delta: i64) -> (address: u64)
        ensures
            address == self.wrap(base + delta),
    {
        let lifted: i128 = base as i128 + delta as i128 + 0x1_0000_0000_0000_0000;
        let sum: u128 = lifted as u128;
        match self {
            Arch::Arm => (sum % 0x1_0000_0000) as u64,
            Arch::Aarch64 => (sum % 0x1_0000_0000_0000_0000) as u64,
        }
    }

    /// Splits an `info` word into its relocation type.
    pub fn relocation_type(self, info: u64) -> (reloc_type: u64)
        ensures
            reloc_type == self.type_of(info),
    {
        match self {
            Arch::Arm => info % 0x100,
            Arch::Aarch64 => info % 0x1_0000_0000,
        }
    }

    /// Splits an `info` word into its symbol index.
    pub fn relocation_symbol_index(self, info: u64) -> (index: u64)
        ensures
            index == self.symbol_index_of(info),
    {
        match self {
            Arch::Arm => info / 0x100,
            Arch::Aarch64 => info / 0x1_0000_0000,
        }
    }
}

/// Whether `reloc_type` is resolved against a symbol and written to the
/// global offset table on `arch`.
pub fn is_arch_got_relocation_type(arch: Arch, reloc_type: u64) -> (yes: bool)
    ensures
        yes == arch.is_got_type(reloc_type),
{
    match arch {
        Arch::Arm => reloc_type == R_ARM_ABS32 || reloc_type == R_ARM_GLOB_DAT,
        Arch::Aarch64 => reloc_type == R_AARCH64_ABS64 || reloc_type == R_AARCH64_ABS32
            || reloc_type == R_AARCH64_GLOB_DAT,
    }
}

/// Whether `reloc_type` patches a call site of the procedure linkage table
/// on `arch`.
pub fn is_arch_jump_slot_relocation_type(arch: Arch, reloc_type: u64) -> (yes: bool)
    ensures
        yes == arch.is_jump_slot_type(reloc_type),
{
    match arch {
        Arch::Arm => reloc_type == R_ARM_JUMP_SLOT,
        Arch::Aarch64 => reloc_type == R_AARCH64_JUMP_SLOT,
    }
}

/// Whether `reloc_type` adds the module's base address to a stored word on
/// `arch`.
pub fn is_arch_relative_relocation_type(arch: Arch, reloc_type: u64) -> (yes: bool)
    ensures
        yes == arch.is_relative_type(reloc_type),
{
    match arch {
        Arch::Arm => reloc_type == R_ARM_RELATIVE,
        Arch::Aarch64 => reloc_type == R_AARCH64_RELATIVE,
    }
}

} // verus!
