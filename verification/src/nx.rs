//! Records exchanged with the kernel and with the loader that placed the
//! modules in memory.

use vstd::prelude::*;

verus! {

/// The name record that identifies a module to the loader: a version, the
/// length of the name without its terminating NUL, and the name bytes with it.
pub struct ModuleName<const LEN: usize> {
    pub version: u32,
    pub name_length: u32,
    pub name: [u8; LEN],
}

impl<const LEN: usize> ModuleName<LEN> {
    /// Builds the record for `bytes`, a name followed by its terminating NUL.
    pub fn new(bytes: &[u8; LEN]) -> (record: Self)
        requires
            1 <= LEN <= 0x1_0000_0000,
        ensures
            record.version == 0,
            record.name_length == LEN - 1,
            record.name == *bytes,
    {
        Self { version: 0, name_length: (LEN - 1) as u32, name: *bytes }
    }
}

/// Why a process asks the kernel for a debug break.
#[derive(Clone, Copy, Debug, PartialEq, Eq, Structural)]
pub enum BreakReason {
    Panic,
    Assert,
    User,
    PreLoadDll,
    PostLoadDll,
    PreUnloadDll,
    PostUnloadDll,
    CppException,
    NotificationOnlyFlag,
}

impl BreakReason {
    /// The number that the kernel knows the reason by.
    pub open spec fn spec_code(&self) -> u32 {
        match self {
            BreakReason::Panic => 0,
            BreakReason::Assert => 1,
            BreakReason::User => 2,
            BreakReason::PreLoadDll => 3,
            BreakReason::PostLoadDll => 4,
            BreakReason::PreUnloadDll => 5,
            BreakReason::PostUnloadDll => 6,
            BreakReason::CppException => 7,
            BreakReason::NotificationOnlyFlag => 0x8000_0000,
        }
    }

    /// The number that the kernel knows the reason by.
    #[verifier::when_used_as_spec(spec_code)]
    pub fn code(&self) -> (code: u32)
        ensures
            code == self.spec_code(),
    {
        match self {
            BreakReason::Panic => 0,
            BreakReason::Assert => 1,
            BreakReason::User => 2,
            BreakReason::PreLoadDll => 3,
            BreakReason::PostLoadDll => 4,
            BreakReason::PreUnloadDll => 5,
            BreakReason::PostUnloadDll => 6,
            BreakReason::CppException => 7,
            BreakReason::NotificationOnlyFlag => 0x8000_0000,
        }
    }
}

/// What a region of the address space is used for.
#[derive(Clone, Copy, Debug, PartialEq, Eq, Structural)]
pub enum MemoryState {
    Free,
    Io,
    Static,
    Code,
    CodeData,
    Normal,
    Shared,
    Alias,
    AliasCode,
    AliasCodeData,
    Ipc,
    Stack,
    ThreadLocal,
    Transfered,
    SharedTransfered,
    SharedCode,
    Inaccessible,
    NonSecureIpc,
    NonDeviceIpc,
    Kernel,
    GeneratedCode,
    CodeOut,
    Coverage,
}

impl MemoryState {
    /// The number that the kernel reports the state as.
    pub open spec fn spec_code(&self) -> u32 {
        match self {
            MemoryState::Free => 0,
            MemoryState::Io => 1,
            MemoryState::Static => 2,
            MemoryState::Code => 3,
            MemoryState::CodeData => 4,
            MemoryState::Normal => 5,
            MemoryState::Shared => 6,
            MemoryState::Alias => 7,
            MemoryState::AliasCode => 8,
            MemoryState::AliasCodeData => 9,
            MemoryState::Ipc => 10,
            MemoryState::Stack => 11,
            MemoryState::ThreadLocal => 12,
            MemoryState::Transfered => 13,
            MemoryState::SharedTransfered => 14,
            MemoryState::SharedCode => 15,
            MemoryState::Inaccessible => 16,
            MemoryState::NonSecureIpc => 17,
            MemoryState::NonDeviceIpc => 18,
            MemoryState::Kernel => 19,
            MemoryState::GeneratedCode => 20,
            MemoryState::CodeOut => 21,
            MemoryState::Coverage => 22,
        }
    }

    /// The number that the kernel reports the state as.
    #[verifier::when_used_as_spec(spec_code)]
    pub fn code(&self) -> (code: u32)
        ensures
            code == self.spec_code(),
    {
        match self {
            MemoryState::Free => 0,
            MemoryState::Io => 1,
            MemoryState::Static => 2,
            MemoryState::Code => 3,
            MemoryState::CodeData => 4,
            MemoryState::Normal => 5,
            MemoryState::Shared => 6,
            MemoryState::Alias => 7,
            MemoryState::AliasCode => 8,
            MemoryState::AliasCodeData => 9,
            MemoryState::Ipc => 10,
            MemoryState::Stack => 11,
            MemoryState::ThreadLocal => 12,
            MemoryState::Transfered => 13,
            MemoryState::SharedTransfered => 14,
            MemoryState::SharedCode => 15,
            MemoryState::Inaccessible => 16,
            MemoryState::NonSecureIpc => 17,
            MemoryState::NonDeviceIpc => 18,
            MemoryState::Kernel => 19,
            MemoryState::GeneratedCode => 20,
            MemoryState::CodeOut => 21,
            MemoryState::Coverage => 22,
        }
    }

    /// The state that the kernel reports as `code`; `None` for a number
    /// that stands for no state.
    pub fn from_code(code: u32) -> (state: Option<Self>)
        ensures
            match state {
                Some(found) => found.spec_code() == code,
                None => code > 22,
            },
    {
        if code == 0 {
            Some(MemoryState::Free)
        } else if code == 1 {
            Some(MemoryState::Io)
        } else if code == 2 {
            Some(MemoryState::Static)
        } else if code == 3 {
            Some(MemoryState::Code)
        } else if code == 4 {
            Some(MemoryState::CodeData)
        } else if code == 5 {
            Some(MemoryState::Normal)
        } else if code == 6 {
            Some(MemoryState::Shared)
        } else if code == 7 {
            Some(MemoryState::Alias)
        } else if code == 8 {
            Some(MemoryState::AliasCode)
        } else if code == 9 {
            Some(MemoryState::AliasCodeData)
        } else if code == 10 {
            Some(MemoryState::Ipc)
        } else if code == 11 {
            Some(MemoryState::Stack)
        } else if code == 12 {
            Some(MemoryState::ThreadLocal)
        } else if code == 13 {
            Some(MemoryState::Transfered)
        } else if code == 14 {
            Some(MemoryState::SharedTransfered)
        } else if code == 15 {
            Some(MemoryState::SharedCode)
        } else if code == 16 {
            Some(MemoryState::Inaccessible)
        } else if code == 17 {
            Some(MemoryState::NonSecureIpc)
        } else if code == 18 {
            Some(MemoryState::NonDeviceIpc)
        } else if code == 19 {
            Some(MemoryState::Kernel)
        } else if code == 20 {
            Some(MemoryState::GeneratedCode)
        } else if code == 21 {
            Some(MemoryState::CodeOut)
        } else if code == 22 {
            Some(MemoryState::Coverage)
        } else {
            None
        }
    }
}

impl Default for MemoryState {
    fn default() -> (state: Self)
        ensures
            state == MemoryState::Free,
    {
        MemoryState::Free
    }
}

/// What a region may be used for: one bit each, from the least significant,
/// for reading, writing and executing.
#[derive(Clone, Copy, Debug, PartialEq, Eq, Structural)]
pub struct MemoryPermission {
    pub bits: u32,
}

impl MemoryPermission {
    /// Whether the region may be read: bit 0.
    pub open spec fn spec_read(&self) -> bool {
        self.bits % 2 == 1
    }

    /// Whether the region may be written: bit 1.
    pub open spec fn spec_write(&self) -> bool {
        self.bits / 2 % 2 == 1
    }

    /// Whether the region may be executed: bit 2.
    pub open spec fn spec_execute(&self) -> bool {
        self.bits / 4 % 2 == 1
    }

    /// The record that the word `bits` holds.
    pub fn from_bytes(bits: u32) -> (permission: Self)
        ensures
            permission.bits == bits,
    {
        MemoryPermission { bits }
    }

    /// Whether the region may be read.
    #[verifier::when_used_as_spec(spec_read)]
    pub fn read(&self) -> (set: bool)
        ensures
            set == self.spec_read(),
    {
        self.bits % 2 == 1
    }

    /// Whether the region may be written.
    #[verifier::when_used_as_spec(spec_write)]
    pub fn write(&self) -> (set: bool)
        ensures
            set == self.spec_write(),
    {
        self.bits / 2 % 2 == 1
    }

    /// Whether the region may be executed.
    #[verifier::when_used_as_spec(spec_execute)]
    pub fn execute(&self) -> (set: bool)
        ensures
            set == self.spec_execute(),
    {
        self.bits / 4 % 2 == 1
    }
}

impl Default for MemoryPermission {
    fn default() -> (permission: Self)
        ensures
            permission.bits == 0,
    {
        MemoryPermission { bits: 0 }
    }
}

/// How a region is held: one bit each, from the least significant, for
/// locked, locked for IPC, shared with a device, and uncached.
#[derive(Clone, Copy, Debug, PartialEq, Eq, Structural)]
pub struct MemoryAttribute {
    pub bits: u32,
}

impl MemoryAttribute {
    /// The record that the word `bits` holds.
    pub fn from_bytes(bits: u32) -> (attribute: Self)
        ensures
            attribute.bits == bits,
    {
        MemoryAttribute { bits }
    }

    /// Whether the region is locked: bit 0.
    pub fn locked(&self) -> (set: bool)
        ensures
            set == (self.bits % 2 == 1),
    {
        self.bits % 2 == 1
    }

    /// Whether the region is locked for IPC: bit 1.
    pub fn ipc_locked(&self) -> (set: bool)
        ensures
            set == (self.bits / 2 % 2 == 1),
    {
        self.bits / 2 % 2 == 1
    }

    /// Whether the region is shared with a device: bit 2.
    pub fn device_shared(&self) -> (set: bool)
        ensures
            set == (self.bits / 4 % 2 == 1),
    {
        self.bits / 4 % 2 == 1
    }

    /// Whether the region is uncached: bit 3.
    pub fn uncached(&self) -> (set: bool)
        ensures
            set == (self.bits / 8 % 2 == 1),
    {
        self.bits / 8 % 2 == 1
    }
}

impl Default for MemoryAttribute {
    fn default() -> (attribute: Self)
        ensures
            attribute.bits == 0,
    {
        MemoryAttribute { bits: 0 }
    }
}

/// What the kernel reports of one region of the address space.
#[derive(Clone, Copy, Debug, PartialEq, Eq, Structural)]
pub struct MemoryInfo {
    pub address: u64,
    pub size: u64,
    pub state: MemoryState,
    pub attribute: MemoryAttribute,
    pub permission: MemoryPermission,
    pub device_ref_count: u32,
    pub ipc_ref_count: u32,
    pub padding: u32,
}

impl Default for MemoryInfo {
    fn default() -> (info: Self)
        ensures
            info == (MemoryInfo {
                address: 0,
                size: 0,
                state: MemoryState::Free,
                attribute: MemoryAttribute { bits: 0 },
                permission: MemoryPermission { bits: 0 },
                device_ref_count: 0,
                ipc_ref_count: 0,
                padding: 0,
            }),
    {
        MemoryInfo {
            address: 0,
            size: 0,
            state: MemoryState::Free,
            attribute: MemoryAttribute { bits: 0 },
            permission: MemoryPermission { bits: 0 },
            device_ref_count: 0,
            ipc_ref_count: 0,
            padding: 0,
        }
    }
}

} // verus!
