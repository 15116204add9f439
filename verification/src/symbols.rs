//! Symbol names, the hash table that finds them, and lookup by name.

use vstd::prelude::*;
use vstd::slice::slice_subrange;
use crate::arch::Arch;
use crate::elf::{entry_address, SymbolTableEntry, SymbolVisibility, SHN_COMMON, SHN_UNDEF};
use crate::memory::{Image, Memory};
use crate::module::ModuleRuntime;

verus! {

/// `core::str::from_utf8`, asked only whether it accepts `bytes`. The
/// standard library documents that it returns `Ok` exactly for a slice that
/// is valid UTF-8; the contract says so in the terms of `vstd::utf8`.
#[verifier::external_body]
fn is_utf8(bytes: &[u8]) -> (valid: bool)
    ensures
        valid == vstd::utf8::valid_utf8(bytes@),
{
    core::str::from_utf8(bytes).is_ok()
}

/// The index of the first zero byte of `bytes` at or after `from`.
pub open spec fn terminator(bytes: Seq<u8>, from: int) -> Option<int>
    decreases bytes.len() - from,
{
    if from < 0 || from >= bytes.len() {
        None
    } else if bytes[from] == 0 {
        Some(from)
    } else {
        terminator(bytes, from + 1)
    }
}

/// The string that `bytes` starts with: what precedes the first zero byte,
/// where there is one and what precedes it is valid UTF-8.
pub open spec fn cstr(bytes: Seq<u8>) -> Option<Seq<u8>> {
    match terminator(bytes, 0) {
        Some(end) => if vstd::utf8::valid_utf8(bytes.subrange(0, end)) {
            Some(bytes.subrange(0, end))
        } else {
            None
        },
        None => None,
    }
}

/// One round of the hash: `hash` shifted up by four bits plus `byte`, in
/// 32-bit arithmetic on every target, with bits 28 to 31 folded into bits 4
/// to 7 and then cleared.
pub open spec fn pjw_step(hash: u32, byte: u8) -> u32 {
    let sum = ((hash * 16 + byte) % 0x1_0000_0000) as u32;
    let high = sum & 0xF000_0000;
    let folded = if high != 0 {
        sum ^ (high >> 24)
    } else {
        sum
    };
    folded & !high
}

/// The hash of a symbol name: the rounds of [`pjw_step`] over its bytes in
/// order, starting from zero.
pub open spec fn pjw_hash(data: Seq<u8>) -> u32
    decreases data.len(),
{
    if data.len() == 0 {
        0
    } else {
        pjw_step(pjw_hash(data.drop_last()), data.last())
    }
}

/// A round of the hash leaves the top four bits clear.
pub proof fn lemma_pjw_step_bound(hash: u32, byte: u8)
    ensures
        pjw_step(hash, byte) <= 0x0FFF_FFFF,
{
    let sum = ((hash * 16 + byte) % 0x1_0000_0000) as u32;
    let high = sum & 0xF000_0000;
    let folded = if high != 0 {
        sum ^ (high >> 24)
    } else {
        sum
    };
    assert(folded & !high <= 0x0FFF_FFFF) by (bit_vector)
        requires
            high == sum & 0xF000_0000,
            folded == sum ^ (high >> 24) || folded == sum,
    ;
}

/// The hash of any name is a 28-bit number.
pub proof fn lemma_pjw_hash_bound(data: Seq<u8>)
    ensures
        pjw_hash(data) <= 0x0FFF_FFFF,
{
    if data.len() > 0 {
        lemma_pjw_step_bound(pjw_hash(data.drop_last()), data.last());
    }
}

/// Hashes a symbol name for a module's hash table.
pub fn compute_pjw_hash(data: &[u8]) -> (hash: u32)
    ensures
        hash == pjw_hash(data@),
        hash <= 0x0FFF_FFFF,
{
    let mut h: u32 = 0;
    let mut i: usize = 0;
    while i < data.len()
        invariant
            i <= data.len(),
            h == pjw_hash(data@.subrange(0, i as int)),
        decreases data.len() - i,
    {
        let sum: u32 = ((h as u64 * 16 + data[i] as u64) % 0x1_0000_0000) as u32;
        let high = sum & 0xF000_0000;
        let folded = if high != 0 {
            sum ^ (high >> 24)
        } else {
            sum
        };
        proof {
            assert(data@.subrange(0, i + 1).drop_last() == data@.subrange(0, i as int));
        }
        h = folded & !high;
        i += 1;
    }
    proof {
        assert(data@.subrange(0, data.len() as int) == data@);
        lemma_pjw_hash_bound(data@);
    }
    h
}

/// Whether two byte strings are the same.
pub fn bytes_equal(a: &[u8], b: &[u8]) -> (same: bool)
    ensures
        same == (a@ == b@),
{
    if a.len() != b.len() {
        return false;
    }
    let mut i: usize = 0;
    while i < a.len()
        invariant
            i <= a.len(),
            a.len() == b.len(),
            forall|j: int| 0 <= j < i ==> a@[j] == b@[j],
        decreases a.len() - i,
    {
        if a[i] != b[i] {
            return false;
        }
        i += 1;
    }
    proof {
        assert(a@ =~= b@);
    }
    true
}

/// The string that `bytes` starts with, without its terminating zero byte;
/// `None` where no zero byte follows or the string is not valid UTF-8.
pub fn parse_cstr(bytes: &[u8]) -> (name: Option<&[u8]>)
    ensures
        match name {
            Some(found) => cstr(bytes@) == Some(found@),
            None => cstr(bytes@) is None,
        },
{
    let mut end: usize = 0;
    while end < bytes.len() && bytes[end] != 0
        invariant
            end <= bytes.len(),
            terminator(bytes@, 0) == terminator(bytes@, end as int),
        decreases bytes.len() - end,
    {
        end += 1;
    }
    if end >= bytes.len() {
        return None;
    }
    let name = slice_subrange(bytes, 0, end);
    if is_utf8(name) {
        Some(name)
    } else {
        None
    }
}

impl ModuleRuntime {
    /// The module's string table, where it lies inside the image.
    pub open spec fn string_table(self, image: Image) -> Option<Seq<u8>> {
        if image.contains(self.dynamic_str as int, self.dynamic_str_size as int) {
            Some(
                image.bytes.subrange(
                    self.dynamic_str - image.base,
                    self.dynamic_str - image.base + self.dynamic_str_size,
                ),
            )
        } else {
            None
        }
    }

    /// The name of `symbol`: the string at its name offset in the string
    /// table; `None` where the string does not end inside the table or is
    /// not valid UTF-8.
    pub open spec fn symbol_name(self, image: Image, symbol: SymbolTableEntry) -> Option<Seq<u8>> {
        match self.string_table(image) {
            Some(table) => if symbol.name_offset <= table.len() {
                cstr(table.subrange(symbol.name_offset as int, table.len() as int))
            } else {
                None
            },
            None => None,
        }
    }

    /// Entry `index` of the module's symbol table.
    pub open spec fn symbol(self, image: Image, index: int) -> Option<SymbolTableEntry> {
        image.symbol_entry(self.dynamic_symbols + index * image.arch.symbol_entry_bytes())
    }

    /// The symbol index that bucket `bucket` of the hash table starts with;
    /// zero where the bucket does not lie inside the image.
    pub open spec fn bucket_head(self, image: Image, bucket: int) -> u32 {
        match image.read_u32(self.hash_bucket + 4 * bucket) {
            Some(head) => head,
            None => 0,
        }
    }

    /// The symbol index at which the chain for `name` starts: the head of
    /// the bucket that the name's hash selects; zero for a module without
    /// buckets.
    pub open spec fn chain_head(self, image: Image, name: Seq<u8>) -> u32 {
        if self.hash_nbucket_value == 0 {
            0
        } else {
            self.bucket_head(image, pjw_hash(name) as int % self.hash_nbucket_value as int)
        }
    }

    /// The symbol index that follows `index` in its chain; zero, the end of
    /// every chain, where the chain array has no such entry.
    pub open spec fn chain_next(self, image: Image, index: u32) -> u32 {
        if index < self.hash_nchain_value {
            match image.read_u32(self.hash_chain + 4 * index) {
                Some(next) => next,
                None => 0,
            }
        } else {
            0
        }
    }

    /// The symbols of the chain that starts at symbol index `index`, in
    /// chain order. The chain ends at index zero and at a symbol that does
    /// not lie inside the image; `limit` bounds its length, so that a chain
    /// that runs in a circle ends too.
    pub open spec fn chain(self, image: Image, index: u32, limit: nat) -> Seq<SymbolTableEntry>
        decreases limit,
    {
        if limit == 0 || index == 0 {
            Seq::empty()
        } else {
            match self.symbol(image, index as int) {
                Some(symbol) => seq![symbol] + self.chain(
                    image,
                    self.chain_next(image, index),
                    (limit - 1) as nat,
                ),
                None => Seq::empty(),
            }
        }
    }

    /// Whether `symbol` is a definition of `name`: it is defined in a
    /// section, and its name is `name`.
    pub open spec fn defines(self, image: Image, symbol: SymbolTableEntry, name: Seq<u8>) -> bool {
        symbol.defined() && self.symbol_name(image, symbol) == Some(name)
    }

    /// The first of `symbols` that defines `name`.
    pub open spec fn first_definition(
        self,
        image: Image,
        symbols: Seq<SymbolTableEntry>,
        name: Seq<u8>,
    ) -> Option<SymbolTableEntry>
        decreases symbols.len(),
    {
        if symbols.len() == 0 {
            None
        } else if self.defines(image, symbols[0], name) {
            Some(symbols[0])
        } else {
            self.first_definition(image, symbols.skip(1), name)
        }
    }

    /// Whether the name of `symbol`, which is defined in a section, does not
    /// decode: it runs past the string table or is not valid UTF-8.
    pub open spec fn undecodable(self, image: Image, symbol: SymbolTableEntry) -> bool {
        symbol.defined() && self.symbol_name(image, symbol) is None
    }

    /// The indices of the symbols that a search for `name` passes over
    /// because their names do not decode, in the order in which it meets
    /// them, where the search stands at symbol index `index` and may visit
    /// `limit` more symbols. The search ends at the first definition of
    /// `name`.
    pub open spec fn skipped(self, image: Image, name: Seq<u8>, index: u32, limit: nat) -> Seq<u32>
        decreases limit,
    {
        if limit == 0 || index == 0 {
            Seq::empty()
        } else {
            match self.symbol(image, index as int) {
                None => Seq::empty(),
                Some(symbol) => if self.defines(image, symbol, name) {
                    Seq::empty()
                } else {
                    let rest = self.skipped(
                        image,
                        name,
                        self.chain_next(image, index),
                        (limit - 1) as nat,
                    );
                    if self.undecodable(image, symbol) {
                        seq![index] + rest
                    } else {
                        rest
                    }
                },
            }
        }
    }

    /// The indices of the symbols that a lookup of `name` passes over
    /// because their names do not decode.
    pub open spec fn skipped_by_name(self, image: Image, name: Seq<u8>) -> Seq<u32> {
        self.skipped(image, name, self.chain_head(image, name), self.hash_nchain_value as nat)
    }

    /// The symbols that a lookup of `name` visits, in the order in which it
    /// visits them: the chain of the bucket that the name hashes to.
    pub open spec fn candidates(self, image: Image, name: Seq<u8>) -> Seq<SymbolTableEntry> {
        self.chain(image, self.chain_head(image, name), self.hash_nchain_value as nat)
    }

    /// The module's definition of `name`, whatever its binding.
    pub open spec fn symbol_by_name(self, image: Image, name: Seq<u8>) -> Option<SymbolTableEntry> {
        self.first_definition(image, self.candidates(image, name), name)
    }

    /// The module's definition of `name` with global or weak binding: the
    /// definition, where it has such a binding.
    pub open spec fn external_symbol_by_name(self, image: Image, name: Seq<u8>) -> Option<
        SymbolTableEntry,
    > {
        match self.symbol_by_name(image, name) {
            Some(symbol) => if symbol.info.exported() {
                Some(symbol)
            } else {
                None
            },
            None => None,
        }
    }

    /// The module's definition of `name` that another module's reference
    /// may resolve to: the definition, where its binding is global or weak
    /// and its visibility is the default one.
    pub open spec fn shared_symbol_by_name(self, image: Image, name: Seq<u8>) -> Option<
        SymbolTableEntry,
    > {
        match self.external_symbol_by_name(image, name) {
            Some(symbol) => if symbol.other.visibility() == SymbolVisibility::Default {
                Some(symbol)
            } else {
                None
            },
            None => None,
        }
    }

    /// The address that `symbol` stands for in this module.
    pub open spec fn symbol_value(self, arch: Arch, symbol: SymbolTableEntry) -> u64 {
        arch.wrap(self.module_base + symbol.value)
    }

    /// The name of `symbol` in the module's string table.
    pub fn try_get_symbol_str<'a>(&self, image: &'a Memory, symbol: &SymbolTableEntry) -> (name:
        Option<&'a [u8]>)
        ensures
            match name {
                Some(found) => self.symbol_name(image@, *symbol) == Some(found@),
                None => self.symbol_name(image@, *symbol) is None,
            },
    {
        match image.locate(self.dynamic_str, self.dynamic_str_size) {
            Some(start) => {
                let size = self.dynamic_str_size as usize;
                if symbol.name_offset as u64 > self.dynamic_str_size {
                    return None;
                }
                let table = slice_subrange(image.bytes.as_slice(), start, start + size);
                parse_cstr(slice_subrange(table, symbol.name_offset as usize, size))
            },
            None => None,
        }
    }

    /// Reads entry `index` of the module's symbol table; `None` where it
    /// does not lie inside the image.
    pub fn get_symbol(&self, image: &Memory, index: u64) -> (symbol: Option<SymbolTableEntry>)
        ensures
            symbol == self.symbol(image@, index as int),
    {
        match entry_address(self.dynamic_symbols, index, image.arch.symbol_entry_size()) {
            Some(addr) => SymbolTableEntry::read(image, addr),
            None => None,
        }
    }

    /// Looks `name` up in the module's hash table, among the symbols of any
    /// binding, and hands back the indices of the symbols that it passed
    /// over because their names do not decode.
    pub fn find_symbol_reporting(&self, image: &Memory, name: &[u8]) -> (found: (
        Option<SymbolTableEntry>,
        Vec<u32>,
    ))
        ensures
            found.0 == self.symbol_by_name(image@, name@),
            found.1@ == self.skipped_by_name(image@, name@),
    {
        let mut skipped: Vec<u32> = Vec::new();
        let mut bucket = HashBucketIter::new(self, image, name);
        loop
            invariant
                self.first_definition(image@, bucket.rest(*self, image@), name@)
                    == self.symbol_by_name(image@, name@),
                skipped@ + self.skipped(image@, name@, bucket.chain_value, bucket.limit as nat)
                    == self.skipped_by_name(image@, name@),
            decreases bucket.limit,
        {
            let index = bucket.chain_value;
            let ghost before = skipped@;
            let ghost ahead = self.skipped(image@, name@, bucket.chain_value, bucket.limit as nat);
            match bucket.next(self, image) {
                Some(symbol) => {
                    if symbol.section != SHN_UNDEF && symbol.section != SHN_COMMON {
                        match self.try_get_symbol_str(image, &symbol) {
                            Some(other_name) => {
                                if bytes_equal(other_name, name) {
                                    proof {
                                        assert(before + ahead =~= before);
                                    }
                                    return (Some(symbol), skipped);
                                }
                            },
                            None => {
                                skipped.push(index);
                                proof {
                                    let rest = self.skipped(
                                        image@,
                                        name@,
                                        bucket.chain_value,
                                        bucket.limit as nat,
                                    );
                                    assert(before.push(index) + rest =~= before + (seq![index]
                                        + rest));
                                }
                            },
                        }
                    }
                },
                None => {
                    proof {
                        assert(before + ahead =~= before);
                    }
                    return (None, skipped);
                },
            }
        }
    }

    /// Looks `name` up in the module's hash table, among the symbols of any
    /// binding.
    pub fn find_symbol(&self, image: &Memory, name: &[u8]) -> (symbol: Option<SymbolTableEntry>)
        ensures
            symbol == self.symbol_by_name(image@, name@),
    {
        self.find_symbol_reporting(image, name).0
    }

    /// The module's definition of `name`, whatever its binding.
    pub fn get_symbol_by_name(&self, image: &Memory, name: &str) -> (symbol: Option<
        SymbolTableEntry,
    >)
        ensures
            symbol == self.symbol_by_name(image@, vstd::utf8::encode_utf8(name@)),
    {
        self.find_symbol(image, name.as_bytes())
    }

    /// Looks `name` up among the symbols with global or weak binding, and
    /// hands back the indices of the symbols that the lookup passed over
    /// because their names do not decode.
    pub fn find_external_symbol_reporting(&self, image: &Memory, name: &[u8]) -> (found: (
        Option<SymbolTableEntry>,
        Vec<u32>,
    ))
        ensures
            found.0 == self.external_symbol_by_name(image@, name@),
            found.1@ == self.skipped_by_name(image@, name@),
    {
        let (symbol, skipped) = self.find_symbol_reporting(image, name);
        let symbol = match symbol {
            Some(symbol) => {
                if symbol.info.bind_global() || symbol.info.bind_weak() {
                    Some(symbol)
                } else {
                    None
                }
            },
            None => None,
        };
        (symbol, skipped)
    }

    /// Looks `name` up among the symbols with global or weak binding.
    pub fn find_external_symbol(&self, image: &Memory, name: &[u8]) -> (symbol: Option<
        SymbolTableEntry,
    >)
        ensures
            symbol == self.external_symbol_by_name(image@, name@),
    {
        self.find_external_symbol_reporting(image, name).0
    }

    /// Looks `name` up among the symbols that another module's reference
    /// may resolve to, those with global or weak binding and default
    /// visibility, and hands back the indices of the symbols that the
    /// lookup passed over because their names do not decode.
    pub fn find_shared_symbol_reporting(&self, image: &Memory, name: &[u8]) -> (found: (
        Option<SymbolTableEntry>,
        Vec<u32>,
    ))
        ensures
            found.0 == self.shared_symbol_by_name(image@, name@),
            found.1@ == self.skipped_by_name(image@, name@),
    {
        let (symbol, skipped) = self.find_external_symbol_reporting(image, name);
        let symbol = match symbol {
            Some(symbol) => {
                if symbol.other.visibility() == SymbolVisibility::Default {
                    Some(symbol)
                } else {
                    None
                }
            },
            None => None,
        };
        (symbol, skipped)
    }

    /// The module's definition of `name`, where its binding is global or
    /// weak.
    pub fn get_external_symbol_by_name(&self, image: &Memory, name: &str) -> (symbol: Option<
        SymbolTableEntry,
    >)
        ensures
            symbol == self.external_symbol_by_name(image@, vstd::utf8::encode_utf8(name@)),
    {
        self.find_external_symbol(image, name.as_bytes())
    }

    /// The address that `symbol` stands for in this module: its value,
    /// counted from the module's base.
    pub fn get_symbol_value(&self, arch: Arch, symbol: &SymbolTableEntry) -> (address: u64)
        ensures
            address == self.symbol_value(arch, *symbol),
    {
        arch.offset(self.module_base, symbol.value)
    }

    /// Stores the word `value` at the address that `symbol` stands for, and
    /// says whether that word lies inside the image. Where it does not,
    /// nothing is written.
    pub fn set_symbol_value(&self, image: &mut Memory, symbol: &SymbolTableEntry, value: u64) -> (stored:
        bool)
        ensures
            stored == old(image)@.contains(
                self.symbol_value(old(image).arch, *symbol) as int,
                old(image).arch.word_bytes(),
            ),
            final(image)@ == old(image)@.write_word(
                self.symbol_value(old(image).arch, *symbol) as int,
                value,
            ),
    {
        let address = self.get_symbol_value(image.arch, symbol);
        image.write_word(address, value)
    }
}

/// Walks the chain of one hash bucket, symbol by symbol.
#[derive(Clone, Copy, Debug)]
pub struct HashBucketIter {
    /// The symbol index the walk stands at; zero at the end of the chain.
    pub chain_value: u32,
    /// How many more symbols the walk may visit.
    pub limit: u64,
}

impl HashBucketIter {
    /// The symbols that the walk has yet to visit.
    pub open spec fn rest(self, runtime: ModuleRuntime, image: Image) -> Seq<SymbolTableEntry> {
        runtime.chain(image, self.chain_value, self.limit as nat)
    }

    /// A walk over the chain of the bucket that `name` hashes to.
    pub fn new(module_runtime: &ModuleRuntime, image: &Memory, name: &[u8]) -> (bucket: Self)
        ensures
            bucket.chain_value == module_runtime.chain_head(image@, name@),
            bucket.limit == module_runtime.hash_nchain_value,
            bucket.rest(*module_runtime, image@) == module_runtime.candidates(image@, name@),
    {
        let limit = module_runtime.hash_nchain_value;
        if module_runtime.hash_nbucket_value == 0 {
            return HashBucketIter { chain_value: 0, limit };
        }
        let name_hash = compute_pjw_hash(name);
        let index = name_hash as u64 % module_runtime.hash_nbucket_value;
        let head = match entry_address(module_runtime.hash_bucket, index, 4) {
            Some(addr) => image.read_u32(addr),
            None => None,
        };
        let chain_value = match head {
            Some(value) => value,
            None => 0,
        };
        HashBucketIter { chain_value, limit }
    }

    /// The symbol the walk stands at, after which it moves on along the
    /// chain; `None` at the end of the chain.
    pub fn next(&mut self, module_runtime: &ModuleRuntime, image: &Memory) -> (symbol: Option<
        SymbolTableEntry,
    >)
        ensures
            match symbol {
                Some(found) => {
                    &&& old(self).limit > 0
                    &&& old(self).chain_value != 0
                    &&& module_runtime.symbol(image@, old(self).chain_value as int) == Some(found)
                    &&& final(self).chain_value == module_runtime.chain_next(
                        image@,
                        old(self).chain_value,
                    )
                    &&& final(self).limit == old(self).limit - 1
                    &&& old(self).rest(*module_runtime, image@).len() > 0
                    &&& found == old(self).rest(*module_runtime, image@)[0]
                    &&& final(self).rest(*module_runtime, image@) == old(self).rest(
                        *module_runtime,
                        image@,
                    ).skip(1)
                    &&& final(self).limit < old(self).limit
                },
                None => {
                    &&& old(self).limit == 0 || old(self).chain_value == 0 || module_runtime.symbol(
                        image@,
                        old(self).chain_value as int,
                    ) is None
                    &&& old(self).rest(*module_runtime, image@).len() == 0
                    &&& *final(self) == *old(self)
                },
            },
    {
        if self.limit == 0 || self.chain_value == 0 {
            return None;
        }
        match module_runtime.get_symbol(image, self.chain_value as u64) {
            Some(found) => {
                let link = if (self.chain_value as u64) < module_runtime.hash_nchain_value {
                    match entry_address(module_runtime.hash_chain, self.chain_value as u64, 4) {
                        Some(addr) => image.read_u32(addr),
                        None => None,
                    }
                } else {
                    None
                };
                self.chain_value = match link {
                    Some(value) => value,
                    None => 0,
                };
                self.limit = self.limit - 1;
                Some(found)
            },
            None => None,
        }
    }
}

impl ModuleRuntime {
    /// Whether entry `k` of `symbols` defines `name` and no entry before it
    /// does.
    pub open spec fn is_first_definition(
        self,
        image: Image,
        symbols: Seq<SymbolTableEntry>,
        name: Seq<u8>,
        k: int,
    ) -> bool {
        &&& 0 <= k < symbols.len()
        &&& self.defines(image, symbols[k], name)
        &&& forall|j: int| 0 <= j < k ==> !self.defines(image, #[trigger] symbols[j], name)
    }

    /// The first definition among `symbols` is the entry that defines
    /// `name` and has no such entry before it; there is none exactly where
    /// no entry defines `name`.
    pub proof fn lemma_first_definition(
        self,
        image: Image,
        symbols: Seq<SymbolTableEntry>,
        name: Seq<u8>,
    )
        ensures
            match self.first_definition(image, symbols, name) {
                Some(found) => exists|k: int| #[trigger]
                    self.is_first_definition(image, symbols, name, k) && symbols[k] == found,
                None => forall|k: int|
                    0 <= k < symbols.len() ==> !self.defines(image, #[trigger] symbols[k], name),
            },
        decreases symbols.len(),
    {
        if symbols.len() == 0 {
            // nothing defines the name in an empty sequence
        } else if self.defines(image, symbols[0], name) {
            assert(self.is_first_definition(image, symbols, name, 0));
        } else {
            let rest = symbols.skip(1);
            self.lemma_first_definition(image, rest, name);
            match self.first_definition(image, rest, name) {
                Some(found) => {
                    let k = choose|k: int| #[trigger]
                        self.is_first_definition(image, rest, name, k) && rest[k] == found;
                    assert forall|j: int| 0 <= j < k + 1 implies !self.defines(
                        image,
                        #[trigger] symbols[j],
                        name,
                    ) by {
                        if j > 0 {
                            assert(symbols[j] == rest[j - 1]);
                        }
                    }
                    assert(self.is_first_definition(image, symbols, name, k + 1));
                },
                None => {
                    assert forall|k: int| 0 <= k < symbols.len() implies !self.defines(
                        image,
                        #[trigger] symbols[k],
                        name,
                    ) by {
                        if k > 0 {
                            assert(symbols[k] == rest[k - 1]);
                        }
                    }
                },
            }
        }
    }

    /// A lookup visits the chain of the bucket that the name hashes to, and
    /// nothing else: of a module with buckets, it yields the first symbol in
    /// chain order that is defined in a section and carries the name, and
    /// nothing where the chain holds no such symbol.
    pub proof fn lemma_lookup_follows_chain(self, image: Image, name: Seq<u8>)
        requires
            self.hash_nbucket_value != 0,
        ensures
            self.candidates(image, name) == self.chain(
                image,
                self.bucket_head(
                    image,
                    pjw_hash(name) as int % self.hash_nbucket_value as int,
                ),
                self.hash_nchain_value as nat,
            ),
            match self.symbol_by_name(image, name) {
                Some(found) => exists|k: int| #[trigger]
                    self.is_first_definition(image, self.candidates(image, name), name, k)
                        && self.candidates(image, name)[k] == found,
                None => forall|k: int|
                    0 <= k < self.candidates(image, name).len() ==> !self.defines(
                        image,
                        #[trigger] self.candidates(image, name)[k],
                        name,
                    ),
            },
    {
        self.lemma_first_definition(image, self.candidates(image, name), name);
    }
}

/// Numbers below `bound` that are all different are at most `bound` many.
pub proof fn lemma_distinct_below(values: Seq<u32>, bound: nat)
    requires
        forall|i: int| 0 <= i < values.len() ==> #[trigger] values[i] < bound,
        forall|i: int, j: int| 0 <= i < j < values.len() ==> values[i] != values[j],
    ensures
        values.len() <= bound,
    decreases bound,
{
    if bound == 0 {
        if values.len() > 0 {
            assert(values[0] < bound);
        }
    } else if exists|p: int| 0 <= p < values.len() && values[p] == bound - 1 {
        let p = choose|p: int| 0 <= p < values.len() && values[p] == bound - 1;
        let rest = values.remove(p);
        assert forall|i: int| 0 <= i < rest.len() implies #[trigger] rest[i] < (bound - 1) as nat by {
            if i < p {
                assert(rest[i] == values[i]);
            } else {
                assert(rest[i] == values[i + 1]);
            }
        }
        assert forall|i: int, j: int| 0 <= i < j < rest.len() implies rest[i] != rest[j] by {
            let a = if i < p {
                i
            } else {
                i + 1
            };
            let b = if j < p {
                j
            } else {
                j + 1
            };
            assert(rest[i] == values[a]);
            assert(rest[j] == values[b]);
        }
        lemma_distinct_below(rest, (bound - 1) as nat);
    } else {
        assert forall|i: int| 0 <= i < values.len() implies #[trigger] values[i] < (bound
            - 1) as nat by {
            assert(values[i] < bound);
        }
        lemma_distinct_below(values, (bound - 1) as nat);
    }
}

impl ModuleRuntime {
    /// Whether `path` is a chain of the hash table: every index on it is
    /// other than zero, has an entry in the chain array and a symbol inside
    /// the image; each index is followed by the one that the chain array
    /// holds for it; and the chain array holds zero for the last.
    pub open spec fn proper_chain(self, image: Image, path: Seq<u32>) -> bool {
        &&& forall|k: int|
            0 <= k < path.len() ==> #[trigger] path[k] != 0 && path[k] < self.hash_nchain_value
                && self.symbol(image, path[k] as int) is Some
        &&& forall|k: int|
            0 <= k < path.len() - 1 ==> self.chain_next(image, #[trigger] path[k]) == path[k + 1]
        &&& path.len() > 0 ==> self.chain_next(image, path.last()) == 0
    }

    /// The index that a chain starts with; zero for the empty chain.
    pub open spec fn start_of(path: Seq<u32>) -> u32 {
        if path.len() > 0 {
            path[0]
        } else {
            0
        }
    }

    /// The symbols at the indices `path`, in that order.
    pub open spec fn symbols_of(self, image: Image, path: Seq<u32>) -> Seq<SymbolTableEntry> {
        Seq::new(path.len(), |k: int| self.symbol(image, path[k] as int).unwrap())
    }

    /// A walk that may visit as many symbols as a chain holds yields the
    /// symbols of the chain, in chain order, and no other.
    pub proof fn lemma_chain_along(self, image: Image, path: Seq<u32>, limit: nat)
        requires
            self.proper_chain(image, path),
            path.len() <= limit,
        ensures
            self.chain(image, Self::start_of(path), limit) == self.symbols_of(image, path),
        decreases path.len(),
    {
        if path.len() == 0 {
            assert(self.symbols_of(image, path) =~= Seq::<SymbolTableEntry>::empty());
        } else {
            let rest = path.skip(1);
            assert(path[0] != 0);
            assert(self.proper_chain(image, rest)) by {
                assert forall|k: int| 0 <= k < rest.len() implies #[trigger] rest[k] != 0 && rest[k]
                    < self.hash_nchain_value && self.symbol(image, rest[k] as int) is Some by {
                    assert(rest[k] == path[k + 1]);
                }
                assert forall|k: int| 0 <= k < rest.len() - 1 implies self.chain_next(
                    image,
                    #[trigger] rest[k],
                ) == rest[k + 1] by {
                    assert(rest[k] == path[k + 1]);
                    assert(rest[k + 1] == path[k + 2]);
                }
                if rest.len() > 0 {
                    assert(rest.last() == path.last());
                }
            }
            assert(self.chain_next(image, path[0]) == Self::start_of(rest)) by {
                if rest.len() > 0 {
                    assert(rest[0] == path[1]);
                } else {
                    assert(path.last() == path[0]);
                }
            }
            self.lemma_chain_along(image, rest, (limit - 1) as nat);
            assert(seq![self.symbol(image, path[0] as int).unwrap()] + self.symbols_of(image, rest)
                =~= self.symbols_of(image, path)) by {
                assert forall|k: int| 1 <= k < path.len() implies self.symbols_of(image, rest)[k
                    - 1] == self.symbols_of(image, path)[k] by {
                    assert(rest[k - 1] == path[k]);
                }
            }
        }
    }

    /// No index stands twice on a chain.
    pub proof fn lemma_proper_chain_is_distinct(self, image: Image, path: Seq<u32>, a: int, b: int)
        requires
            self.proper_chain(image, path),
            0 <= a < b < path.len(),
        ensures
            path[a] != path[b],
        decreases path.len() - b,
    {
        if path[a] == path[b] {
            assert(self.chain_next(image, path[a]) == path[a + 1]);
            assert(path[a + 1] != 0);
            if b == path.len() - 1 {
                assert(path.last() == path[b]);
            } else {
                assert(self.chain_next(image, path[b]) == path[b + 1]);
                self.lemma_proper_chain_is_distinct(image, path, a + 1, b + 1);
            }
        }
    }

    /// The bound of a lookup's walk never cuts a chain short: where the
    /// bucket of `name` starts the chain `path`, the lookup visits exactly
    /// the symbols of `path`, in chain order.
    pub proof fn lemma_proper_chain_is_walked_whole(self, image: Image, name: Seq<u8>, path: Seq<u32>)
        requires
            self.proper_chain(image, path),
            self.chain_head(image, name) == Self::start_of(path),
        ensures
            path.len() <= self.hash_nchain_value,
            self.candidates(image, name) == self.symbols_of(image, path),
    {
        assert forall|i: int, j: int| 0 <= i < j < path.len() implies path[i] != path[j] by {
            self.lemma_proper_chain_is_distinct(image, path, i, j);
        }
        assert forall|i: int| 0 <= i < path.len() implies #[trigger] path[i]
            < self.hash_nchain_value as nat by {
            assert(path[i] != 0);
        }
        lemma_distinct_below(path, self.hash_nchain_value as nat);
        self.lemma_chain_along(image, path, self.hash_nchain_value as nat);
    }
}

} // verus!
