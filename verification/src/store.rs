use vstd::prelude::*;

use cosmwasm_std::MemoryStorage;
use std::io::Write;

use crate::backing::bound_view;
use crate::backing::is_range_snapshot;
use crate::backing::new_memory_storage;
use crate::backing::storage_contents;
use crate::backing::storage_get;
use crate::backing::storage_range_collect;
use crate::backing::storage_remove;
use crate::backing::storage_set;
use crate::gas::GasOpKind;
use crate::gas::StorageGasConfig;
use crate::gas::StorageGasUsed;

verus! {

/// Requested key order of a `range` call.
#[derive(Clone, Copy, PartialEq, Eq, Structural, Debug)]
pub enum Order {
    Ascending,
    Descending,
}

/// Byte length of the value stored under `k`, or zero when the key is
/// absent: the value-side size a read is priced by.
pub open spec fn stored_len(m: Map<Seq<u8>, Seq<u8>>, k: Seq<u8>) -> int {
    if m.contains_key(k) {
        m[k].len() as int
    } else {
        0
    }
}

/// An in-memory ordered key-value store that charges gas for every
/// operation: each call computes a charge from the price table and the
/// operation's key and value sizes, applies it to the usage counter, then
/// delegates to the inner map and returns its result unchanged.
pub struct MemoryStorageWithGas {
    storage: MemoryStorage,
    pub gas_used: StorageGasUsed,
    pub gas_config: StorageGasConfig,
}

/// What a gas-charging storage instance is, mathematically: the entries its
/// inner map holds, its usage counter, and its price table.
pub struct StoreView {
    pub contents: Map<Seq<u8>, Seq<u8>>,
    pub gas_used: StorageGasUsed,
    pub gas_config: StorageGasConfig,
}

impl View for MemoryStorageWithGas {
    type V = StoreView;

    closed spec fn view(&self) -> StoreView {
        StoreView {
            contents: storage_contents(self.storage),
            gas_used: self.gas_used,
            gas_config: self.gas_config,
        }
    }
}

impl StoreView {
    /// Gas one `get` of `key` charges in this state.
    pub open spec fn read_charge_of(self, key: Seq<u8>) -> int {
        self.gas_config.read_charge(key.len() as int, stored_len(self.contents, key))
    }

    /// Whether one `get` of `key` stays within the machine's counter width.
    pub open spec fn can_read(self, key: Seq<u8>) -> bool {
        &&& key.len() + stored_len(self.contents, key) <= u64::MAX
        &&& self.gas_used.can_charge(self.read_charge_of(key), GasOpKind::Read)
    }

    /// Gas one `set` of `key` to `value` charges.
    pub open spec fn write_charge_of(self, key: Seq<u8>, value: Seq<u8>) -> int {
        self.gas_config.write_charge(key.len() as int, value.len() as int)
    }

    /// Whether one `set` of `key` to `value` stays within the counter width.
    pub open spec fn can_write(self, key: Seq<u8>, value: Seq<u8>) -> bool {
        &&& key.len() + value.len() <= u64::MAX
        &&& self.gas_used.can_charge(self.write_charge_of(key, value), GasOpKind::Write)
    }

    /// Whether one `remove` stays within the counter width.
    pub open spec fn can_delete(self) -> bool {
        self.gas_used.can_charge(self.gas_config.delete_charge(), GasOpKind::Delete)
    }

    /// Gas yielding record `e` from a `range` sequence charges.
    pub open spec fn iter_charge_of(self, e: (Vec<u8>, Vec<u8>)) -> int {
        self.gas_config.iter_next_charge(e.0@.len() as int, e.1@.len() as int)
    }

    /// Whether yielding record `e` stays within the counter width.
    pub open spec fn can_iter_next(self, e: (Vec<u8>, Vec<u8>)) -> bool {
        &&& e.0@.len() + e.1@.len() <= u64::MAX
        &&& self.gas_used.can_charge(self.iter_charge_of(e), GasOpKind::IterNext)
    }
}

/// The finite sequence of records one `range` call produced. It is not
/// restartable: items are pulled one at a time with
/// [`MemoryStorageWithGas::iter_next`], which charges gas per item yielded.
pub struct RangeIter {
    pub entries: Vec<(Vec<u8>, Vec<u8>)>,
    pub pos: usize,
}

impl RangeIter {
    /// A pulled prefix never overruns the sequence.
    pub open spec fn wf(self) -> bool {
        self.pos <= self.entries@.len()
    }
}

impl MemoryStorageWithGas {
    /// Create a new storage instance with the default gas config.
    pub fn new() -> (r: Self)
        ensures
            r@.contents =~= Map::<Seq<u8>, Seq<u8>>::empty(),
            r@.gas_used == StorageGasUsed::zeroed(),
            r@.gas_config == StorageGasConfig::default_spec(),
    {
        Self::default()
    }

    /// Create a new storage instance with the custom gas config `gas_config`.
    pub fn new_with_gas_config(gas_config: StorageGasConfig) -> (r: Self)
        ensures
            r@.contents =~= Map::<Seq<u8>, Seq<u8>>::empty(),
            r@.gas_used == StorageGasUsed::zeroed(),
            r@.gas_config == gas_config,
    {
        MemoryStorageWithGas {
            storage: new_memory_storage(),
            gas_used: StorageGasUsed::default(),
            gas_config,
        }
    }

    /// Get total gas usage of this storage instance since construction or
    /// the last reset.
    pub fn total_gas_used(&self) -> (r: u64)
        ensures
            r == self@.gas_used.total,
    {
        self.gas_used.total
    }

    /// Get the gas usage of the latest storage operation.
    pub fn last_gas_used(&self) -> (r: u64)
        ensures
            r == self@.gas_used.last,
    {
        self.gas_used.last
    }

    /// Reset the running total to zero. The last charge and the per-kind
    /// tallies are operation history and stay untouched.
    pub fn reset_gas(&mut self)
        ensures
            final(self)@.gas_used == old(self)@.gas_used.reset(),
            final(self)@.gas_config == old(self)@.gas_config,
            final(self)@.contents == old(self)@.contents,
    {
        self.gas_used.total = 0;
    }

    /// Read the value stored under `key`, charging
    /// `read_cost_flat + (|key| + |value or empty|) * read_cost_per_byte`
    /// gas and counting one read, hit or miss.
    pub fn get(&mut self, key: &[u8]) -> (r: Option<Vec<u8>>)
        requires
            old(self)@.can_read(key@),
        ensures
            final(self)@.contents == old(self)@.contents,
            final(self)@.gas_config == old(self)@.gas_config,
            final(self)@.gas_used == old(self)@.gas_used.charged(
                old(self)@.read_charge_of(key@),
                GasOpKind::Read,
            ),
            r is Some <==> old(self)@.contents.contains_key(key@),
            r matches Some(v) ==> v@ == old(self)@.contents[key@],
    {
        let value = storage_get(&self.storage, key);

        let value_len: u64 = match &value {
            Some(v) => v.len() as u64,
            None => 0,
        };
        let byte_count: u64 = key.len() as u64 + value_len;
        let charge: u64 = self.gas_config.read_cost_flat + byte_count
            * self.gas_config.read_cost_per_byte;
        self.gas_used.last = charge;
        self.gas_used.total = self.gas_used.total + charge;
        self.gas_used.read_cnt = self.gas_used.read_cnt + 1;

        value
    }

    /// Store `value` under `key`, charging
    /// `write_cost_flat + (|key| + |value|) * write_cost_per_byte` gas and
    /// counting one write. The inner map refuses an empty value.
    pub fn set(&mut self, key: &[u8], value: &[u8])
        requires
            value@.len() > 0,
            old(self)@.can_write(key@, value@),
        ensures
            final(self)@.contents == old(self)@.contents.insert(key@, value@),
            final(self)@.gas_config == old(self)@.gas_config,
            final(self)@.gas_used == old(self)@.gas_used.charged(
                old(self)@.write_charge_of(key@, value@),
                GasOpKind::Write,
            ),
    {
        let byte_count: u64 = key.len() as u64 + value.len() as u64;
        let charge: u64 = self.gas_config.write_cost_flat + byte_count
            * self.gas_config.write_cost_per_byte;
        self.gas_used.last = charge;
        self.gas_used.total = self.gas_used.total + charge;
        self.gas_used.write_cnt = self.gas_used.write_cnt + 1;

        storage_set(&mut self.storage, key, value)
    }

    /// Delete the entry under `key`, charging the flat `delete_cost` gas and
    /// counting one delete, whether or not the key existed.
    pub fn remove(&mut self, key: &[u8])
        requires
            old(self)@.can_delete(),
        ensures
            final(self)@.contents == old(self)@.contents.remove(key@),
            final(self)@.gas_config == old(self)@.gas_config,
            final(self)@.gas_used == old(self)@.gas_used.charged(
                old(self)@.gas_config.delete_charge(),
                GasOpKind::Delete,
            ),
    {
        let charge: u64 = self.gas_config.delete_cost;
        self.gas_used.last = charge;
        self.gas_used.total = self.gas_used.total + charge;
        self.gas_used.delete_cnt = self.gas_used.delete_cnt + 1;

        storage_remove(&mut self.storage, key)
    }

    /// Produce the finite sequence of entries whose keys fall in
    /// `[start, end)` (`None`: unbounded on that side), sorted by
    /// byte-lexicographic key order as `order` asks. The call itself charges
    /// nothing: gas is charged per item as `iter_next` yields it.
    pub fn range(&self, start: Option<&[u8]>, end: Option<&[u8]>, order: Order) -> (it: RangeIter)
        ensures
            it.wf(),
            it.pos == 0,
            is_range_snapshot(
                self@.contents,
                bound_view(start),
                bound_view(end),
                order == Order::Ascending,
                it.entries@,
            ),
    {
        let ascending = match order {
            Order::Ascending => true,
            Order::Descending => false,
        };
        let entries = storage_range_collect(&self.storage, start, end, ascending);
        RangeIter { entries, pos: 0 }
    }

    /// Yield the next record of a `range` sequence, or `None` once it is
    /// exhausted. Each yielded record charges
    /// `iter_next_cost_flat + read_cost_flat + (|key| + |value|) * read_cost_per_byte`
    /// gas and counts one iteration step; exhaustion charges nothing.
    pub fn iter_next(&mut self, it: &mut RangeIter) -> (r: Option<(Vec<u8>, Vec<u8>)>)
        requires
            old(it).wf(),
            old(it).pos < old(it).entries@.len() ==> old(self)@.can_iter_next(
                old(it).entries@[old(it).pos as int],
            ),
        ensures
            final(it).wf(),
            final(it).entries@ == old(it).entries@,
            final(self)@.contents == old(self)@.contents,
            final(self)@.gas_config == old(self)@.gas_config,
            old(it).pos == old(it).entries@.len() ==> r is None && final(it).pos == old(it).pos
                && final(self)@.gas_used == old(self)@.gas_used,
            old(it).pos < old(it).entries@.len() ==> {
                &&& r matches Some(e) && e.0@ == old(it).entries@[old(it).pos as int].0@ && e.1@
                    == old(it).entries@[old(it).pos as int].1@
                &&& final(it).pos == old(it).pos + 1
                &&& final(self)@.gas_used == old(self)@.gas_used.charged(
                    old(self)@.iter_charge_of(old(it).entries@[old(it).pos as int]),
                    GasOpKind::IterNext,
                )
            },
    {
        if it.pos == it.entries.len() {
            return None;
        }
        let entry = &it.entries[it.pos];
        let key = vstd::slice::slice_to_vec(entry.0.as_slice());
        let value = vstd::slice::slice_to_vec(entry.1.as_slice());

        let byte_count: u64 = key.len() as u64 + value.len() as u64;
        let charge: u64 = self.gas_config.iter_next_cost_flat + self.gas_config.read_cost_flat
            + byte_count * self.gas_config.read_cost_per_byte;
        self.gas_used.last = charge;
        self.gas_used.total = self.gas_used.total + charge;
        self.gas_used.iter_next_cnt = self.gas_used.iter_next_cnt + 1;
        it.pos = it.pos + 1;

        Some((key, value))
    }

    /// Write a human-readable dump of the usage counter to standard output
    /// without touching any state.
    pub fn log_gas(&self) {
        log_gas_line(&self.gas_used)
    }
}

impl Default for MemoryStorageWithGas {
    /// A fresh storage instance: empty map, zeroed counter, default prices.
    fn default() -> (r: Self)
        ensures
            r@.contents =~= Map::<Seq<u8>, Seq<u8>>::empty(),
            r@.gas_used == StorageGasUsed::zeroed(),
            r@.gas_config == StorageGasConfig::default_spec(),
    {
        MemoryStorageWithGas {
            storage: new_memory_storage(),
            gas_used: StorageGasUsed::default(),
            gas_config: StorageGasConfig::default(),
        }
    }
}

/// Relies on `writeln` to `std::io::stdout` for the diagnostic dump; the
/// counter itself is handed in read-only.
#[verifier::external_body]
fn log_gas_line(g: &StorageGasUsed) {
    let _ = writeln!(
        std::io::stdout(),
        "StorageGasUsed {{ total: {}, last: {}, read_cnt: {}, write_cnt: {}, delete_cnt: {}, iter_next_cnt: {} }}",
        g.total,
        g.last,
        g.read_cnt,
        g.write_cnt,
        g.delete_cnt,
        g.iter_next_cnt,
    );
}

} // verus!
