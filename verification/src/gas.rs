use vstd::prelude::*;

verus! {

/// The kind of storage operation a gas charge is attributed to.
#[derive(Clone, Copy, PartialEq, Eq, Structural, Debug)]
pub enum GasOpKind {
    Read,
    Write,
    Delete,
    IterNext,
}

/// Running gas bookkeeping for one storage instance: the cumulative bill,
/// the charge of the most recent operation, and one invocation tally per
/// operation kind.
#[derive(Clone, Copy, PartialEq, Eq, Structural, Debug)]
pub struct StorageGasUsed {
    pub total: u64,
    pub last: u64,
    pub read_cnt: u64,
    pub write_cnt: u64,
    pub delete_cnt: u64,
    pub iter_next_cnt: u64,
}

impl Default for StorageGasUsed {
    /// A fresh counter: every field reads zero.
    fn default() -> (r: Self)
        ensures
            r == StorageGasUsed::zeroed(),
    {
        StorageGasUsed {
            total: 0,
            last: 0,
            read_cnt: 0,
            write_cnt: 0,
            delete_cnt: 0,
            iter_next_cnt: 0,
        }
    }
}

impl StorageGasUsed {
    /// The counter state of a freshly constructed storage instance.
    pub open spec fn zeroed() -> StorageGasUsed {
        StorageGasUsed {
            total: 0,
            last: 0,
            read_cnt: 0,
            write_cnt: 0,
            delete_cnt: 0,
            iter_next_cnt: 0,
        }
    }

    /// Whether one more charge of `amount` gas for an operation of kind
    /// `kind` stays within the machine's counter width.
    pub open spec fn can_charge(self, amount: int, kind: GasOpKind) -> bool {
        0 <= amount && self.total + amount <= u64::MAX && self.count_of(kind) + 1 <= u64::MAX
    }

    /// The invocation tally this counter keeps for `kind`.
    pub open spec fn count_of(self, kind: GasOpKind) -> u64 {
        match kind {
            GasOpKind::Read => self.read_cnt,
            GasOpKind::Write => self.write_cnt,
            GasOpKind::Delete => self.delete_cnt,
            GasOpKind::IterNext => self.iter_next_cnt,
        }
    }

    /// The counter after one charge of `amount` gas attributed to `kind`:
    /// the amount is added to `total`, recorded in `last`, and the tally of
    /// `kind` moves up by one. Meaningful when `can_charge` held beforehand;
    /// the casts are then exact.
    pub open spec fn charged(self, amount: int, kind: GasOpKind) -> StorageGasUsed {
        StorageGasUsed {
            total: (self.total + amount) as u64,
            last: amount as u64,
            read_cnt: if kind == GasOpKind::Read {
                (self.read_cnt + 1) as u64
            } else {
                self.read_cnt
            },
            write_cnt: if kind == GasOpKind::Write {
                (self.write_cnt + 1) as u64
            } else {
                self.write_cnt
            },
            delete_cnt: if kind == GasOpKind::Delete {
                (self.delete_cnt + 1) as u64
            } else {
                self.delete_cnt
            },
            iter_next_cnt: if kind == GasOpKind::IterNext {
                (self.iter_next_cnt + 1) as u64
            } else {
                self.iter_next_cnt
            },
        }
    }

    /// The counter after `reset_gas`: the running bill is zeroed, the
    /// operation history is kept.
    pub open spec fn reset(self) -> StorageGasUsed {
        StorageGasUsed { total: 0, ..self }
    }
}

/// Immutable per-operation gas prices, fixed at construction.
#[derive(Clone, Copy, PartialEq, Eq, Structural, Debug)]
pub struct StorageGasConfig {
    pub has_cost: u64,
    pub delete_cost: u64,
    pub read_cost_flat: u64,
    pub read_cost_per_byte: u64,
    pub write_cost_flat: u64,
    pub write_cost_per_byte: u64,
    pub iter_next_cost_flat: u64,
}

impl Default for StorageGasConfig {
    /// The default price table.
    fn default() -> (r: Self)
        ensures
            r == StorageGasConfig::default_spec(),
    {
        StorageGasConfig {
            has_cost: 1000,
            delete_cost: 1000,
            read_cost_flat: 1000,
            read_cost_per_byte: 3,
            write_cost_flat: 2000,
            write_cost_per_byte: 30,
            iter_next_cost_flat: 30,
        }
    }
}

impl StorageGasConfig {
    /// The default price table as a spec-level value.
    pub open spec fn default_spec() -> StorageGasConfig {
        StorageGasConfig {
            has_cost: 1000,
            delete_cost: 1000,
            read_cost_flat: 1000,
            read_cost_per_byte: 3,
            write_cost_flat: 2000,
            write_cost_per_byte: 30,
            iter_next_cost_flat: 30,
        }
    }

    /// Gas charged by one `get`, over the key length and the length of the
    /// value that comes back (zero when the key is absent).
    pub open spec fn read_charge(self, key_len: int, value_len: int) -> int {
        self.read_cost_flat + (key_len + value_len) * self.read_cost_per_byte
    }

    /// Gas charged by one `set`, over the key and value lengths.
    pub open spec fn write_charge(self, key_len: int, value_len: int) -> int {
        self.write_cost_flat + (key_len + value_len) * self.write_cost_per_byte
    }

    /// Gas charged by one `remove`: flat, whether or not the key existed.
    pub open spec fn delete_charge(self) -> int {
        self.delete_cost as int
    }

    /// Gas charged by one item yielded from a `range` sequence.
    pub open spec fn iter_next_charge(self, key_len: int, value_len: int) -> int {
        self.iter_next_cost_flat + self.read_charge(key_len, value_len)
    }
}

} // verus!
