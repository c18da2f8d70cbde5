use std::cell::RefCell;
use std::error::Error;

use cosmwasm_std::Order as CwOrder;
use cosmwasm_std::Record;
use cosmwasm_std::StdResult;
use cosmwasm_std::Storage;

use gas_storage::MemoryStorageWithGas;
use gas_storage::Order;
use gas_storage::StorageGasConfig;
use gas_storage::StorageGasUsed;

/// The gas-charging store behind a shared handle: the usage counter sits in
/// a runtime-checked cell, so reads charge gas through `&self` and the
/// whole thing plugs into `cosmwasm_std::Storage` consumers.
struct SharedGasStorage(RefCell<MemoryStorageWithGas>);

impl Storage for SharedGasStorage {
    fn get(&self, key: &[u8]) -> Option<Vec<u8>> {
        self.0.borrow_mut().get(key)
    }

    fn set(&mut self, key: &[u8], value: &[u8]) {
        self.0.borrow_mut().set(key, value)
    }

    fn remove(&mut self, key: &[u8]) {
        self.0.borrow_mut().remove(key)
    }

    fn range<'a>(
        &'a self,
        start: Option<&[u8]>,
        end: Option<&[u8]>,
        order: CwOrder,
    ) -> Box<dyn Iterator<Item = Record> + 'a> {
        let mut store = self.0.borrow_mut();
        let mut it = store.range(
            start,
            end,
            match order {
                CwOrder::Ascending => Order::Ascending,
                CwOrder::Descending => Order::Descending,
            },
        );
        let mut out: Vec<Record> = Vec::new();
        while let Some(record) = store.iter_next(&mut it) {
            out.push(record);
        }
        Box::new(out.into_iter())
    }
}

#[test]
fn default_gas() -> Result<(), Box<dyn Error>> {
    let storage = MemoryStorageWithGas::default();

    assert_eq!(storage.gas_used, StorageGasUsed::default());

    Ok(())
}

#[test]
fn consume_gas() -> Result<(), Box<dyn Error>> {
    let mut storage = SharedGasStorage(RefCell::new(MemoryStorageWithGas::default()));
    let map = cw_storage_plus::Map::<u64, Vec<u8>>::new("0");

    // write
    let data = b"hello";
    map.save(&mut storage, 0, &data.to_vec())?;

    let gas = storage.0.borrow().gas_used;
    assert_eq!(gas.last, 2960);
    assert_eq!(gas.write_cnt, 1);

    // read
    let loaded_data = map.load(&storage, 0)?;

    let gas = storage.0.borrow().gas_used;
    assert_eq!(loaded_data, data);
    assert_eq!(gas.last, 1096);
    assert_eq!(gas.read_cnt, 1);

    // iter next
    map.range(&storage, None, None, CwOrder::Ascending)
        .collect::<StdResult<Vec<_>>>()?;

    let gas = storage.0.borrow().gas_used;
    assert_eq!(gas.last, 1126);
    assert_eq!(gas.iter_next_cnt, 1);

    // delete
    map.remove(&mut storage, 0);

    let gas = storage.0.borrow().gas_used;
    assert_eq!(gas.last, 1000);
    assert_eq!(gas.delete_cnt, 1);

    Ok(())
}

#[test]
fn charges_follow_the_price_table() {
    // Default model: write 2000 + (3+5)*30 = 2240, read 1000 + (3+5)*3 = 1024,
    // delete 1000 flat; totals accumulate in issuance order.
    let mut storage = MemoryStorageWithGas::new();
    assert_eq!(storage.total_gas_used(), 0);

    storage.set(&[1, 2, 3], &[9, 9, 9, 9, 9]);
    assert_eq!(storage.last_gas_used(), 2240);
    assert_eq!(storage.gas_used.write_cnt, 1);
    assert_eq!(storage.total_gas_used(), 2240);

    let value = storage.get(&[1, 2, 3]);
    assert_eq!(value, Some(vec![9, 9, 9, 9, 9]));
    assert_eq!(storage.last_gas_used(), 1024);
    assert_eq!(storage.gas_used.read_cnt, 1);
    assert_eq!(storage.total_gas_used(), 3264);

    storage.remove(&[1, 2, 3]);
    assert_eq!(storage.last_gas_used(), 1000);
    assert_eq!(storage.gas_used.delete_cnt, 1);
    assert_eq!(storage.total_gas_used(), 4264);

    // A range over the then-empty map yields nothing and charges nothing.
    let mut it = storage.range(None, None, Order::Ascending);
    assert_eq!(storage.iter_next(&mut it), None);
    assert_eq!(storage.gas_used.iter_next_cnt, 0);
    assert_eq!(storage.total_gas_used(), 4264);
}

#[test]
fn read_miss_charges_key_bytes_only() {
    let mut storage = MemoryStorageWithGas::new();
    let value = storage.get(&[7, 7]);
    assert_eq!(value, None);
    // 1000 + (2+0)*3: the absent value contributes zero bytes.
    assert_eq!(storage.last_gas_used(), 1006);
    assert_eq!(storage.gas_used.read_cnt, 1);
}

#[test]
fn remove_charges_on_miss_too() {
    let mut storage = MemoryStorageWithGas::new();
    storage.remove(b"never-written");
    assert_eq!(storage.last_gas_used(), 1000);
    assert_eq!(storage.gas_used.delete_cnt, 1);
    assert_eq!(storage.total_gas_used(), 1000);
}

#[test]
fn reset_gas_zeroes_total_and_keeps_history() {
    let mut storage = MemoryStorageWithGas::new();
    storage.set(b"abc", b"de");
    storage.get(b"abc");
    storage.remove(b"abc");
    let before = storage.gas_used;
    assert!(before.total > 0);

    storage.reset_gas();

    let after = storage.gas_used;
    assert_eq!(after.total, 0);
    assert_eq!(after.last, before.last);
    assert_eq!(after.read_cnt, before.read_cnt);
    assert_eq!(after.write_cnt, before.write_cnt);
    assert_eq!(after.delete_cnt, before.delete_cnt);
    assert_eq!(after.iter_next_cnt, before.iter_next_cnt);
}

#[test]
fn log_gas_changes_nothing() {
    let mut storage = MemoryStorageWithGas::new();
    storage.set(b"k", b"v");
    let before = storage.gas_used;

    storage.log_gas();
    storage.log_gas();
    storage.log_gas();

    assert_eq!(storage.gas_used, before);
    assert_eq!(storage.total_gas_used(), before.total);
}

#[test]
fn range_charges_per_item_yielded() {
    let mut storage = MemoryStorageWithGas::new();
    storage.set(b"b", b"two");
    storage.set(b"a", b"one");
    storage.set(b"c", b"three");
    let counts_after_writes = storage.gas_used;
    assert_eq!(counts_after_writes.write_cnt, 3);
    assert_eq!(counts_after_writes.iter_next_cnt, 0);

    let mut it = storage.range(None, None, Order::Ascending);
    // Producing the sequence charged nothing yet.
    assert_eq!(storage.gas_used, counts_after_writes);

    let first = storage.iter_next(&mut it).unwrap();
    assert_eq!(first, (b"a".to_vec(), b"one".to_vec()));
    assert_eq!(storage.gas_used.iter_next_cnt, 1);
    // 30 + 1000 + (1+3)*3
    assert_eq!(storage.last_gas_used(), 1042);

    let second = storage.iter_next(&mut it).unwrap();
    assert_eq!(second, (b"b".to_vec(), b"two".to_vec()));
    assert_eq!(storage.gas_used.iter_next_cnt, 2);
    assert_eq!(storage.last_gas_used(), 1042);

    let third = storage.iter_next(&mut it).unwrap();
    assert_eq!(third, (b"c".to_vec(), b"three".to_vec()));
    assert_eq!(storage.gas_used.iter_next_cnt, 3);
    // 30 + 1000 + (1+5)*3
    assert_eq!(storage.last_gas_used(), 1048);

    // Exhaustion yields None and charges nothing more.
    assert_eq!(storage.iter_next(&mut it), None);
    assert_eq!(storage.iter_next(&mut it), None);
    assert_eq!(storage.gas_used.iter_next_cnt, 3);
    assert_eq!(storage.last_gas_used(), 1048);
}

#[test]
fn range_respects_window_and_order() {
    let mut storage = MemoryStorageWithGas::new();
    storage.set(b"ant", b"hill");
    storage.set(b"foo", b"bar");
    storage.set(b"ze", b"bra");

    // Bounded [f, n): only "foo".
    let mut it = storage.range(Some(b"f"), Some(b"n"), Order::Ascending);
    assert_eq!(
        storage.iter_next(&mut it),
        Some((b"foo".to_vec(), b"bar".to_vec()))
    );
    assert_eq!(storage.iter_next(&mut it), None);

    // Descending over everything.
    let mut it = storage.range(None, None, Order::Descending);
    assert_eq!(storage.iter_next(&mut it).unwrap().0, b"ze".to_vec());
    assert_eq!(storage.iter_next(&mut it).unwrap().0, b"foo".to_vec());
    assert_eq!(storage.iter_next(&mut it).unwrap().0, b"ant".to_vec());
    assert_eq!(storage.iter_next(&mut it), None);

    // An inverted window is empty.
    let mut it = storage.range(Some(b"z"), Some(b"a"), Order::Ascending);
    assert_eq!(storage.iter_next(&mut it), None);

    // An empty window [a, a) is empty.
    let mut it = storage.range(Some(b"foo"), Some(b"foo"), Order::Ascending);
    assert_eq!(storage.iter_next(&mut it), None);
}

#[test]
fn custom_gas_config_is_used() {
    let config = StorageGasConfig {
        has_cost: 1,
        delete_cost: 7,
        read_cost_flat: 10,
        read_cost_per_byte: 2,
        write_cost_flat: 100,
        write_cost_per_byte: 5,
        iter_next_cost_flat: 3,
    };
    let mut storage = MemoryStorageWithGas::new_with_gas_config(config);
    assert_eq!(storage.gas_config, config);

    storage.set(b"ab", b"cde");
    // 100 + (2+3)*5
    assert_eq!(storage.last_gas_used(), 125);

    storage.get(b"ab");
    // 10 + (2+3)*2
    assert_eq!(storage.last_gas_used(), 20);

    let mut it = storage.range(None, None, Order::Ascending);
    storage.iter_next(&mut it).unwrap();
    // 3 + 10 + (2+3)*2
    assert_eq!(storage.last_gas_used(), 23);

    storage.remove(b"ab");
    assert_eq!(storage.last_gas_used(), 7);

    assert_eq!(storage.total_gas_used(), 125 + 20 + 23 + 7);
}

#[test]
fn set_overwrites_and_get_returns_stored_value() {
    let mut storage = MemoryStorageWithGas::new();
    storage.set(b"key", b"first");
    storage.set(b"key", b"second!");
    assert_eq!(storage.get(b"key"), Some(b"second!".to_vec()));
    // Read of the 7-byte value: 1000 + (3+7)*3.
    assert_eq!(storage.last_gas_used(), 1030);

    storage.remove(b"key");
    assert_eq!(storage.get(b"key"), None);
}

#[test]
fn shared_handle_charges_like_the_owned_one() {
    // The same operations through the shared-access adapter: the counter
    // moves even though reads hold only `&self`.
    let shared = SharedGasStorage(RefCell::new(MemoryStorageWithGas::default()));

    let miss = shared.get(b"nothing");
    assert_eq!(miss, None);
    {
        let gas = shared.0.borrow().gas_used;
        assert_eq!(gas.read_cnt, 1);
        assert_eq!(gas.last, 1000 + 7 * 3);
    }

    let mut shared = shared;
    shared.set(b"one", b"1");
    shared.set(b"two", b"2");
    let records: Vec<Record> = shared.range(None, None, CwOrder::Ascending).collect();
    assert_eq!(records.len(), 2);
    assert_eq!(records[0].0, b"one".to_vec());
    assert_eq!(records[1].0, b"two".to_vec());

    let gas = shared.0.borrow().gas_used;
    assert_eq!(gas.write_cnt, 2);
    assert_eq!(gas.iter_next_cnt, 2);
}
