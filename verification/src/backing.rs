use vstd::prelude::*;

use cosmwasm_std::MemoryStorage;
use cosmwasm_std::Storage;

verus! {

/// The inner ordered key-value map is `cosmwasm_std::MemoryStorage`, an
/// external collaborator: a `BTreeMap<Vec<u8>, Vec<u8>>` behind the
/// `cosmwasm_std::Storage` trait. It is declared here so values of it can
/// stand in fields and signatures; everything stated about it lives in the
/// contracts of the wrappers below.
#[verifier::external_type_specification]
#[verifier::external_body]
pub struct ExMemoryStorage(MemoryStorage);

/// The entries a `MemoryStorage` holds, as a map from key bytes to value
/// bytes.
pub uninterp spec fn storage_contents(s: MemoryStorage) -> Map<Seq<u8>, Seq<u8>>;

/// Strict byte-lexicographic order on keys: the order `BTreeMap` uses for
/// `Vec<u8>` keys, and the order `range` iterates in.
pub open spec fn lex_lt(a: Seq<u8>, b: Seq<u8>) -> bool
    decreases a.len(),
{
    if a.len() == 0 {
        b.len() > 0
    } else if b.len() == 0 {
        false
    } else if a[0] < b[0] {
        true
    } else if a[0] > b[0] {
        false
    } else {
        lex_lt(a.skip(1), b.skip(1))
    }
}

/// A range bound as a spec value: `None` leaves that side unbounded.
pub open spec fn bound_view(b: Option<&[u8]>) -> Option<Seq<u8>> {
    match b {
        Some(x) => Some(x@),
        None => None,
    }
}

/// Whether key `k` falls in the window `[start, end)`, each side unbounded
/// when `None`. When `end` is not above `start` no key qualifies, which is
/// exactly how the inner map treats such a window: as empty.
pub open spec fn key_in_window(k: Seq<u8>, start: Option<Seq<u8>>, end: Option<Seq<u8>>) -> bool {
    &&& match start {
        Some(s) => !lex_lt(k, s),
        None => true,
    }
    &&& match end {
        Some(e) => lex_lt(k, e),
        None => true,
    }
}

/// Whether `r` is the full snapshot of the entries of `m` whose keys fall
/// in `[start, end)`, sorted by byte-lexicographic key order, ascending or
/// descending.
pub open spec fn is_range_snapshot(
    m: Map<Seq<u8>, Seq<u8>>,
    start: Option<Seq<u8>>,
    end: Option<Seq<u8>>,
    ascending: bool,
    r: Seq<(Vec<u8>, Vec<u8>)>,
) -> bool {
    &&& forall|i: int|
        0 <= i < r.len() ==> m.contains_key((#[trigger] r[i]).0@) && r[i].1@ == m[r[i].0@]
            && key_in_window(r[i].0@, start, end)
    &&& forall|k: Seq<u8>|
        #[trigger] m.contains_key(k) && key_in_window(k, start, end) ==> exists|i: int|
            0 <= i < r.len() && (#[trigger] r[i]).0@ == k
    &&& forall|i: int, j: int|
        0 <= i < j < r.len() ==> if ascending {
            lex_lt((#[trigger] r[i]).0@, (#[trigger] r[j]).0@)
        } else {
            lex_lt(r[j].0@, r[i].0@)
        }
}

/// Relies on `MemoryStorage::new`: a freshly constructed map holds no
/// entries.
#[verifier::external_body]
pub(crate) fn new_memory_storage() -> (s: MemoryStorage)
    ensures
        storage_contents(s).dom() =~= Set::empty(),
{
    MemoryStorage::new()
}

/// Relies on `<MemoryStorage as Storage>::get`: returns a copy of the value
/// stored under `key`, or `None` when the key is absent.
#[verifier::external_body]
pub(crate) fn storage_get(s: &MemoryStorage, key: &[u8]) -> (r: Option<Vec<u8>>)
    ensures
        r is Some <==> storage_contents(*s).contains_key(key@),
        r matches Some(v) ==> v@ == storage_contents(*s)[key@],
{
    s.get(key)
}

/// Relies on `<MemoryStorage as Storage>::set`: stores `value` under `key`,
/// replacing any previous value. The inner map refuses (panics on) an empty
/// value, so one is left out here.
#[verifier::external_body]
pub(crate) fn storage_set(s: &mut MemoryStorage, key: &[u8], value: &[u8])
    requires
        value@.len() > 0,
    ensures
        storage_contents(*final(s)) == storage_contents(*old(s)).insert(key@, value@),
{
    s.set(key, value)
}

/// Relies on `<MemoryStorage as Storage>::remove`: deletes the entry under
/// `key`; a miss is a no-op.
#[verifier::external_body]
pub(crate) fn storage_remove(s: &mut MemoryStorage, key: &[u8])
    ensures
        storage_contents(*final(s)) == storage_contents(*old(s)).remove(key@),
{
    s.remove(key)
}

/// Relies on `<MemoryStorage as Storage>::range`: iterates the entries
/// whose keys fall in `[start, end)` in byte-lexicographic key order,
/// ascending or descending; a window whose end is not above its start is
/// empty. The finite iterator it returns is collected here.
#[verifier::external_body]
pub(crate) fn storage_range_collect(
    s: &MemoryStorage,
    start: Option<&[u8]>,
    end: Option<&[u8]>,
    ascending: bool,
) -> (r: Vec<(Vec<u8>, Vec<u8>)>)
    ensures
        is_range_snapshot(storage_contents(*s), bound_view(start), bound_view(end), ascending, r@),
{
    let order = if ascending {
        cosmwasm_std::Order::Ascending
    } else {
        cosmwasm_std::Order::Descending
    };
    s.range(start, end, order).collect()
}

} // verus!
