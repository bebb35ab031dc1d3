//! The host function bridge: the closed set of capabilities a guest may
//! call — `host_log`, `host_get`, `host_set`.
//!
//! Each capability receives the calling guest's linear memory image and a
//! handle to the shared state store.  Every guest-supplied pointer/length
//! pair is validated against the memory size before any byte is touched; a
//! rejected call returns the sentinel `0` without reading or mutating
//! anything, so a malicious or buggy guest can never fault the host.

use vstd::prelude::*;

verus! {

use crate::memory::{range_ok, window, overwrite, check_range, read_range, write_range, take_prefix};
use crate::store::{KvStore, value_or_empty};

/// How many bytes a capacity-bounded read of `key` copies out:
/// `min(len(stored value), cap)`, and `0` when the key is absent.
pub open spec fn copy_len(m: Map<Seq<u8>, Seq<u8>>, key: Seq<u8>, cap: u32) -> int {
    if m.contains_key(key) {
        if m[key].len() <= cap {
            m[key].len() as int
        } else {
            cap as int
        }
    } else {
        0
    }
}

/// The bytes a capacity-bounded read of `key` copies out: the stored
/// value, silently truncated to `cap` bytes; empty when the key is absent.
pub open spec fn stored_prefix(m: Map<Seq<u8>, Seq<u8>>, key: Seq<u8>, cap: u32) -> Seq<u8> {
    value_or_empty(m, key).take(copy_len(m, key, cap))
}

/// `host_log(ptr, len)`: validates the range, then copies the referenced
/// bytes out for diagnostic output.  Returns status `1` and the bytes on
/// success; status `0` and no bytes on a rejected range, without reading.
pub fn host_log(mem: &Vec<u8>, ptr: u32, len: u32) -> (r: (i32, Vec<u8>))
    ensures
        range_ok(ptr, len, mem@.len()) ==> r.0 == 1 && r.1@ == window(mem@, ptr, len),
        !range_ok(ptr, len, mem@.len()) ==> r.0 == 0 && r.1@ == Seq::<u8>::empty(),
{
    if check_range(mem, ptr, len) {
        (1, read_range(mem, ptr, len))
    } else {
        (0, Vec::new())
    }
}

/// `host_get(key_ptr, key_len, value_ptr, value_cap)`: copies the key out
/// of guest memory, looks it up, and writes at most `value_cap` bytes of
/// the stored value back into guest memory, truncating silently.  Returns
/// the number of bytes written: `0` when either range is rejected, when the
/// key is absent, or when the byte count would not fit the guest-facing
/// signed 32-bit return; in each of those cases guest memory is unchanged.
pub fn host_get(
    store: &KvStore,
    mem: &mut Vec<u8>,
    key_ptr: u32,
    key_len: u32,
    val_ptr: u32,
    val_cap: u32,
) -> (written: i32)
    requires
        store.wf(),
    ensures
        final(mem)@.len() == old(mem)@.len(),
        !range_ok(key_ptr, key_len, old(mem)@.len()) ==> written == 0 && final(mem)@ == old(
            mem,
        )@,
        range_ok(key_ptr, key_len, old(mem)@.len()) && !store@.contains_key(
            window(old(mem)@, key_ptr, key_len),
        ) ==> written == 0 && final(mem)@ == old(mem)@,
        range_ok(key_ptr, key_len, old(mem)@.len()) && store@.contains_key(
            window(old(mem)@, key_ptr, key_len),
        ) && !range_ok(val_ptr, val_cap, old(mem)@.len()) ==> written == 0 && final(mem)@ == old(
            mem,
        )@,
        range_ok(key_ptr, key_len, old(mem)@.len()) && store@.contains_key(
            window(old(mem)@, key_ptr, key_len),
        ) && range_ok(val_ptr, val_cap, old(mem)@.len()) && copy_len(
            store@,
            window(old(mem)@, key_ptr, key_len),
            val_cap,
        ) <= i32::MAX ==> written == copy_len(store@, window(old(mem)@, key_ptr, key_len), val_cap)
            && final(mem)@ == overwrite(
            old(mem)@,
            val_ptr as int,
            stored_prefix(store@, window(old(mem)@, key_ptr, key_len), val_cap),
        ),
        range_ok(key_ptr, key_len, old(mem)@.len()) && store@.contains_key(
            window(old(mem)@, key_ptr, key_len),
        ) && range_ok(val_ptr, val_cap, old(mem)@.len()) && copy_len(
            store@,
            window(old(mem)@, key_ptr, key_len),
            val_cap,
        ) > i32::MAX ==> written == 0 && final(mem)@ == old(mem)@,
{
    if !check_range(mem, key_ptr, key_len) {
        return 0;
    }
    let key = read_range(mem, key_ptr, key_len);
    match store.lookup(&key) {
        None => 0,
        Some(value) => {
            if !check_range(mem, val_ptr, val_cap) {
                return 0;
            }
            let n: usize = if value.len() <= val_cap as usize {
                value.len()
            } else {
                val_cap as usize
            };
            if n > 0x7fff_ffff {
                return 0;
            }
            let prefix = take_prefix(value, n);
            write_range(mem, val_ptr, &prefix);
            n as i32
        },
    }
}

/// `host_set(key_ptr, key_len, value_ptr, value_len)`: validates both
/// ranges, copies key and value out of guest memory, and inserts them into
/// the store, replacing any prior value.  Returns `1` on success; `0` when
/// either range is rejected, in which case the store is unchanged.
pub fn host_set(
    store: &mut KvStore,
    mem: &Vec<u8>,
    key_ptr: u32,
    key_len: u32,
    val_ptr: u32,
    val_len: u32,
) -> (status: i32)
    requires
        old(store).wf(),
    ensures
        final(store).wf(),
        range_ok(key_ptr, key_len, mem@.len()) && range_ok(val_ptr, val_len, mem@.len())
            ==> status == 1 && final(store)@ == old(store)@.insert(
            window(mem@, key_ptr, key_len),
            window(mem@, val_ptr, val_len),
        ),
        !(range_ok(key_ptr, key_len, mem@.len()) && range_ok(val_ptr, val_len, mem@.len()))
            ==> status == 0 && final(store)@ == old(store)@,
{
    if !check_range(mem, key_ptr, key_len) {
        return 0;
    }
    if !check_range(mem, val_ptr, val_len) {
        return 0;
    }
    let key = read_range(mem, key_ptr, key_len);
    let value = read_range(mem, val_ptr, val_len);
    let _prev = store.set(key, value);
    1
}

/// Round trip: storing `v` under `k` and then reading `k` back with a
/// capacity of at least `v`'s length yields exactly `v`, and reports
/// exactly `v`'s length as written.
pub proof fn lemma_round_trip(m: Map<Seq<u8>, Seq<u8>>, k: Seq<u8>, v: Seq<u8>, cap: u32)
    requires
        v.len() <= cap,
    ensures
        copy_len(m.insert(k, v), k, cap) == v.len(),
        stored_prefix(m.insert(k, v), k, cap) == v,
{
    assert(stored_prefix(m.insert(k, v), k, cap) =~= v);
}

/// Truncation: when the stored value is longer than the reader's capacity,
/// the read returns exactly the capacity-length prefix of the value and
/// reports the capacity as the written count.
pub proof fn lemma_truncation(m: Map<Seq<u8>, Seq<u8>>, k: Seq<u8>, v: Seq<u8>, cap: u32)
    requires
        cap < v.len(),
    ensures
        copy_len(m.insert(k, v), k, cap) == cap,
        stored_prefix(m.insert(k, v), k, cap) == v.take(cap as int),
{
}

/// One source of truth: a guest write through the bridge is visible to a
/// later direct read.  When both ranges of a `host_set` are valid, the
/// store afterwards holds exactly the value window under the key window,
/// so a whole-value read of that key returns exactly the bytes the guest
/// wrote — the bridge and the direct API share the one map.
pub proof fn lemma_guest_write_then_direct_get(
    m: Map<Seq<u8>, Seq<u8>>,
    mem: Seq<u8>,
    key_ptr: u32,
    key_len: u32,
    val_ptr: u32,
    val_len: u32,
)
    requires
        range_ok(key_ptr, key_len, mem.len()),
        range_ok(val_ptr, val_len, mem.len()),
    ensures
        value_or_empty(
            m.insert(window(mem, key_ptr, key_len), window(mem, val_ptr, val_len)),
            window(mem, key_ptr, key_len),
        ) == window(mem, val_ptr, val_len),
{
}

/// Absent key: a capacity-bounded read of a key never stored copies no
/// bytes and reports a written count of zero — never an error.
pub proof fn lemma_absent(m: Map<Seq<u8>, Seq<u8>>, k: Seq<u8>, cap: u32)
    requires
        !m.contains_key(k),
    ensures
        copy_len(m, k, cap) == 0,
        stored_prefix(m, k, cap) == Seq::<u8>::empty(),
{
    assert(stored_prefix(m, k, cap) =~= Seq::<u8>::empty());
}

} // verus!
