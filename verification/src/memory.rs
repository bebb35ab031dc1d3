//! Bounds-checked windows into a guest's linear memory.
//!
//! Every pointer/length pair a guest hands to a host capability is validated
//! against the guest's current memory size before any byte is read or
//! written.  A guest memory image is modeled as a byte vector.

use vstd::prelude::*;

verus! {

use vstd::pervasive::VecAdditionalExecFns;

/// The range `[ptr, ptr + len)` lies inside a memory of `size` bytes.
pub open spec fn range_ok(ptr: u32, len: u32, size: nat) -> bool {
    ptr + len <= size
}

/// The bytes of the window `[ptr, ptr + len)` of a memory image.
pub open spec fn window(mem: Seq<u8>, ptr: u32, len: u32) -> Seq<u8> {
    mem.subrange(ptr as int, ptr as int + len as int)
}

/// `s` with `d` written at offset `at`; all other positions keep their byte.
pub open spec fn overwrite(s: Seq<u8>, at: int, d: Seq<u8>) -> Seq<u8> {
    Seq::new(s.len(), |j: int| if at <= j < at + d.len() { d[j - at] } else { s[j] })
}

/// Validates a guest-supplied pointer/length pair against the memory size.
pub fn check_range(mem: &Vec<u8>, ptr: u32, len: u32) -> (r: bool)
    ensures
        r == range_ok(ptr, len, mem@.len()),
{
    (ptr as u64) + (len as u64) <= (mem.len() as u64)
}

/// Copies the validated window `[ptr, ptr + len)` out of guest memory.
pub fn read_range(mem: &Vec<u8>, ptr: u32, len: u32) -> (out: Vec<u8>)
    requires
        range_ok(ptr, len, mem@.len()),
    ensures
        out@ == window(mem@, ptr, len),
{
    let total: usize = mem.len();
    let mut out: Vec<u8> = Vec::new();
    let mut i: usize = 0;
    while i < len as usize
        invariant
            range_ok(ptr, len, mem@.len()),
            total == mem@.len(),
            i <= len,
            out@ == mem@.subrange(ptr as int, ptr as int + i as int),
        decreases len - i,
    {
        out.push(mem[ptr as usize + i]);
        proof {
            assert(mem@.subrange(ptr as int, ptr as int + (i + 1) as int) =~= mem@.subrange(
                ptr as int,
                ptr as int + i as int,
            ).push(mem@[ptr as int + i as int]));
        }
        i += 1;
    }
    proof {
        assert(out@ =~= window(mem@, ptr, len));
    }
    out
}

/// Writes `data` into the validated window starting at `ptr`, leaving every
/// byte outside the window unchanged.
pub fn write_range(mem: &mut Vec<u8>, ptr: u32, data: &Vec<u8>)
    requires
        ptr + data@.len() <= old(mem)@.len(),
    ensures
        final(mem)@ == overwrite(old(mem)@, ptr as int, data@),
{
    let n = data.len();
    let total: usize = mem.len();
    let mut i: usize = 0;
    while i < n
        invariant
            n == data@.len(),
            i <= n,
            ptr + n <= old(mem)@.len(),
            total == old(mem)@.len(),
            mem@.len() == old(mem)@.len(),
            forall|j: int|
                0 <= j < mem@.len() ==> mem@[j] == (if ptr <= j < ptr + i {
                    data@[j - ptr]
                } else {
                    old(mem)@[j]
                }),
        decreases n - i,
    {
        mem.set(ptr as usize + i, data[i]);
        i += 1;
    }
    proof {
        assert(mem@ =~= overwrite(old(mem)@, ptr as int, data@));
    }
}

/// A copy of the first `n` bytes of `v`.
pub fn take_prefix(v: &Vec<u8>, n: usize) -> (out: Vec<u8>)
    requires
        n <= v@.len(),
    ensures
        out@ == v@.take(n as int),
{
    let out = vstd::slice::slice_to_vec(vstd::slice::slice_subrange(v.as_slice(), 0, n));
    proof {
        assert(v@.subrange(0, n as int) =~= v@.take(n as int));
    }
    out
}

} // verus!
