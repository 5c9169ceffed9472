//! Little-endian numbers in byte sequences.

use vstd::prelude::*;

verus! {

/// 256 to the power of `width`: how many values `width` bytes can hold.
pub open spec fn capacity(width: nat) -> nat
    decreases width,
{
    if width == 0 {
        1
    } else {
        256 * capacity((width - 1) as nat)
    }
}

/// The `width` low bytes of `n`, least significant first.
pub open spec fn le(n: nat, width: nat) -> Seq<u8>
    decreases width,
{
    if width == 0 {
        Seq::empty()
    } else {
        seq![(n % 256) as u8] + le(n / 256, (width - 1) as nat)
    }
}

/// The number that `bytes` holds, least significant first.
pub open spec fn le_value(bytes: Seq<u8>) -> nat
    decreases bytes.len(),
{
    if bytes.len() == 0 {
        0
    } else {
        bytes[0] as nat + 256 * le_value(bytes.drop_first())
    }
}

/// `le` gives exactly `width` bytes.
pub proof fn le_len(n: nat, width: nat)
    ensures
        le(n, width).len() == width,
    decreases width,
{
    if width > 0 {
        le_len(n / 256, (width - 1) as nat);
    }
}

/// A number that fits is read back from its bytes.
pub proof fn le_value_of_le(n: nat, width: nat)
    requires
        n < capacity(width),
    ensures
        le_value(le(n, width)) == n,
    decreases width,
{
    if width > 0 {
        let rest = le(n / 256, (width - 1) as nat);
        le_value_of_le(n / 256, (width - 1) as nat);
        assert(le(n, width).drop_first() =~= rest);
    }
}

/// The bytes of the number that `bytes` holds are `bytes`.
pub proof fn le_of_le_value(bytes: Seq<u8>)
    ensures
        le(le_value(bytes), bytes.len()) == bytes,
        le_value(bytes) < capacity(bytes.len()),
    decreases bytes.len(),
{
    if bytes.len() > 0 {
        let rest = bytes.drop_first();
        le_of_le_value(rest);
        assert(le_value(bytes) % 256 == bytes[0]);
        assert(le_value(bytes) / 256 == le_value(rest));
        assert(seq![bytes[0]] + rest =~= bytes);
    }
}

/// How many values one, four, eight and sixteen bytes can hold.
pub proof fn capacities()
    ensures
        capacity(1) == 0x100,
        capacity(4) == 0x1_0000_0000,
        capacity(8) == 0x1_0000_0000_0000_0000,
        capacity(16) == 0x1_0000_0000_0000_0000_0000_0000_0000_0000int,
{
    reveal_with_fuel(capacity, 17);
}

/// Appends the `width` low bytes of `n`, least significant first.
pub fn push_le(bytes: &mut Vec<u8>, n: u128, width: usize)
    ensures
        final(bytes)@ == old(bytes)@ + le(n as nat, width as nat),
{
    let ghost before = bytes@;
    let mut rest: u128 = n;
    let mut left: usize = width;
    assert(bytes@ + le(rest as nat, left as nat) =~= before + le(n as nat, width as nat));
    while left > 0
        invariant
            bytes@ + le(rest as nat, left as nat) == before + le(n as nat, width as nat),
        decreases left,
    {
        let ghost sofar = bytes@;
        bytes.push((rest % 256) as u8);
        assert(bytes@ + le(rest as nat / 256, (left - 1) as nat) =~= sofar + le(
            rest as nat,
            left as nat,
        ));
        rest = rest / 256;
        left -= 1;
    }
    assert(bytes@ =~= bytes@ + le(rest as nat, left as nat));
}

/// The number in `bytes[from..to]`, least significant first.
pub fn read_le(bytes: &[u8], from: usize, to: usize) -> (n: u128)
    requires
        from <= to <= bytes@.len(),
        to - from <= 16,
    ensures
        n == le_value(bytes@.subrange(from as int, to as int)),
    decreases to - from,
{
    if from == to {
        assert(bytes@.subrange(from as int, to as int).len() == 0);
        0
    } else {
        let ghost all = bytes@.subrange(from as int, to as int);
        let rest = read_le(bytes, from + 1, to);
        proof {
            let tail = bytes@.subrange(from + 1, to as int);
            assert(all.drop_first() =~= tail);
            le_of_le_value(all);
            le_of_le_value(tail);
            capacity_grows(all.len(), 16);
            capacities();
        }
        bytes[from] as u128 + 256 * rest
    }
}

/// Wider numbers hold at least as many values.
pub proof fn capacity_grows(a: nat, b: nat)
    requires
        a <= b,
    ensures
        capacity(a) <= capacity(b),
    decreases b,
{
    if a < b {
        capacity_grows(a, (b - 1) as nat);
    }
}

/// Whether `a` and `b` hold the same bytes.
pub fn same_bytes(a: &[u8], b: &[u8]) -> (same: bool)
    ensures
        same == (a@ == b@),
{
    if a.len() != b.len() {
        return false;
    }
    let mut i: usize = 0;
    while i < a.len()
        invariant
            a@.len() == b@.len(),
            i <= a@.len(),
            forall|j: int| 0 <= j < i ==> a@[j] == b@[j],
        decreases a@.len() - i,
    {
        if a[i] != b[i] {
            return false;
        }
        i += 1;
    }
    assert(a@ =~= b@);
    true
}

/// A copy of `bytes`.
pub fn copied(bytes: &[u8]) -> (copy: Vec<u8>)
    ensures
        copy@ == bytes@,
{
    let mut copy: Vec<u8> = Vec::new();
    copy.extend_from_slice(bytes);
    assert(copy@ =~= bytes@);
    copy
}

/// Appends `more`.
pub fn push_all(bytes: &mut Vec<u8>, more: &[u8])
    ensures
        final(bytes)@ == old(bytes)@ + more@,
{
    let ghost before = bytes@;
    bytes.extend_from_slice(more);
    assert(bytes@ =~= before + more@);
}

/// A number that is appended in enough bytes is read back from them, what was
/// there stays, and its least significant byte comes first.
pub proof fn a_number_is_read_back_from_its_bytes(
    bytes: &mut Vec<u8>,
    n: u128,
    width: usize,
    all: &[u8],
    read: u128,
)
    requires
        0 < width <= 16,
        n < capacity(width as nat),
        call_ensures(push_le, (bytes, n, width), ()),
        all@ == final(bytes)@,
        old(bytes)@.len() + width <= usize::MAX,
        call_ensures(
            read_le,
            (all, old(bytes)@.len() as usize, (old(bytes)@.len() + width) as usize),
            read,
        ),
    ensures
        read == n,
        final(bytes)@.len() == old(bytes)@.len() + width,
        final(bytes)@.take(old(bytes)@.len() as int) == old(bytes)@,
        final(bytes)@[old(bytes)@.len() as int] == n % 256,
{
    let from = old(bytes)@.len() as int;
    le_len(n as nat, width as nat);
    le_value_of_le(n as nat, width as nat);
    assert(all@.subrange(from, from + width) =~= le(n as nat, width as nat));
    assert(final(bytes)@.take(from) =~= old(bytes)@);
}

/// The first of some bytes counts once, and all that follow 256 times.
pub proof fn each_byte_counts_256_times_the_one_before(first: u8, rest: Seq<u8>)
    ensures
        le_value(seq![first] + rest) == first + 256 * le_value(rest),
        le_value(seq![]) == 0,
{
    assert((seq![first] + rest).drop_first() =~= rest);
}

/// Bytes are compared, copied and appended whole.
pub proof fn bytes_are_handled_whole(
    a: &[u8],
    b: &[u8],
    same: bool,
    copy: Vec<u8>,
    bytes: &mut Vec<u8>,
)
    requires
        call_ensures(same_bytes, (a, b), same),
        call_ensures(copied, (a,), copy),
        call_ensures(push_all, (bytes, a), ()),
    ensures
        same <==> a@ == b@,
        copy@ == a@,
        final(bytes)@ == old(bytes)@ + a@,
{
}

} // verus!
