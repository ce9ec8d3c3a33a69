//! Copying decoded text into a caller's buffer without writing past its
//! capacity.
use vstd::prelude::*;
use crate::status::{Failure, OverflowPolicy};
use crate::utf16::{encode_utf16, utf16_of};

verus! {

/// The buffer with its first units replaced by those of `units`, as many as
/// fit; the rest stays as it was.
pub open spec fn overwrite(buf: Seq<u16>, units: Seq<u16>) -> Seq<u16> {
    Seq::new(buf.len(), |i: int| if i < units.len() { units[i] } else { buf[i] })
}

/// The policy turns this text away: strict, and the text does not fit.
pub open spec fn refused(units_len: nat, capacity: nat, policy: OverflowPolicy) -> bool {
    policy == OverflowPolicy::Strict && units_len > capacity
}

/// What a delivery of `units` into a buffer of `capacity` units reports.
pub open spec fn delivery_result(units_len: nat, capacity: nat, policy: OverflowPolicy) -> Result<
    usize,
    Failure,
> {
    if refused(units_len, capacity, policy) {
        Err(Failure::BufferOverflow)
    } else {
        Ok(units_len as usize)
    }
}

/// The buffer after a delivery of `units`.
pub open spec fn delivery_buffer(units: Seq<u16>, buf: Seq<u16>, policy: OverflowPolicy) -> Seq<
    u16,
> {
    if refused(units.len(), buf.len(), policy) {
        buf
    } else {
        overwrite(buf, units)
    }
}

/// A best-effort delivery that was cut short can be retried: into a buffer of
/// at least the reported length the whole text is written and the same length
/// reported, and its first units are those the short buffer received.
pub proof fn lemma_retry_with_larger_buffer(units: Seq<u16>, short: Seq<u16>, long: Seq<u16>)
    requires
        short.len() < units.len() <= long.len(),
        units.len() <= usize::MAX,
    ensures
        delivery_result(units.len(), short.len(), OverflowPolicy::BestEffort) == Ok::<
            usize,
            Failure,
        >(units.len() as usize),
        delivery_result(units.len(), long.len(), OverflowPolicy::BestEffort) == Ok::<
            usize,
            Failure,
        >(units.len() as usize),
        delivery_buffer(units, long, OverflowPolicy::BestEffort).take(units.len() as int) == units,
        forall|i: int|
            0 <= i < short.len() ==> #[trigger] delivery_buffer(
                units,
                short,
                OverflowPolicy::BestEffort,
            )[i] == delivery_buffer(units, long, OverflowPolicy::BestEffort)[i],
{
    assert(delivery_buffer(units, long, OverflowPolicy::BestEffort).take(units.len() as int)
        =~= units);
}

/// Copies `units` into `decoded`. Under the strict policy a text longer than
/// the buffer leaves it untouched and reports an overflow; otherwise the
/// units that fit are written and the full length is reported.
pub fn copy_units(units: &[u16], decoded: &mut [u16], policy: OverflowPolicy) -> (r: Result<
    usize,
    Failure,
>)
    ensures
        r == delivery_result(units@.len(), old(decoded)@.len(), policy),
        final(decoded)@ == delivery_buffer(units@, old(decoded)@, policy),
{
    let n = units.len();
    let cap = decoded.len();
    if policy == OverflowPolicy::Strict && n > cap {
        return Err(Failure::BufferOverflow);
    }
    let m = if n < cap {
        n
    } else {
        cap
    };
    let mut i: usize = 0;
    while i < m
        invariant
            m <= n == units@.len(),
            m <= cap == old(decoded)@.len(),
            m == n || m == cap,
            i <= m,
            decoded@.len() == cap,
            forall|k: int| 0 <= k < i ==> decoded@[k] == units@[k],
            forall|k: int| i <= k < cap ==> decoded@[k] == old(decoded)@[k],
        decreases m - i,
    {
        decoded[i] = units[i];
        i = i + 1;
    }
    assert(decoded@ =~= overwrite(old(decoded)@, units@));
    Ok(n)
}

/// Delivers the outcome of a decode: a failure passes through and leaves the
/// buffer untouched; a text is delivered as its UTF-16 code units.
pub fn process_result(r: Result<String, Failure>, decoded: &mut [u16], policy: OverflowPolicy) -> (res: Result<
    usize,
    Failure,
>)
    ensures
        match r {
            Ok(t) => {
                &&& res == delivery_result(utf16_of(t@).len(), old(decoded)@.len(), policy)
                &&& final(decoded)@ == delivery_buffer(utf16_of(t@), old(decoded)@, policy)
            },
            Err(f) => res == Err::<usize, Failure>(f) && final(decoded)@ == old(decoded)@,
        },
{
    match r {
        Ok(t) => {
            let units = encode_utf16(t.as_str());
            copy_units(units.as_slice(), decoded, policy)
        },
        Err(f) => Err(f),
    }
}

} // verus!
