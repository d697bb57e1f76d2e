//! The throughput and latency figures that the gRPC relay logs.
use vstd::prelude::*;
use std::collections::VecDeque;

verus! {

/// The window arithmetic stays in range: each timestamp that is looked at
/// (the leading ones more than 1000 ms old, and the first one that is not)
/// is no later than `now`.
pub open spec fn window_defined(s: Seq<u64>, now: u64) -> bool
    decreases s.len(),
{
    s.len() == 0 || (s[0] <= now && (now - s[0] > 1000 ==> window_defined(s.drop_first(), now)))
}

/// The timestamps of the last second: the leading timestamps more than 1000 ms
/// older than `now` are dropped.
pub open spec fn spec_window(s: Seq<u64>, now: u64) -> Seq<u64>
    decreases s.len(),
{
    if s.len() == 0 {
        s
    } else if now - s[0] > 1000 {
        spec_window(s.drop_first(), now)
    } else {
        s
    }
}

/// Drops from the front of `timestamps` (message times in ms) every timestamp
/// more than 1000 ms older than `now`, and gives the number of messages left:
/// the messages of the last second. `None` where a timestamp that is looked at
/// is later than `now` (the subtraction would overflow); `timestamps` is then
/// left partly pruned.
pub fn prune_window(timestamps: &mut VecDeque<u64>, now: u64) -> (res: Option<usize>)
    ensures
        window_defined(old(timestamps)@, now) ==> {
            &&& final(timestamps)@ == spec_window(old(timestamps)@, now)
            &&& res == Some(final(timestamps)@.len() as usize)
        },
        !window_defined(old(timestamps)@, now) ==> res is None,
{
    loop
        invariant
            window_defined(old(timestamps)@, now) == window_defined(timestamps@, now),
            window_defined(timestamps@, now) ==> spec_window(old(timestamps)@, now) == spec_window(
                timestamps@,
                now,
            ),
        decreases timestamps@.len(),
    {
        if timestamps.len() == 0 {
            return Some(0);
        }
        let oldest = timestamps[0];
        if oldest > now {
            return None;
        }
        if now - oldest > 1000 {
            let _ = timestamps.pop_front();
        } else {
            return Some(timestamps.len());
        }
    }
}

/// Milliseconds from `before` to `after`; `None` when `after` is earlier.
pub fn elapsed_ms(before: u64, after: u64) -> (res: Option<u64>)
    ensures
        res == (if after >= before { Some((after - before) as u64) } else { None::<u64> }),
{
    after.checked_sub(before)
}

/// End-to-end latency of an update in ms: the time now, less the block time
/// (in seconds, as the RPC node gives it, taken as `u64`) in ms, less the time
/// the block-time request took. `None` where that arithmetic leaves `u64`.
pub fn e2e_latency_ms(now_ms: u64, block_time: i64, request_ms: u64) -> (res: Option<u64>)
    ensures
        ({
            let block_ms = (block_time as u64) * 1000;
            res == (if block_ms <= u64::MAX && now_ms - block_ms - request_ms >= 0 {
                Some((now_ms - block_ms - request_ms) as u64)
            } else {
                None::<u64>
            })
        }),
{
    let block_secs = block_time as u64;
    match block_secs.checked_mul(1000) {
        None => None,
        Some(block_ms) => match now_ms.checked_sub(block_ms) {
            None => None,
            Some(since_block) => since_block.checked_sub(request_ms),
        },
    }
}

} // verus!
