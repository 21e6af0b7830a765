//! The search for a free localhost port for the `dsh` server.

use vstd::prelude::*;
use crate::text::{decimal, decimal_string};

verus! {

/// The first port tried.
pub const DEFAULT_PORT: u16 = 3080;

/// How many ports are tried.
pub const PORT_SCAN_LIMIT: u16 = 100;

/// The port tried at `offset`: `start + offset`, saturating at `u16::MAX`.
pub open spec fn candidate_port(start: u16, offset: int) -> u16 {
    if start + offset > u16::MAX {
        u16::MAX
    } else {
        (start + offset) as u16
    }
}

/// The last port of the range `start..` of `limit` ports, as reported.
pub open spec fn last_candidate(start: u16, limit: u16) -> u16 {
    start.saturating_add(limit.saturating_sub(1))
}

/// The message reported when no port of the range is free.
pub open spec fn scan_error(start: u16, limit: u16) -> Seq<char> {
    "no available localhost port in "@ + decimal(start as nat) + ".."@ + decimal(
        last_candidate(start, limit) as nat,
    )
}

/// The first of the `limit` ports from `start` on (saturating at
/// `u16::MAX`) that `is_free` accepts; `is_free` is asked about the ports in
/// that order and no further once one is accepted.
pub fn find_available_port_from(start: u16, limit: u16, is_free: impl Fn(u16) -> bool) -> (r: Result<
    u16,
    String,
>)
    requires
        forall|p: u16| call_requires(is_free, (p,)),
    ensures
        match r {
            Ok(port) => exists|k: int|
                0 <= k < limit && port == candidate_port(start, k) && call_ensures(
                    is_free,
                    (port,),
                    true,
                ) && forall|j: int|
                    0 <= j < k ==> call_ensures(is_free, (#[trigger] candidate_port(start, j),), false),
            Err(message) => message@ == scan_error(start, limit) && forall|j: int|
                0 <= j < limit ==> call_ensures(is_free, (#[trigger] candidate_port(start, j),), false),
        },
{
    let mut offset: u16 = 0;
    while offset < limit
        invariant
            offset <= limit,
            forall|p: u16| call_requires(is_free, (p,)),
            forall|j: int|
                0 <= j < offset ==> call_ensures(is_free, (#[trigger] candidate_port(start, j),), false),
        decreases limit - offset,
    {
        let port = start.saturating_add(offset);
        assert(port == candidate_port(start, offset as int));
        if is_free(port) {
            return Ok(port);
        }
        offset = offset + 1;
    }
    let mut message = String::from_str("no available localhost port in ");
    message.append(decimal_string(start as u64).as_str());
    message.append("..");
    message.append(decimal_string(start.saturating_add(limit.saturating_sub(1)) as u64).as_str());
    Err(message)
}

/// The first free port of the default range.
pub fn find_available_port(is_free: impl Fn(u16) -> bool) -> (r: Result<u16, String>)
    requires
        forall|p: u16| call_requires(is_free, (p,)),
    ensures
        match r {
            Ok(port) => exists|k: int|
                0 <= k < PORT_SCAN_LIMIT && port == candidate_port(DEFAULT_PORT, k) && call_ensures(
                    is_free,
                    (port,),
                    true,
                ) && forall|j: int|
                    0 <= j < k ==> call_ensures(
                        is_free,
                        (#[trigger] candidate_port(DEFAULT_PORT, j),),
                        false,
                    ),
            Err(message) => message@ == scan_error(DEFAULT_PORT, PORT_SCAN_LIMIT) && forall|j: int|
                0 <= j < PORT_SCAN_LIMIT ==> call_ensures(
                    is_free,
                    (#[trigger] candidate_port(DEFAULT_PORT, j),),
                    false,
                ),
        },
{
    find_available_port_from(DEFAULT_PORT, PORT_SCAN_LIMIT, is_free)
}

/// Every port tried lies in the range that the failure message names, and
/// the ports are tried in increasing order.
pub proof fn lemma_candidates_in_range(start: u16, limit: u16, j: int, k: int)
    requires
        0 <= j <= k < limit,
    ensures
        start <= candidate_port(start, k) <= last_candidate(start, limit),
        candidate_port(start, j) <= candidate_port(start, k),
{
}

/// The ports tried are consecutive from `start`, and stay at `u16::MAX` once
/// they reach it; the range named in the failure message ends at the last
/// of the `limit` ports (or at `start` when none is tried).
pub proof fn lemma_candidates_consecutive(start: u16, limit: u16, k: int)
    requires
        0 <= k,
    ensures
        candidate_port(start, 0) == start,
        candidate_port(start, k) < u16::MAX ==> candidate_port(start, k + 1) == candidate_port(
            start,
            k,
        ) + 1,
        candidate_port(start, k) == u16::MAX ==> candidate_port(start, k + 1) == u16::MAX,
        start + k <= u16::MAX ==> candidate_port(start, k) == start + k,
        limit > 0 ==> last_candidate(start, limit) == candidate_port(start, limit - 1),
        limit == 0 ==> last_candidate(start, limit) == start,
{
}

} // verus!
