//! Port selection: one preferred port, then an ascending scan of the
//! ephemeral range.
//!
//! A port counts as free when a local connection attempt to it fails. Nothing
//! is bound or reserved, so the answer can be stale by the time the backend
//! binds; the scan only picks a likely candidate.

use vstd::prelude::*;

verus! {

/// The port that is tried before any other.
pub const PREFERRED_PORT: u16 = 8000;

/// The lowest port of the range scanned when the preferred port is taken.
pub const SCAN_FIRST: u16 = 49152;

/// The highest port of the range scanned when the preferred port is taken.
pub const SCAN_LAST: u16 = 65535;

/// What a scan does next.
#[derive(Clone, Copy, Debug, PartialEq, Eq)]
pub enum PortScan {
    /// Attempt a connection to this port and report whether it was free.
    Probe(u16),
    /// The scan is over; the backend is asked to bind this port.
    Chosen(u16),
}

/// Whether `p` lies in the scanned range.
pub open spec fn in_scan_range(p: int) -> bool {
    SCAN_FIRST <= p <= SCAN_LAST
}

/// The candidate probed after `p`, if any: the scan range follows the
/// preferred port and is walked upwards.
pub open spec fn next_candidate(p: u16) -> Option<u16> {
    if p == PREFERRED_PORT {
        Some(SCAN_FIRST)
    } else if SCAN_FIRST <= p < SCAN_LAST {
        Some((p + 1) as u16)
    } else {
        None
    }
}

/// The decision taken once `probed` is known to be free or not.
pub open spec fn port_decision(probed: u16, available: bool) -> PortScan {
    if available {
        PortScan::Chosen(probed)
    } else {
        match next_candidate(probed) {
            Some(q) => PortScan::Probe(q),
            None => PortScan::Chosen(PREFERRED_PORT),
        }
    }
}

/// How many probes can still follow the probe of `p`.
pub open spec fn probes_after(p: u16) -> nat {
    if p == PREFERRED_PORT {
        (SCAN_LAST - SCAN_FIRST + 1) as nat
    } else if in_scan_range(p as int) {
        (SCAN_LAST - p) as nat
    } else {
        0
    }
}

/// The port on which a scan that is about to probe `p` ends, when exactly the
/// ports in `free` refuse a connection.
pub open spec fn scan_from(p: u16, free: Set<u16>) -> u16
    decreases probes_after(p),
{
    match port_decision(p, free.contains(p)) {
        PortScan::Chosen(q) => q,
        PortScan::Probe(q) => scan_from(q, free),
    }
}

/// The port on which a whole scan ends.
pub open spec fn scan_result(free: Set<u16>) -> u16 {
    scan_from(PREFERRED_PORT, free)
}

/// The first probe of every scan.
pub fn first_probe() -> (scan: PortScan)
    ensures
        scan == PortScan::Probe(PREFERRED_PORT),
{
    PortScan::Probe(PREFERRED_PORT)
}

/// Decides how the scan goes on after `probed` was found free
/// (`available`) or occupied.
///
/// A free port is chosen at once. After an occupied one the scan moves to the
/// next candidate; when none is left it settles on the preferred port, which
/// the backend may then fail to bind.
pub fn pick_port(probed: u16, available: bool) -> (scan: PortScan)
    ensures
        scan == port_decision(probed, available),
{
    if available {
        PortScan::Chosen(probed)
    } else if probed == PREFERRED_PORT {
        PortScan::Probe(SCAN_FIRST)
    } else if SCAN_FIRST <= probed && probed < SCAN_LAST {
        PortScan::Probe(probed + 1)
    } else {
        PortScan::Chosen(PREFERRED_PORT)
    }
}

/// Every probe of an occupied port leaves fewer ports to probe, so that
/// every scan ends: after the preferred port at most the whole range is
/// probed, each port once.
pub proof fn lemma_scan_narrows(probed: u16, available: bool, next: u16)
    requires
        port_decision(probed, available) == PortScan::Probe(next),
    ensures
        probes_after(next) < probes_after(probed),
        probes_after(probed) <= probes_after(PREFERRED_PORT) == SCAN_LAST - SCAN_FIRST + 1,
{
}

/// Within the range, a scan that reaches `p` ends on `q` when `q` is the
/// first free port from `p` upwards.
proof fn lemma_scan_reaches_first_free(p: u16, q: u16, free: Set<u16>)
    requires
        in_scan_range(p as int),
        p <= q <= SCAN_LAST,
        free.contains(q),
        forall|r: u16| p <= r < q ==> !#[trigger] free.contains(r),
    ensures
        scan_from(p, free) == q,
    decreases q - p,
{
    if p < q {
        lemma_scan_reaches_first_free((p + 1) as u16, q, free);
    }
}

/// Within the range, a scan that reaches `p` ends on the preferred port when
/// no port from `p` upwards is free.
proof fn lemma_scan_exhausted(p: u16, free: Set<u16>)
    requires
        in_scan_range(p as int),
        forall|r: u16| p <= r <= SCAN_LAST ==> !#[trigger] free.contains(r),
    ensures
        scan_from(p, free) == PREFERRED_PORT,
    decreases SCAN_LAST - p,
{
    if p < SCAN_LAST {
        lemma_scan_exhausted((p + 1) as u16, free);
    }
}

/// A free preferred port is chosen without probing any other.
pub proof fn lemma_preferred_port_wins(free: Set<u16>)
    requires
        free.contains(PREFERRED_PORT),
    ensures
        scan_result(free) == PREFERRED_PORT,
{
}

/// With the preferred port occupied, the scan ends on the first port of the
/// range, in ascending order, that is free.
pub proof fn lemma_first_free_port_wins(free: Set<u16>, q: u16)
    requires
        !free.contains(PREFERRED_PORT),
        in_scan_range(q as int),
        free.contains(q),
        forall|r: u16| SCAN_FIRST <= r < q ==> !#[trigger] free.contains(r),
    ensures
        scan_result(free) == q,
{
    lemma_scan_reaches_first_free(SCAN_FIRST, q, free);
}

/// With the preferred port and the whole range occupied, the scan falls back
/// to the preferred port.
pub proof fn lemma_exhausted_scan_falls_back(free: Set<u16>)
    requires
        !free.contains(PREFERRED_PORT),
        forall|r: u16| in_scan_range(r as int) ==> !#[trigger] free.contains(r),
    ensures
        scan_result(free) == PREFERRED_PORT,
{
    lemma_scan_exhausted(SCAN_FIRST, free);
}

} // verus!
