//! The station status model and the differ that decides whether an incoming
//! status snapshot is worth a notification.

use vstd::prelude::*;

use crate::tristate::TriState;

verus! {

/// The last fully-known snapshot of the remote device: four tri-state flags.
#[derive(Clone, Copy, Debug, PartialEq, Eq, Structural)]
pub struct StationStatus {
    pub tx_power_enabled: TriState,
    pub tx_power_active: TriState,
    pub ptt_enabled: TriState,
    pub ptt_active: TriState,
}

impl StationStatus {
    /// The initial snapshot: nothing has been reported yet.
    pub open spec fn spec_initial() -> StationStatus {
        StationStatus {
            tx_power_enabled: TriState::Unknown,
            tx_power_active: TriState::Unknown,
            ptt_enabled: TriState::Unknown,
            ptt_active: TriState::Unknown,
        }
    }

    /// A snapshot with every field unknown.
    pub fn initial() -> (r: StationStatus)
        ensures
            r == StationStatus::spec_initial(),
    {
        StationStatus {
            tx_power_enabled: TriState::Unknown,
            tx_power_active: TriState::Unknown,
            ptt_enabled: TriState::Unknown,
            ptt_active: TriState::Unknown,
        }
    }
}

impl Default for StationStatus {
    /// The default snapshot is the initial one: all fields unknown.
    fn default() -> (r: StationStatus)
        ensures
            r == StationStatus::spec_initial(),
    {
        StationStatus::initial()
    }
}

/// What observing an incoming snapshot yields: the stored status afterwards,
/// and whether the change is worth a notification.  Equality is structural
/// over all four fields; `Unknown` equals only `Unknown`.
pub open spec fn spec_observe(previous: StationStatus, incoming: StationStatus) -> (
    StationStatus,
    bool,
) {
    if incoming == previous {
        (previous, false)
    } else {
        (incoming, true)
    }
}

/// Compares an incoming snapshot with the previous one: if any field differs
/// the stored status becomes the incoming one and a notification is due,
/// otherwise the stored status is unchanged and no notification is due.
pub fn observe(previous: StationStatus, incoming: StationStatus) -> (r: (StationStatus, bool))
    ensures
        r == spec_observe(previous, incoming),
        r.1 == (incoming != previous),
{
    if incoming == previous {
        (previous, false)
    } else {
        (incoming, true)
    }
}

/// Observing the same snapshot a second time never notifies again: a repeated
/// heartbeat is reported at most once.
pub proof fn lemma_observe_idempotent(previous: StationStatus, incoming: StationStatus)
    ensures
        spec_observe(spec_observe(previous, incoming).0, incoming).1 == false,
{
}

/// Any actual change is always notified: the differ only ever suppresses a
/// snapshot equal to the stored one.
pub proof fn lemma_observe_reports_changes(previous: StationStatus, incoming: StationStatus)
    ensures
        spec_observe(previous, incoming).1 == (incoming != previous),
        spec_observe(previous, incoming).0 == incoming,
{
}

} // verus!
