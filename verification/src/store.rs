use vstd::prelude::*;
use crate::types::{NodeResponse, NodeResponseView, Payload, PayloadView, Status, empty_node_response};
use crate::clock::{current_time, utc_text};

verus! {

/// Whether an integer fits in an `i64`.
pub open spec fn fits_i64(x: int) -> bool {
    i64::MIN <= x <= i64::MAX
}

/// The local node reported no new round, or could not be reached.
pub open spec fn local_idle(store: PayloadView, local_round: i64, local_connection: bool) -> bool {
    local_round == store.local_last_round || !local_connection
}

/// The record of a node that stalled beyond the allowed range: it is stopped, and the
/// stop time is set only if the record was neither stopped nor stamped before.
pub open spec fn stalled_record(
    store: PayloadView,
    local: NodeResponseView,
    remote_round: i64,
    stamp: Seq<char>,
) -> PayloadView {
    PayloadView {
        status: Status::Stopped,
        time_stamp: if store.time_stamp is None && store.status != Status::Stopped {
            Some(stamp)
        } else {
            store.time_stamp
        },
        local_last_round: local.last_round,
        remote_last_round: remote_round,
        offset: (remote_round - store.local_last_round) as i64,
        time_since_last: local.time_since_last_round,
    }
}

/// The record of a node that reports the remote round: synced, with no lag and no stop
/// time. The recorded local round moves up to the reported one; it never goes back.
pub open spec fn synced_record(store: PayloadView, local: NodeResponseView, remote_round: i64) -> PayloadView {
    PayloadView {
        status: Status::Synced,
        time_stamp: None,
        local_last_round: if local.last_round > store.local_last_round {
            local.last_round
        } else {
            store.local_last_round
        },
        remote_last_round: remote_round,
        offset: 0,
        time_since_last: local.time_since_last_round,
    }
}

/// The record of a node that advanced: catching up, with the lag to the remote round.
pub open spec fn catching_up_record(local: NodeResponseView, remote_round: i64) -> PayloadView {
    PayloadView {
        status: Status::CatchingUp,
        time_stamp: None,
        local_last_round: local.last_round,
        remote_last_round: remote_round,
        offset: (remote_round - local.last_round) as i64,
        time_since_last: local.time_since_last_round,
    }
}

/// The records written to the data file, in order, when a round is recorded.
pub open spec fn round_writes(
    store: PayloadView,
    local: NodeResponseView,
    remote_round: i64,
    valid_round_range: i64,
    local_connection: bool,
    stamp: Seq<char>,
) -> Seq<PayloadView> {
    if local_idle(store, local.last_round, local_connection) {
        if store.offset > valid_round_range {
            seq![stalled_record(store, local, remote_round, stamp)]
        } else {
            seq![]
        }
    } else {
        if remote_round == local.last_round {
            seq![synced_record(store, local, remote_round)]
        } else if local.last_round > store.local_last_round {
            seq![catching_up_record(local, remote_round)]
        } else {
            seq![]
        }
    }
}

/// The record after a round is recorded: the last one written, or the old one.
pub open spec fn recorded(
    store: PayloadView,
    local: NodeResponseView,
    remote_round: i64,
    valid_round_range: i64,
    local_connection: bool,
    stamp: Seq<char>,
) -> PayloadView {
    let writes = round_writes(store, local, remote_round, valid_round_range, local_connection, stamp);
    if writes.len() > 0 {
        writes.last()
    } else {
        store
    }
}

/// Recording a round needs no arithmetic beyond `i64`.
pub open spec fn round_fits(
    store: PayloadView,
    local_round: i64,
    remote_round: i64,
    valid_round_range: i64,
    local_connection: bool,
) -> bool {
    &&& (local_idle(store, local_round, local_connection) && store.offset > valid_round_range)
        ==> fits_i64(remote_round - store.local_last_round)
    &&& (!local_idle(store, local_round, local_connection) && remote_round != local_round
        && local_round > store.local_last_round) ==> fits_i64(remote_round - local_round)
}

/// Whether recording a round stays within `i64` arithmetic; when it does not, the
/// subtraction of rounds would overflow.
pub fn round_arithmetic_fits(
    store: &Payload,
    local: &NodeResponse,
    remote: &NodeResponse,
    valid_round_range: i64,
    local_connection: bool,
) -> (ok: bool)
    ensures
        ok == round_fits(store@, local.last_round, remote.last_round, valid_round_range, local_connection),
{
    if local.last_round == store.local_last_round || !local_connection {
        if store.offset > valid_round_range {
            remote.last_round.checked_sub(store.local_last_round).is_some()
        } else {
            true
        }
    } else if remote.last_round != local.last_round && local.last_round > store.local_last_round {
        remote.last_round.checked_sub(local.last_round).is_some()
    } else {
        true
    }
}

/// Recording a round needs the current time.
pub open spec fn round_needs_time(
    store: PayloadView,
    local_round: i64,
    valid_round_range: i64,
    local_connection: bool,
) -> bool {
    &&& local_idle(store, local_round, local_connection)
    &&& store.offset > valid_round_range
    &&& store.time_stamp is None
    &&& store.status != Status::Stopped
}

/// The outcome of recording a round: the new record and what was written to the data
/// file, in order.
pub struct RoundRecord {
    pub store: Payload,
    pub writes: Vec<Payload>,
}

/// The views of a sequence of records.
pub open spec fn payload_views(s: Seq<Payload>) -> Seq<PayloadView> {
    s.map_values(|p: Payload| p@)
}

/// Records the answers of the local node and of the most advanced remote node into the
/// stored record, with `now` as the stop time should one be needed.
pub fn record_round_at(
    store: Payload,
    local: &NodeResponse,
    remote: &NodeResponse,
    valid_round_range: i64,
    local_connection: bool,
    now: String,
) -> (r: RoundRecord)
    requires
        round_fits(store@, local.last_round, remote.last_round, valid_round_range, local_connection),
    ensures
        payload_views(r.writes@) == round_writes(
            store@,
            local@,
            remote.last_round,
            valid_round_range,
            local_connection,
            now@,
        ),
        r.store@ == recorded(store@, local@, remote.last_round, valid_round_range, local_connection, now@),
        r.writes@.len() <= 1,
        r.writes@.len() == 1 ==> r.writes@[0]@ == r.store@,
        r.writes@.len() == 0 ==> r.store@ == store@,
        // A connected node level with the remote round, at a round it did not report before.
        (local_connection && local.last_round != store.local_last_round && local.last_round
            == remote.last_round) ==> {
            &&& r.writes@.len() == 1
            &&& r.store@.status == Status::Synced
            &&& r.store@.offset == 0
            &&& r.store@.time_stamp is None
            &&& r.store@.remote_last_round == remote.last_round
            &&& r.store@.local_last_round == (if local.last_round > store.local_last_round {
                local.last_round
            } else {
                store.local_last_round
            })
            &&& r.store@.time_since_last == local.time_since_last_round
        },
        // A connected node that advanced but is not level with the remote round.
        (local_connection && local.last_round > store.local_last_round && local.last_round
            != remote.last_round) ==> {
            &&& r.writes@.len() == 1
            &&& r.store@.status == Status::CatchingUp
            &&& r.store@.offset == remote.last_round - local.last_round
            &&& r.store@.time_stamp is None
            &&& r.store@.remote_last_round == remote.last_round
            &&& r.store@.local_last_round == local.last_round
            &&& r.store@.time_since_last == local.time_since_last_round
        },
        // A connected node that went back and is not level: nothing changes.
        (local_connection && local.last_round < store.local_last_round && local.last_round
            != remote.last_round) ==> r.writes@.len() == 0,
        // A node that did not advance, or was not reached, beyond the allowed lag: stopped.
        ((local.last_round == store.local_last_round || !local_connection) && store.offset
            > valid_round_range) ==> {
            &&& r.writes@.len() == 1
            &&& r.store@.status == Status::Stopped
            &&& r.store@.offset == remote.last_round - store.local_last_round
            &&& r.store@.remote_last_round == remote.last_round
            &&& r.store@.local_last_round == local.last_round
            &&& r.store@.time_since_last == local.time_since_last_round
            &&& r.store@.time_stamp == (if store@.time_stamp is None && store.status != Status::Stopped {
                Some(now@)
            } else {
                store@.time_stamp
            })
        },
        // The same within the allowed lag: nothing changes.
        ((local.last_round == store.local_last_round || !local_connection) && store.offset
            <= valid_round_range) ==> r.writes@.len() == 0,
{
    let ghost old_store = store@;
    let mut store = store;
    let mut writes: Vec<Payload> = Vec::new();
    if local.last_round == store.local_last_round || !local_connection {
        if store.offset > valid_round_range {
            if store.time_stamp.is_none() && store.status != Status::Stopped {
                store.time_stamp = Some(now);
            }
            store.status = Status::Stopped;
            store.offset = remote.last_round - store.local_last_round;
            store.local_last_round = local.last_round;
            store.time_since_last = local.time_since_last_round;
            store.remote_last_round = remote.last_round;
            writes.push(store.duplicate());
        }
    } else {
        if remote.last_round == local.last_round {
            store.status = Status::Synced;
            store.offset = 0;
            store.time_stamp = None;
            if local.last_round > store.local_last_round {
                store.local_last_round = local.last_round;
            }
            store.remote_last_round = remote.last_round;
            store.time_since_last = local.time_since_last_round;
            writes.push(store.duplicate());
        } else if local.last_round > store.local_last_round {
            store.status = Status::CatchingUp;
            store.offset = remote.last_round - local.last_round;
            store.time_stamp = None;
            store.local_last_round = local.last_round;
            store.time_since_last = local.time_since_last_round;
            store.remote_last_round = remote.last_round;
            writes.push(store.duplicate());
        }
    }
    let ghost expected = round_writes(old_store, local@, remote.last_round, valid_round_range, local_connection, now@);
    assert(payload_views(writes@) =~= expected);
    RoundRecord { store, writes }
}

/// Records a round as [`record_round_at`] does, reading the clock only when the record
/// is newly found stopped.
pub fn record_round(
    store: Payload,
    local: &NodeResponse,
    remote: &NodeResponse,
    valid_round_range: i64,
    local_connection: bool,
) -> (r: RoundRecord)
    requires
        round_fits(store@, local.last_round, remote.last_round, valid_round_range, local_connection),
    ensures
        exists|stamp: Seq<char>|
            #![trigger round_writes(store@, local@, remote.last_round, valid_round_range, local_connection, stamp)]
            {
                &&& round_needs_time(store@, local.last_round, valid_round_range, local_connection)
                    ==> utc_text(stamp)
                &&& payload_views(r.writes@) == round_writes(
                    store@,
                    local@,
                    remote.last_round,
                    valid_round_range,
                    local_connection,
                    stamp,
                )
                &&& r.store@ == recorded(
                    store@,
                    local@,
                    remote.last_round,
                    valid_round_range,
                    local_connection,
                    stamp,
                )
            },
{
    let needs_time = (local.last_round == store.local_last_round || !local_connection)
        && store.offset > valid_round_range && store.time_stamp.is_none() && store.status
        != Status::Stopped;
    let now = if needs_time {
        current_time()
    } else {
        String::new()
    };
    let ghost stamp = now@;
    assert(round_needs_time(store@, local.last_round, valid_round_range, local_connection) ==> utc_text(stamp));
    let r = record_round_at(store, local, remote, valid_round_range, local_connection, now);
    assert(payload_views(r.writes@) == round_writes(store@, local@, remote.last_round, valid_round_range, local_connection, stamp));
    r
}

/// The record of a local node that could not be reached: stopped since `stamp`, with the
/// lag of its last recorded round behind the remote round.
pub open spec fn unreachable_record(store: PayloadView, remote_round: i64, stamp: Seq<char>) -> PayloadView {
    PayloadView {
        status: Status::Stopped,
        time_stamp: Some(stamp),
        remote_last_round: remote_round,
        offset: (remote_round - store.local_last_round) as i64,
        ..store
    }
}

/// Marks the local node stopped at `now`, measured against the remote round.
pub fn mark_unreachable_at(store: Payload, remote_last_round: i64, now: String) -> (r: Payload)
    requires
        fits_i64(remote_last_round - store.local_last_round),
    ensures
        r@ == unreachable_record(store@, remote_last_round, now@),
{
    let mut store = store;
    store.status = Status::Stopped;
    let off = remote_last_round - store.local_last_round;
    store.remote_last_round = remote_last_round;
    store.offset = off;
    store.time_stamp = Some(now);
    store
}

/// The answer that stands in for a local node that could not be reached: an empty
/// report at the last recorded local round.
pub open spec fn fallback_response(store: PayloadView) -> NodeResponseView {
    NodeResponseView { last_round: store.local_last_round, ..empty_node_response() }
}

/// The answer that stands in for a local node that could not be reached.
pub fn fallback_local_response(store: &Payload) -> (r: NodeResponse)
    ensures
        r@ == fallback_response(store@),
{
    let mut resp = NodeResponse::default();
    resp.last_round = resp.last_round + store.local_last_round;
    resp
}

} // verus!
