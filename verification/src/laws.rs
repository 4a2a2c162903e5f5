//! Properties that hold across the operations on the health record.

use vstd::prelude::*;
use crate::types::{NodeResponse, NodeResponseView, PayloadView, Status, initial_payload};
use crate::store::{
    fits_i64, recorded, round_fits, round_needs_time, round_writes,
    unreachable_record,
};
use crate::fetch::{is_most_updated, status_urls};
use crate::paths::{data_file, default_settings_file};
use crate::health::health_dir;
use crate::health::health_code;

verus! {

/// A record carries a stop time exactly when it reports the node stopped.
pub open spec fn stop_time_consistent(p: PayloadView) -> bool {
    (p.status == Status::Stopped) <==> (p.time_stamp is Some)
}

/// The initial record carries no stop time and does not report the node stopped.
pub proof fn initial_record_is_consistent()
    ensures
        stop_time_consistent(initial_payload()),
{
}

/// Recording a round keeps a record's stop time consistent with its status, in every
/// record written and in the record that results.
pub proof fn recording_keeps_stop_time_consistent(
    store: PayloadView,
    local: NodeResponseView,
    remote_round: i64,
    valid_round_range: i64,
    local_connection: bool,
    stamp: Seq<char>,
)
    requires
        stop_time_consistent(store),
    ensures
        forall|i: int|
            0 <= i < round_writes(store, local, remote_round, valid_round_range, local_connection, stamp).len()
                ==> stop_time_consistent(
                #[trigger] round_writes(store, local, remote_round, valid_round_range, local_connection, stamp)[i],
            ),
        stop_time_consistent(recorded(store, local, remote_round, valid_round_range, local_connection, stamp)),
{
}

/// Marking an unreachable node stopped gives a consistent record.
pub proof fn marking_unreachable_is_consistent(store: PayloadView, remote_round: i64, stamp: Seq<char>)
    ensures
        stop_time_consistent(unreachable_record(store, remote_round, stamp)),
{
}

/// The stop time is set once: while a stopped node stays stopped, its stop time stays.
pub proof fn stop_time_is_kept(
    store: PayloadView,
    local: NodeResponseView,
    remote_round: i64,
    valid_round_range: i64,
    local_connection: bool,
    stamp: Seq<char>,
)
    requires
        store.status == Status::Stopped,
    ensures
        recorded(store, local, remote_round, valid_round_range, local_connection, stamp).status
            == Status::Stopped ==> recorded(
            store,
            local,
            remote_round,
            valid_round_range,
            local_connection,
            stamp,
        ).time_stamp == store.time_stamp,
{
}

/// The clock matters only when a record is newly found stopped: otherwise any two
/// times give the same writes and the same record.
pub proof fn time_matters_only_when_newly_stopped(
    store: PayloadView,
    local: NodeResponseView,
    remote_round: i64,
    valid_round_range: i64,
    local_connection: bool,
    stamp1: Seq<char>,
    stamp2: Seq<char>,
)
    requires
        !round_needs_time(store, local.last_round, valid_round_range, local_connection),
    ensures
        round_writes(store, local, remote_round, valid_round_range, local_connection, stamp1)
            == round_writes(store, local, remote_round, valid_round_range, local_connection, stamp2),
        recorded(store, local, remote_round, valid_round_range, local_connection, stamp1)
            == recorded(store, local, remote_round, valid_round_range, local_connection, stamp2),
{
    assert(round_writes(store, local, remote_round, valid_round_range, local_connection, stamp1)
        =~= round_writes(store, local, remote_round, valid_round_range, local_connection, stamp2));
}

/// A disconnected round is recorded with the last recorded local round, as a poll does.
pub open spec fn paired(store: PayloadView, local: NodeResponseView, local_connection: bool) -> bool {
    !local_connection ==> local.last_round == store.local_last_round
}

/// The recorded local round never goes back, when a lost connection is recorded with
/// the last recorded local round.
pub proof fn local_round_never_decreases(
    store: PayloadView,
    local: NodeResponseView,
    remote_round: i64,
    valid_round_range: i64,
    local_connection: bool,
    stamp: Seq<char>,
)
    requires
        paired(store, local, local_connection),
    ensures
        recorded(store, local, remote_round, valid_round_range, local_connection, stamp).local_last_round
            >= store.local_last_round,
{
}

/// Every record written by a round measures the lag: a synced record has none and its
/// remote round is the local node's, any other has the remote round minus the local one.
pub proof fn written_offset_is_lag(
    store: PayloadView,
    local: NodeResponseView,
    remote_round: i64,
    valid_round_range: i64,
    local_connection: bool,
    stamp: Seq<char>,
)
    requires
        paired(store, local, local_connection),
        round_fits(store, local.last_round, remote_round, valid_round_range, local_connection),
    ensures
        forall|i: int|
            #![trigger round_writes(store, local, remote_round, valid_round_range, local_connection, stamp)[i]]
            0 <= i < round_writes(store, local, remote_round, valid_round_range, local_connection, stamp).len()
                ==> {
                let w = round_writes(store, local, remote_round, valid_round_range, local_connection, stamp)[i];
                if w.status == Status::Synced {
                    w.offset == 0 && w.remote_last_round == local.last_round
                } else {
                    w.offset == w.remote_last_round - w.local_last_round
                }
            },
{
}

/// A node marked unreachable is recorded with its lag behind the remote round.
pub proof fn unreachable_offset_is_lag(store: PayloadView, remote_round: i64, stamp: Seq<char>)
    requires
        fits_i64(remote_round - store.local_last_round),
    ensures
        unreachable_record(store, remote_round, stamp).offset == unreachable_record(
            store,
            remote_round,
            stamp,
        ).remote_last_round - unreachable_record(store, remote_round, stamp).local_last_round,
{
}

/// Of the answers of the cluster, at most one is the most advanced.
pub proof fn most_updated_is_unique(answers: Seq<Option<NodeResponse>>, i: int, k: int)
    requires
        is_most_updated(answers, i),
        is_most_updated(answers, k),
    ensures
        i == k,
{
    if i < k {
        assert(answers[k] is Some);
    } else if k < i {
        assert(answers[i] is Some);
    }
}

/// The health endpoint answers OK exactly for a synced node.
pub proof fn healthy_iff_synced(status: Status)
    ensures
        (health_code(status) == 200) <==> (status == Status::Synced),
{
}

/// A stop time is carried only by a stopped record, and recording a round keeps that.
pub proof fn stop_time_only_while_stopped(
    store: PayloadView,
    local: NodeResponseView,
    remote_round: i64,
    valid_round_range: i64,
    local_connection: bool,
    stamp: Seq<char>,
)
    requires
        store.time_stamp is Some ==> store.status == Status::Stopped,
    ensures
        forall|i: int|
            #![trigger round_writes(store, local, remote_round, valid_round_range, local_connection, stamp)[i]]
            0 <= i < round_writes(store, local, remote_round, valid_round_range, local_connection, stamp).len()
                ==> {
                let w = round_writes(store, local, remote_round, valid_round_range, local_connection, stamp)[i];
                w.time_stamp is Some ==> w.status == Status::Stopped
            },
        ({
            let p = recorded(store, local, remote_round, valid_round_range, local_connection, stamp);
            p.time_stamp is Some ==> p.status == Status::Stopped
        }),
{
}

/// A round writes the data file at most once, and the record it leaves is exactly the
/// one written, or the old record when nothing is written.
pub proof fn record_is_what_is_written(
    store: PayloadView,
    local: NodeResponseView,
    remote_round: i64,
    valid_round_range: i64,
    local_connection: bool,
    stamp: Seq<char>,
)
    ensures
        round_writes(store, local, remote_round, valid_round_range, local_connection, stamp).len() <= 1,
        round_writes(store, local, remote_round, valid_round_range, local_connection, stamp).len() == 1
            ==> recorded(store, local, remote_round, valid_round_range, local_connection, stamp)
            == round_writes(store, local, remote_round, valid_round_range, local_connection, stamp)[0],
        round_writes(store, local, remote_round, valid_round_range, local_connection, stamp).len() == 0
            ==> recorded(store, local, remote_round, valid_round_range, local_connection, stamp) == store,
{
}

/// A connected node that reports the remote round is recorded synced, with no lag, no
/// stop time, and its reported round as the local round when that round went up.
pub proof fn level_node_is_synced(
    store: PayloadView,
    local: NodeResponseView,
    remote_round: i64,
    valid_round_range: i64,
    stamp: Seq<char>,
)
    requires
        local.last_round > store.local_last_round,
        local.last_round == remote_round,
    ensures
        ({
            let p = recorded(store, local, remote_round, valid_round_range, true, stamp);
            &&& p.status == Status::Synced
            &&& p.offset == 0
            &&& p.time_stamp is None
            &&& p.local_last_round == local.last_round
            &&& p.remote_last_round == remote_round
        }),
{
}

/// How a round classifies the local node, for every input: a connected node level with
/// the remote round at a round it did not report before is synced with no lag; one that
/// advanced but is not level is catching up, with the remote round and the lag to it;
/// one that went back and is not level changes nothing; one that did not advance or was
/// not reached is stopped beyond the allowed lag, with the remote round and its lag
/// behind it, and changes nothing within it.
pub proof fn round_classification(
    store: PayloadView,
    local: NodeResponseView,
    remote_round: i64,
    valid_round_range: i64,
    local_connection: bool,
    stamp: Seq<char>,
)
    requires
        round_fits(store, local.last_round, remote_round, valid_round_range, local_connection),
    ensures
        ({
            let w = round_writes(store, local, remote_round, valid_round_range, local_connection, stamp);
            let p = recorded(store, local, remote_round, valid_round_range, local_connection, stamp);
            &&& (local_connection && local.last_round != store.local_last_round && local.last_round
                == remote_round) ==> {
                &&& w.len() == 1
                &&& p.status == Status::Synced
                &&& p.offset == 0
                &&& p.time_stamp is None
                &&& p.remote_last_round == remote_round
                &&& p.local_last_round >= store.local_last_round
                &&& p.local_last_round >= local.last_round
                &&& (p.local_last_round == store.local_last_round || p.local_last_round
                    == local.last_round)
            }
            &&& (local_connection && store.local_last_round < local.last_round && local.last_round
                != remote_round) ==> {
                &&& w.len() == 1
                &&& p.status == Status::CatchingUp
                &&& p.time_stamp is None
                &&& p.remote_last_round == remote_round
                &&& p.local_last_round == local.last_round
                &&& p.offset == remote_round - local.last_round
            }
            &&& (local_connection && local.last_round < store.local_last_round && local.last_round
                != remote_round) ==> w.len() == 0 && p == store
            &&& ((local.last_round == store.local_last_round || !local_connection) && store.offset
                > valid_round_range) ==> {
                &&& w.len() == 1
                &&& p.status == Status::Stopped
                &&& p.remote_last_round == remote_round
                &&& p.local_last_round == local.last_round
                &&& p.offset == remote_round - store.local_last_round
            }
            &&& ((local.last_round == store.local_last_round || !local_connection) && store.offset
                <= valid_round_range) ==> w.len() == 0 && p == store
        }),
{
}

/// Every cluster node is asked, once and in order, at its status endpoint.
pub proof fn one_status_url_per_node(nodes: Seq<Seq<char>>)
    ensures
        status_urls(nodes).len() == nodes.len(),
        forall|k: int| 0 <= k < nodes.len() ==> #[trigger] status_urls(nodes)[k] == nodes[k] + "/v2/status"@,
{
}

/// The health endpoint reads from the configured directory whenever one is given and
/// not empty, and from the default place otherwise.
pub proof fn configured_health_dir_is_used(d: Seq<char>)
    ensures
        d.len() > 0 ==> health_dir(Some(d)) == Some(d),
        d.len() == 0 ==> health_dir(Some(d)) is None,
        health_dir(None) is None,
{
}

/// The data file is `data.json` in the given directory, whatever the program's
/// directory; only without one does it lie beside the program. The default settings
/// file lies beside the program.
pub proof fn data_file_in_given_dir(d: Seq<char>, program_dir: Seq<char>)
    ensures
        data_file(Some(d), program_dir) == d + "/data.json"@,
        data_file(None, program_dir) == program_dir + "/data.json"@,
        default_settings_file(program_dir) == program_dir + "/settings.json"@,
{
    reveal_strlit("/");
    reveal_strlit("data.json");
    reveal_strlit("/data.json");
    reveal_strlit("settings.json");
    reveal_strlit("/settings.json");
    assert(d + "/"@ + "data.json"@ =~= d + "/data.json"@);
    assert(program_dir + "/"@ + "data.json"@ =~= program_dir + "/data.json"@);
    assert(program_dir + "/"@ + "settings.json"@ =~= program_dir + "/settings.json"@);
}

} // verus!
