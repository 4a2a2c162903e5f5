use vstd::prelude::*;
use crate::types::{MonitorSettings, NodeResponse, Payload};
use crate::header::{header_value_from_str, header_value_text, TokenValue};
use crate::paths::status_url;
use crate::store::{fits_i64, unreachable_record, fallback_response, mark_unreachable_at, fallback_local_response};
use crate::clock::{current_time, utc_text};

verus! {

/// Why a poll of the nodes cannot start.
#[derive(Debug, Clone, Copy, PartialEq, Eq, Structural)]
pub enum FetchError {
    /// The API token holds a byte that no HTTP header value may hold.
    InvalidToken,
}

/// The header that carries the API token.
pub fn token_header_name() -> (name: &'static str)
    ensures
        name@ == "X-Algo-API-Token"@,
{
    "X-Algo-API-Token"
}

/// The header value for the API token: none for an empty token, an error for one that no
/// header may carry, and otherwise the value made from the whole token, holding exactly
/// its bytes.
pub fn api_token_header(token: &str) -> (r: Result<Option<TokenValue>, FetchError>)
    ensures
        token@.len() == 0 ==> r matches Ok(None),
        r matches Ok(Some(t)) ==> t.text() == token@ && t.carries(token@),
        token@.len() != 0 ==> (r matches Ok(Some(_)) <==> header_value_text(token@)),
        token@.len() != 0 ==> (r matches Err(FetchError::InvalidToken) <==> !header_value_text(token@)),
{
    if token.is_empty() {
        Ok(None)
    } else {
        match header_value_from_str(token) {
            Ok(v) => Ok(Some(v)),
            Err(_) => Err(FetchError::InvalidToken),
        }
    }
}

/// Index `i` holds the answer with the highest round; of several such, the last.
pub open spec fn is_most_updated(answers: Seq<Option<NodeResponse>>, i: int) -> bool {
    &&& 0 <= i < answers.len()
    &&& answers[i] is Some
    &&& forall|j: int|
        0 <= j < answers.len() && (#[trigger] answers[j]) is Some ==> answers[j]->0.last_round
            <= answers[i]->0.last_round
    &&& forall|j: int|
        i < j < answers.len() && (#[trigger] answers[j]) is Some ==> answers[j]->0.last_round
            < answers[i]->0.last_round
}

/// No node answered.
pub open spec fn none_answered(answers: Seq<Option<NodeResponse>>) -> bool {
    forall|j: int| 0 <= j < answers.len() ==> (#[trigger] answers[j]) is None
}

/// The position of the most advanced node among the answers (`None` for a node that
/// could not be asked): the highest round wins, and of equal rounds the last.
pub fn most_updated_index(answers: &Vec<Option<NodeResponse>>) -> (r: Option<usize>)
    ensures
        r is None <==> none_answered(answers@),
        r matches Some(i) ==> is_most_updated(answers@, i as int),
{
    let mut best: Option<usize> = None;
    let mut i: usize = 0;
    while i < answers.len()
        invariant
            i <= answers@.len(),
            best is None <==> none_answered(answers@.take(i as int)),
            best matches Some(b) ==> is_most_updated(answers@.take(i as int), b as int),
        decreases answers@.len() - i,
    {
        let ghost prefix = answers@.take(i as int);
        let ghost next = answers@.take(i + 1);
        assert(next =~= prefix.push(answers@[i as int]));
        match &answers[i] {
            Some(node) => {
                let better = match best {
                    None => true,
                    Some(b) => match &answers[b] {
                        Some(cur) => node.last_round >= cur.last_round,
                        None => true,
                    },
                };
                if better {
                    best = Some(i);
                    assert(is_most_updated(next, i as int)) by {
                        assert forall|j: int|
                            0 <= j < next.len() && (#[trigger] next[j]) is Some implies next[j]->0.last_round
                            <= next[i as int]->0.last_round by {
                            if j < i {
                                assert(prefix[j] == next[j]);
                            }
                        }
                    }
                } else {
                    let ghost b = best->0 as int;
                    assert(is_most_updated(next, b)) by {
                        assert(prefix[b] == next[b]);
                        assert forall|j: int|
                            0 <= j < next.len() && (#[trigger] next[j]) is Some implies next[j]->0.last_round
                            <= next[b]->0.last_round by {
                            if j < i {
                                assert(prefix[j] == next[j]);
                            }
                        }
                        assert forall|j: int|
                            b < j < next.len() && (#[trigger] next[j]) is Some implies next[j]->0.last_round
                            < next[b]->0.last_round by {
                            if j < i {
                                assert(prefix[j] == next[j]);
                            }
                        }
                    }
                }
            },
            None => {
                proof {
                    if best is None {
                        assert forall|j: int| 0 <= j < next.len() implies (#[trigger] next[j]) is None by {
                            if j < i {
                                assert(prefix[j] == next[j]);
                            }
                        }
                    } else {
                        let b = best->0 as int;
                        assert(prefix[b] == next[b]);
                        assert forall|j: int|
                            0 <= j < next.len() && (#[trigger] next[j]) is Some implies next[j]->0.last_round
                            <= next[b]->0.last_round by {
                            assert(prefix[j] == next[j]);
                        }
                        assert forall|j: int|
                            b < j < next.len() && (#[trigger] next[j]) is Some implies next[j]->0.last_round
                            < next[b]->0.last_round by {
                            assert(prefix[j] == next[j]);
                        }
                        assert(!none_answered(next)) by {
                            assert(next[b] is Some);
                        }
                    }
                }
            },
        }
        i = i + 1;
    }
    assert(answers@.take(answers@.len() as int) =~= answers@);
    best
}

/// Where one poll of the nodes stands.
pub enum FetchStage {
    /// Nothing asked yet.
    Start,
    /// The cluster nodes were asked for their status.
    AwaitRemotes,
    /// The local node was asked; `remote` is the most advanced cluster node.
    AwaitLocal { remote: NodeResponse },
    /// The local node could not be asked; the stored record was requested.
    AwaitStore { remote: NodeResponse },
    /// The record of the unreachable node is being written; `local` stands in for its answer.
    AwaitWritten { local: NodeResponse, remote: NodeResponse },
    /// The poll is over.
    Done,
}

/// What came back from the last action of a poll.
pub enum FetchEvent {
    /// The poll starts.
    Begin,
    /// The answers of the cluster nodes, in the order of the settings; `None` where a
    /// node could not be asked.
    RemotesAnswered(Vec<Option<NodeResponse>>),
    /// The answer of the local node; `None` when it could not be asked.
    LocalAnswered(Option<NodeResponse>),
    /// The stored health record.
    StoreLoaded(Payload),
    /// The record was written to the data file.
    StoreWritten,
}

/// What the poll asks to be done next.
pub enum FetchAction {
    /// Ask each of these status endpoints, in order.
    QueryRemotes(Vec<String>),
    /// Ask this status endpoint of the local node.
    QueryLocal(String),
    /// Read the stored health record.
    LoadStore,
    /// Write this record to the data file.
    WriteStore(Payload),
    /// Record the round of `local` against `remote` in the stored record.
    Record { local: NodeResponse, remote: NodeResponse, local_connection: bool },
    /// Nothing more to do.
    Finish,
}

/// The status endpoints of the given nodes.
pub open spec fn status_urls(nodes: Seq<Seq<char>>) -> Seq<Seq<char>> {
    nodes.map_values(|n: Seq<char>| n + "/v2/status"@)
}

/// The views of a sequence of strings.
pub open spec fn string_views(s: Seq<String>) -> Seq<Seq<char>> {
    s.map_values(|t: String| t@)
}

/// The status endpoints of the cluster nodes in `settings`.
pub fn cluster_status_urls(settings: &MonitorSettings) -> (urls: Vec<String>)
    ensures
        string_views(urls@) == status_urls(settings@.cluster_nodes),
        urls@.len() == settings.cluster_nodes@.len(),
        forall|k: int|
            0 <= k < urls@.len() ==> (#[trigger] urls@[k])@ == settings.cluster_nodes@[k]@ + "/v2/status"@,
{
    let mut urls: Vec<String> = Vec::new();
    let n = settings.cluster_nodes.len();
    for i in 0..n
        invariant
            n == settings.cluster_nodes@.len(),
            urls@.len() == i,
            forall|k: int| 0 <= k < i ==> (#[trigger] urls@[k])@ == settings.cluster_nodes@[k]@ + "/v2/status"@,
    {
        urls.push(status_url(settings.cluster_nodes[i].as_str()));
    }
    assert(string_views(urls@) =~= status_urls(settings@.cluster_nodes));
    urls
}

/// The next stage and action of a poll, given the event that the last action produced.
/// A poll asks the cluster nodes; if none answered it ends. Otherwise it asks the local
/// node; if that answers, the round is recorded as connected. If not, the stored record
/// is marked stopped now, written back, and the round is recorded as disconnected with
/// a stand-in answer at the last recorded local round.
pub fn fetch_step(stage: FetchStage, event: FetchEvent, settings: &MonitorSettings) -> (r: (FetchStage, FetchAction))
    requires
        stage matches FetchStage::AwaitStore { remote } ==> (event matches FetchEvent::StoreLoaded(
            store,
        ) ==> fits_i64(remote.last_round - store.local_last_round)),
    ensures
        ({
            let (next, action) = r;
            match (stage, event) {
                (FetchStage::Start, FetchEvent::Begin) => {
                    &&& next is AwaitRemotes
                    &&& action matches FetchAction::QueryRemotes(urls)
                    &&& string_views(urls@) == status_urls(settings@.cluster_nodes)
                },
                (FetchStage::AwaitRemotes, FetchEvent::RemotesAnswered(answers)) => {
                    if none_answered(answers@) {
                        next is Done && action is Finish
                    } else {
                        exists|i: int|
                            {
                                &&& is_most_updated(answers@, i)
                                &&& next == (FetchStage::AwaitLocal { remote: answers@[i]->0 })
                                &&& action matches FetchAction::QueryLocal(url)
                                &&& url@ == settings.local_node@ + "/v2/status"@
                            }
                    }
                },
                (FetchStage::AwaitLocal { remote }, FetchEvent::LocalAnswered(Some(local))) => {
                    &&& next is Done
                    &&& action == (FetchAction::Record { local, remote, local_connection: true })
                },
                (FetchStage::AwaitLocal { remote }, FetchEvent::LocalAnswered(None)) => {
                    &&& next == (FetchStage::AwaitStore { remote })
                    &&& action is LoadStore
                },
                (FetchStage::AwaitStore { remote }, FetchEvent::StoreLoaded(store)) => {
                    &&& action matches FetchAction::WriteStore(p)
                    &&& exists|stamp: Seq<char>| utc_text(stamp) && p@ == unreachable_record(store@, remote.last_round, stamp)
                    &&& next matches FetchStage::AwaitWritten { local, remote: r2 }
                    &&& r2 == remote
                    &&& local@ == fallback_response(p@)
                },
                (FetchStage::AwaitWritten { local, remote }, FetchEvent::StoreWritten) => {
                    &&& next is Done
                    &&& action == (FetchAction::Record { local, remote, local_connection: false })
                },
                _ => next is Done && action is Finish,
            }
        }),
{
    match (stage, event) {
        (FetchStage::Start, FetchEvent::Begin) => {
            (FetchStage::AwaitRemotes, FetchAction::QueryRemotes(cluster_status_urls(settings)))
        },
        (FetchStage::AwaitRemotes, FetchEvent::RemotesAnswered(answers)) => {
            match most_updated_index(&answers) {
                Some(i) => {
                    let ghost old_answers = answers@;
                    let mut answers = answers;
                    match answers.remove(i) {
                        Some(remote) => {
                            let url = status_url(settings.local_node.as_str());
                            assert(is_most_updated(old_answers, i as int));
                            (FetchStage::AwaitLocal { remote }, FetchAction::QueryLocal(url))
                        },
                        None => (FetchStage::Done, FetchAction::Finish),
                    }
                },
                None => (FetchStage::Done, FetchAction::Finish),
            }
        },
        (FetchStage::AwaitLocal { remote }, FetchEvent::LocalAnswered(Some(local))) => {
            (FetchStage::Done, FetchAction::Record { local, remote, local_connection: true })
        },
        (FetchStage::AwaitLocal { remote }, FetchEvent::LocalAnswered(None)) => {
            (FetchStage::AwaitStore { remote }, FetchAction::LoadStore)
        },
        (FetchStage::AwaitStore { remote }, FetchEvent::StoreLoaded(store)) => {
            let now = current_time();
            let marked = mark_unreachable_at(store, remote.last_round, now);
            let local = fallback_local_response(&marked);
            (FetchStage::AwaitWritten { local, remote }, FetchAction::WriteStore(marked))
        },
        (FetchStage::AwaitWritten { local, remote }, FetchEvent::StoreWritten) => {
            (FetchStage::Done, FetchAction::Record { local, remote, local_connection: false })
        },
        _ => (FetchStage::Done, FetchAction::Finish),
    }
}

} // verus!
