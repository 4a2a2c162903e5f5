use vstd::prelude::*;
use crate::types::{Status, opt_string_view};

verus! {

/// The HTTP status the health endpoint answers for a record: 200 (OK) for a synced node,
/// 503 (service unavailable) for a stopped or catching-up one.
pub open spec fn health_code(status: Status) -> u16 {
    match status {
        Status::Synced => 200,
        Status::Stopped => 503,
        Status::CatchingUp => 503,
    }
}

/// The HTTP status that the health endpoint answers for a node in `status`.
pub fn health_status_code(status: Status) -> (code: u16)
    ensures
        code == health_code(status),
{
    match status {
        Status::Synced => 200,
        Status::Stopped => 503,
        Status::CatchingUp => 503,
    }
}

/// The data directory the health endpoint reads from: the one configured, unless it is
/// missing or empty (then the data file lies beside the program).
pub open spec fn health_dir(dir: Option<Seq<char>>) -> Option<Seq<char>> {
    match dir {
        Some(d) => if d.len() == 0 { None } else { Some(d) },
        None => None,
    }
}

/// The data directory the health endpoint reads from.
pub fn health_data_dir(dir: Option<String>) -> (r: Option<String>)
    ensures
        opt_string_view(r) == health_dir(opt_string_view(dir)),
        dir matches Some(d) ==> (d@.len() > 0 ==> (r matches Some(e) && e@ == d@)),
        (dir is None || dir->0@.len() == 0) ==> r is None,
{
    match dir {
        Some(d) => if d.as_str().is_empty() {
            None
        } else {
            Some(d)
        },
        None => None,
    }
}

} // verus!
