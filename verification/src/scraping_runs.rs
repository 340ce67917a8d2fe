//! Scraping-run handlers: record a run, fetch the most recent one.
//!
//! Runs are an append-only log written by the external scraper.  The
//! service only ever reads the newest entry, by end time; asking for it
//! when no run exists is a fetch failure, since the endpoint promises
//! exactly one result.

use vstd::prelude::*;

use crate::errors::{AppError, AppSuccess, Resource};
use crate::store::{links_unchanged, prices_unchanged, providers_unchanged, runs_unchanged,
    store_unchanged, users_unchanged, zones_unchanged, ScrapingRun, Store};

verus! {

/// Whether position `i` holds the run the most-recent query returns:
/// no run ends later, and no earlier row ends at the same time.
pub open spec fn first_latest_run(runs: Seq<ScrapingRun>, i: int) -> bool {
    &&& 0 <= i < runs.len()
    &&& forall|j: int| 0 <= j < runs.len() ==> runs[j].end_time <= runs[i].end_time
    &&& forall|j: int| 0 <= j < i ==> runs[j].end_time < runs[i].end_time
}

/// Records a scraping run under the next free id.  The only failure is
/// an exhausted id sequence.
pub fn create_scraping_run(store: &mut Store, json: ScrapingRun) -> (r: Result<
    AppSuccess,
    AppError,
>)
    requires
        old(store).wf(),
    ensures
        final(store).wf(),
        old(store).next_run_id == i32::MAX ==> r == Err::<AppSuccess, AppError>(
            AppError::InsertError(Resource::ScrapingRun),
        ) && store_unchanged(*final(store), *old(store)),
        old(store).next_run_id < i32::MAX ==> r == Ok::<AppSuccess, AppError>(
            AppSuccess::Created(Resource::ScrapingRun, old(store).next_run_id),
        ) && final(store).runs@ == old(store).runs@.push(json) && final(store).next_run_id == old(
            store,
        ).next_run_id + 1,
        users_unchanged(*final(store), *old(store)),
        providers_unchanged(*final(store), *old(store)),
        zones_unchanged(*final(store), *old(store)),
        links_unchanged(*final(store), *old(store)),
        prices_unchanged(*final(store), *old(store)),
{
    if store.next_run_id == i32::MAX {
        return Err(AppError::InsertError(Resource::ScrapingRun));
    }
    let id = store.next_run_id;
    store.runs.push(json);
    store.next_run_id = id + 1;
    Ok(AppSuccess::Created(Resource::ScrapingRun, id))
}

/// The most recent scraping run, by end time; among runs ending at the
/// same moment, the earliest recorded.  With no run on record the fetch
/// fails with a fetch error, not an empty success, since exactly one
/// result is promised.
pub fn get_last_scraping_run_by_time(store: &Store) -> (r: Result<ScrapingRun, AppError>)
    ensures
        store.runs@.len() == 0 ==> r == Err::<ScrapingRun, AppError>(
            AppError::FetchError(Resource::ScrapingRun),
        ),
        store.runs@.len() > 0 ==> (r matches Ok(run) && exists|i: int|
            #[trigger] first_latest_run(store.runs@, i) && run == store.runs@[i]),
{
    let n = store.runs.len();
    if n == 0 {
        return Err(AppError::FetchError(Resource::ScrapingRun));
    }
    let mut best: usize = 0;
    let mut i: usize = 1;
    while i < n
        invariant
            1 <= i <= n,
            n == store.runs@.len(),
            best < i,
            forall|j: int| 0 <= j < i ==> store.runs@[j].end_time <= store.runs@[best as int].end_time,
            forall|j: int| 0 <= j < best ==> store.runs@[j].end_time < store.runs@[best as int].end_time,
        decreases n - i,
    {
        if store.runs[i].end_time > store.runs[best].end_time {
            best = i;
        }
        i += 1;
    }
    proof {
        assert(first_latest_run(store.runs@, best as int));
    }
    Ok(store.runs[best])
}

} // verus!
