use vstd::prelude::*;
use crate::common::models::WorkerStatus;
use crate::common::messages::WebsocketMessage;
use crate::server::package_store::{PackageView, StoreView};
use crate::server::repository::{build_output_row, repository_failure_message};
use crate::server::orchestrator::{build_result_row, revert_job};
use crate::server::store_laws::law_set_status_then_lookup;
use crate::server::worker::{after_message, first_free, first_with_id, is_free, JobView, ManagerView, WorkerView};

verus! {

/// A job only ever goes to a worker that stands by and has authenticated,
/// and to the first such worker.
pub proof fn law_dispatch_only_to_free_worker(ws: Seq<WorkerView>)
    ensures
        first_free(ws) is Some ==> {
            let i = first_free(ws)->0;
            &&& 0 <= i < ws.len()
            &&& ws[i].status == WorkerStatus::STANDBY
            &&& ws[i].authenticated
            &&& forall|j: int| 0 <= j < i ==> !is_free(#[trigger] ws[j])
        },
        first_free(ws) is None ==> forall|j: int| 0 <= j < ws.len() ==> !is_free(#[trigger] ws[j]),
{
    if exists|i: int| 0 <= i < ws.len() && is_free(ws[i]) {
        let k = choose|i: int| 0 <= i < ws.len() && is_free(ws[i]);
        lemma_first_free_exists(ws, k);
    }
}

proof fn lemma_first_free_exists(ws: Seq<WorkerView>, k: int)
    requires
        0 <= k < ws.len(),
        is_free(ws[k]),
    ensures
        exists|w: int| 0 <= w < ws.len() && is_free(ws[w]) && forall|j: int| 0 <= j < w ==> !is_free(ws[j]),
    decreases k,
{
    if exists|j: int| 0 <= j < k && is_free(ws[j]) {
        let j = choose|j: int| 0 <= j < k && is_free(ws[j]);
        lemma_first_free_exists(ws, j);
    } else {
        assert(forall|j: int| 0 <= j < k ==> !is_free(ws[j]));
    }
}

/// When a worker that holds a job goes away, the package of that job is
/// pending again (and otherwise unchanged).
pub proof fn law_removed_worker_job_pending(s: StoreView, w: WorkerView)
    requires
        s.wf(),
        w.job is Some,
        s.has_package(w.job->0.package_id),
    ensures
        revert_job(s, w).wf(),
        revert_job(s, w).lookup(w.job->0.package_id)
            == Some(PackageView { status: 1, ..s.lookup(w.job->0.package_id).unwrap() }),
{
    law_set_status_then_lookup(s, w.job->0.package_id, 1);
}

/// A worker becomes authenticated only by presenting the server's key;
/// presenting another key changes nothing.
pub proof fn law_authentication_needs_key(m: ManagerView, id: usize, key: String)
    ensures
        key@ != m.api_key ==> after_message(m, id, WebsocketMessage::Authenticate { api_key: key }) == m,
        key@ == m.api_key && first_with_id(m.workers, id) is Some ==> {
            let i = first_with_id(m.workers, id)->0;
            after_message(m, id, WebsocketMessage::Authenticate { api_key: key }).workers[i].authenticated
        },
{
    if key@ == m.api_key && first_with_id(m.workers, id) is Some {
        let k = choose|i: int| 0 <= i < m.workers.len() && m.workers[i].id == id;
        lemma_first_with_id_exists(m.workers, id, k);
        let i = first_with_id(m.workers, id)->0;
        assert(0 <= i < m.workers.len());
    }
}

proof fn lemma_first_with_id_exists(ws: Seq<WorkerView>, id: usize, k: int)
    requires
        0 <= k < ws.len(),
        ws[k].id == id,
    ensures
        exists|w: int| 0 <= w < ws.len() && ws[w].id == id && forall|j: int| 0 <= j < w ==> ws[j].id != id,
    decreases k,
{
    if exists|j: int| 0 <= j < k && ws[j].id == id {
        let j = choose|j: int| 0 <= j < k && ws[j].id == id;
        lemma_first_with_id_exists(ws, id, j);
    } else {
        assert(forall|j: int| 0 <= j < k ==> ws[j].id != id);
    }
}

/// A build that reports an error fails, records the error and keeps the
/// version last built; one that does not is built, with its version and no
/// error. The time and the files are recorded either way.
pub proof fn law_build_output(p: PackageView, files: Seq<Seq<char>>, error: Option<Seq<char>>, version: Option<Seq<char>>, now: i64)
    ensures
        build_output_row(p, files, error, version, now).last_built == Some(now),
        build_output_row(p, files, error, version, now).files == files,
        build_output_row(p, files, error, version, now).id == p.id,
        build_output_row(p, files, error, version, now).name == p.name,
        error is Some ==> {
            &&& build_output_row(p, files, error, version, now).status == 4
            &&& build_output_row(p, files, error, version, now).last_error == error
            &&& build_output_row(p, files, error, version, now).last_built_version == p.last_built_version
        },
        error is None ==> {
            &&& build_output_row(p, files, error, version, now).status == 3
            &&& build_output_row(p, files, error, version, now).last_error is None
            &&& build_output_row(p, files, error, version, now).last_built_version == version
        },
{
}

/// Built files that could not be added to the repository leave the package
/// failed with a message saying so; without files the repository plays no part.
pub proof fn law_repository_failure(p: PackageView, files: Seq<Seq<char>>, error: Option<Seq<char>>, version: Option<Seq<char>>, now: i64)
    ensures
        files.len() > 0 ==> {
            &&& build_result_row(p, files, error, version, false, now).status == 4
            &&& build_result_row(p, files, error, version, false, now).last_error == Some(repository_failure_message())
        },
        files.len() == 0 ==> build_result_row(p, files, error, version, false, now)
            == build_result_row(p, files, error, version, true, now),
        build_result_row(p, files, error, version, true, now) == build_output_row(p, files, error, version, now),
{
}

/// How many workers stand by and have authenticated.
pub open spec fn free_count(ws: Seq<WorkerView>) -> nat
    decreases ws.len(),
{
    if ws.len() == 0 {
        0
    } else {
        free_count(ws.drop_last()) + if is_free(ws.last()) { 1nat } else { 0nat }
    }
}

proof fn lemma_free_count_update(ws: Seq<WorkerView>, i: int, w: WorkerView)
    requires
        0 <= i < ws.len(),
        is_free(ws[i]),
        !is_free(w),
    ensures
        free_count(ws.update(i, w)) + 1 == free_count(ws),
    decreases ws.len(),
{
    let us = ws.update(i, w);
    if i == ws.len() - 1 {
        assert(us.drop_last() =~= ws.drop_last());
    } else {
        assert(us.drop_last() =~= ws.drop_last().update(i, w));
        lemma_free_count_update(ws.drop_last(), i, w);
    }
}

/// A pass of the dispatcher (`next_dispatch` until it gives nothing) stops
/// when no package is pending or no worker is free, that is when the count
/// of free workers is zero or nothing is pending; each job it hands out
/// takes a free worker, which is no longer free afterwards (whether or not
/// the job then reaches it), so a pass hands out at most as many jobs as
/// there were free workers.
pub proof fn law_dispatch_pass_ends(ws: Seq<WorkerView>, job: JobView)
    ensures
        first_free(ws) is None <==> free_count(ws) == 0,
        first_free(ws) matches Some(i) ==> free_count(ws.update(i, WorkerView {
            status: WorkerStatus::DISPATCHED,
            job: Some(job),
            ..ws[i]
        })) + 1 == free_count(ws),
{
    law_dispatch_only_to_free_worker(ws);
    lemma_free_count_zero(ws);
    if first_free(ws) is Some {
        let i = first_free(ws)->0;
        lemma_free_count_update(ws, i, WorkerView { status: WorkerStatus::DISPATCHED, job: Some(job), ..ws[i] });
    }
}

proof fn lemma_free_count_zero(ws: Seq<WorkerView>)
    ensures
        free_count(ws) == 0 <==> forall|j: int| 0 <= j < ws.len() ==> !is_free(#[trigger] ws[j]),
    decreases ws.len(),
{
    if ws.len() > 0 {
        lemma_free_count_zero(ws.drop_last());
        assert forall|j: int| 0 <= j < ws.len() - 1 implies #[trigger] ws.drop_last()[j] == ws[j] by {}
        if free_count(ws) == 0 {
            assert forall|j: int| 0 <= j < ws.len() implies !is_free(#[trigger] ws[j]) by {
                if j < ws.len() - 1 {
                    assert(ws.drop_last()[j] == ws[j]);
                }
            }
        } else if forall|j: int| 0 <= j < ws.len() ==> !is_free(#[trigger] ws[j]) {
            assert(!is_free(ws.last()));
            assert forall|j: int| 0 <= j < ws.drop_last().len() implies !is_free(#[trigger] ws.drop_last()[j]) by {
                assert(ws.drop_last()[j] == ws[j]);
            }
        }
    }
}

} // verus!
