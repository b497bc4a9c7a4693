use vstd::prelude::*;
use crate::common::models::{PackageJob, PackageStatus};
use crate::common::messages::WebsocketMessage;
use crate::server::clock::{current_timestamp, ClockUnavailable};
use crate::server::config::LegacyPackageDefinition;
use crate::server::package_store::{
    count_rebuild_due, cutoff_fits, expected_job, max_id, patches_of, Package, PackageInsert, PackageStore, PackageView, StoreError, StoreView,
};
use crate::server::repository::{build_output_row, repository_failure_row, Repository};
use crate::server::worker::{
    after_message, clone_job, first_free, first_with_id, job_view, removed_from, kept_from, workers_view,
    InnerWorker, ManagerView, WorkerManager, WorkerView,
};
use crate::common::models::WorkerStatus;
use crate::server::text::{clone_opt_string, str_eq};

verus! {

/// The names and commands of the packages listed in the configuration.
pub open spec fn definitions_view(defs: Seq<LegacyPackageDefinition>) -> Seq<(Seq<char>, Option<Seq<char>>)> {
    defs.map_values(|d: LegacyPackageDefinition| (d.name@, d.run_before.deep_view()))
}

/// The store after the configured packages are added: each one whose name
/// no package of the initial store has is created, in the listed order.
pub open spec fn seeded(initial: StoreView, defs: Seq<(Seq<char>, Option<Seq<char>>)>) -> StoreView
    decreases defs.len(),
{
    if defs.len() == 0 {
        initial
    } else {
        let s = seeded(initial, defs.drop_last());
        if initial.has_name(defs.last().0) {
            s
        } else {
            s.create(defs.last().0, defs.last().1)
        }
    }
}

/// The store after the package of a removed worker's job goes back to pending.
pub open spec fn revert_job(s: StoreView, w: WorkerView) -> StoreView {
    match w.job {
        Some(j) => s.set_status(j.package_id, 1),
        None => s,
    }
}

/// The store after the jobs of removed workers go back to pending, in order.
pub open spec fn revert_jobs(s: StoreView, ws: Seq<WorkerView>) -> StoreView
    decreases ws.len(),
{
    if ws.len() == 0 {
        s
    } else {
        revert_job(revert_jobs(s, ws.drop_last()), ws.last())
    }
}

/// The package row after a build's output, given whether its files made it
/// into the repository.
pub open spec fn build_result_row(
    p: PackageView,
    files: Seq<Seq<char>>,
    error: Option<Seq<char>>,
    version: Option<Seq<char>>,
    repository_added: bool,
    now: i64,
) -> PackageView {
    let row = build_output_row(p, files, error, version, now);
    if files.len() > 0 && !repository_added {
        repository_failure_row(row)
    } else {
        row
    }
}

/// Whether a rebuild interval, taken as a signed number of seconds, is one
/// that a time span can hold.
pub open spec fn interval_ok(rebuild_interval: Option<u64>) -> bool {
    match rebuild_interval {
        Some(i) => -(i64::MAX / 1000) <= (i as i64) <= i64::MAX / 1000,
        None => true,
    }
}

/// A job handed to a worker by the dispatcher.
pub struct Dispatch {
    pub worker_id: usize,
    pub package_id: i32,
    pub job: PackageJob,
}

/// What a build's output did to its package.
pub struct BuildOutcome {
    pub package: Package,
    pub version_changed: bool,
}

/// The state the orchestrator decides on: the package store, the worker
/// pool and the rebuild interval.
pub struct Orchestrator {
    worker_manager: WorkerManager,
    package_store: PackageStore,
    rebuild_interval: Option<u64>,
}

/// The orchestrator's state as plain values.
pub struct OrchestratorView {
    pub store: StoreView,
    pub workers: ManagerView,
    pub rebuild_interval: Option<u64>,
}

impl View for Orchestrator {
    type V = OrchestratorView;

    closed spec fn view(&self) -> OrchestratorView {
        OrchestratorView {
            store: self.package_store@,
            workers: self.worker_manager@,
            rebuild_interval: self.rebuild_interval,
        }
    }
}

/// Whether one of the rows has the name.
fn has_name_in(packages: &Vec<Package>, name: &str) -> (r: bool)
    ensures
        r == exists|i: int| 0 <= i < packages.len() && (#[trigger] packages@[i])@.name == name@,
{
    let mut i: usize = 0;
    while i < packages.len()
        invariant
            i <= packages.len(),
            forall|k: int| 0 <= k < i ==> (#[trigger] packages@[k])@.name != name@,
        decreases packages.len() - i,
    {
        if str_eq(packages[i].get_name().as_str(), name) {
            return true;
        }
        i = i + 1;
    }
    false
}

impl Orchestrator {
    pub open spec fn wf(&self) -> bool {
        &&& self@.store.wf()
        &&& interval_ok(self@.rebuild_interval)
    }

    /// Builds the orchestrator on a store, adding the configured packages
    /// that the store does not hold yet.
    pub fn new(
        package_store: PackageStore,
        api_key: String,
        rebuild_interval: Option<u64>,
        packages: &Vec<LegacyPackageDefinition>,
    ) -> (o: Orchestrator)
        requires
            package_store.wf(),
            interval_ok(rebuild_interval),
            package_store@.next_package_id + packages.len() <= max_id() + 1,
        ensures
            o.wf(),
            o@.store == seeded(package_store@, definitions_view(packages@)),
            o@.workers.api_key == api_key@,
            o@.workers.next_id == 0,
            o@.workers.workers.len() == 0,
            o@.rebuild_interval == rebuild_interval,
    {
        let mut store = package_store;
        let ghost initial = store@;
        let ghost defs = definitions_view(packages@);
        let existing = store.get_packages();
        let mut i: usize = 0;
        while i < packages.len()
            invariant
                defs == definitions_view(packages@),
                i <= packages.len(),
                store.wf(),
                initial.wf(),
                store@.next_package_id <= initial.next_package_id + i,
                initial.next_package_id + packages.len() <= max_id() + 1,
                crate::server::package_store::packages_view(existing@) == initial.packages,
                store@ == seeded(initial, defs.subrange(0, i as int)),
            decreases packages.len() - i,
        {
            let ghost sub = defs.subrange(0, i as int + 1);
            assert(sub.drop_last() =~= defs.subrange(0, i as int));
            assert(sub.last() == defs[i as int]);
            let name = packages[i].name.as_str();
            let present = has_name_in(&existing, name);
            proof {
                if present {
                    let k = choose|k: int| 0 <= k < existing.len() && (#[trigger] existing@[k])@.name == name@;
                    assert(initial.packages[k].name == name@);
                } else {
                    assert forall|k: int| 0 <= k < initial.packages.len() implies initial.packages[k].name != name@ by {
                        assert(initial.packages[k] == existing@[k]@);
                    }
                }
            }
            if !present {
                let insert = PackageInsert {
                    name: packages[i].name.clone(),
                    run_before: clone_opt_string(&packages[i].run_before),
                };
                let _ = store.create_package(insert);
            }
            i = i + 1;
        }
        assert(defs.subrange(0, packages.len() as int) =~= defs);
        Orchestrator { worker_manager: WorkerManager::new(api_key), package_store: store, rebuild_interval }
    }

    pub fn get_package_store(&mut self) -> (r: &mut PackageStore)
        ensures
            r@ == old(self)@.store,
            final(self)@ == (OrchestratorView { store: final(r)@, ..old(self)@ }),
    {
        &mut self.package_store
    }

    pub fn get_worker_manager(&self) -> (r: &WorkerManager)
        ensures
            r@ == self@.workers,
    {
        &self.worker_manager
    }

    /// Registers a newly connected worker; returns its id.
    pub fn add_worker(&mut self) -> (id: usize)
        ensures
            id == old(self)@.workers.next_id,
            final(self)@.store == old(self)@.store,
            final(self)@.rebuild_interval == old(self)@.rebuild_interval,
            final(self)@.workers.next_id == old(self)@.workers.next_id.wrapping_add(1),
            final(self)@.workers.api_key == old(self)@.workers.api_key,
            final(self)@.workers.workers == old(self)@.workers.workers.push(
                WorkerView { id, status: WorkerStatus::STANDBY, job: None, authenticated: false }),
    {
        self.worker_manager.add()
    }

    /// Applies a message received from the worker with the id.
    pub fn handle_worker_message(&mut self, worker_id: usize, message: WebsocketMessage)
        ensures
            final(self)@ == (OrchestratorView { workers: after_message(old(self)@.workers, worker_id, message), ..old(self)@ }),
    {
        self.worker_manager.handle_message(worker_id, message);
    }

    /// Puts the package of a removed worker's job back in the queue.
    fn handle_removed_worker(&mut self, worker: &InnerWorker)
        requires
            old(self).wf(),
        ensures
            final(self).wf(),
            final(self)@ == (OrchestratorView { store: revert_job(old(self)@.store, worker@), ..old(self)@ }),
    {
        match worker.get_current_job() {
            Some(job) => {
                let _ = self.package_store.update_package_status(job.definition.package_id, PackageStatus::PENDING);
            },
            None => {},
        }
    }

    /// Takes out the first worker with the id; if it had a job, its package
    /// goes back in the queue.
    pub fn remove_worker(&mut self, worker_id: usize)
        requires
            old(self).wf(),
        ensures
            final(self).wf(),
            final(self)@.rebuild_interval == old(self)@.rebuild_interval,
            final(self)@.workers.api_key == old(self)@.workers.api_key,
            final(self)@.workers.next_id == old(self)@.workers.next_id,
            match first_with_id(old(self)@.workers.workers, worker_id) {
                Some(i) => final(self)@.workers.workers == old(self)@.workers.workers.remove(i)
                    && final(self)@.store == revert_job(old(self)@.store, old(self)@.workers.workers[i]),
                None => final(self)@ == old(self)@,
            },
    {
        match self.worker_manager.remove(worker_id) {
            Some(worker) => {
                self.handle_removed_worker(&worker);
            },
            None => {},
        }
    }

    /// Takes out the workers whose flag is set (one per worker, in order);
    /// the packages of their jobs go back in the queue.
    pub fn remove_finished_workers(&mut self, finished: &Vec<bool>)
        requires
            old(self).wf(),
            finished.len() == old(self)@.workers.workers.len(),
        ensures
            final(self).wf(),
            final(self)@.rebuild_interval == old(self)@.rebuild_interval,
            final(self)@.workers.api_key == old(self)@.workers.api_key,
            final(self)@.workers.next_id == old(self)@.workers.next_id,
            final(self)@.workers.workers == kept_from(old(self)@.workers.workers, finished@, 0),
            final(self)@.store == revert_jobs(old(self)@.store, removed_from(old(self)@.workers.workers, finished@, 0)),
    {
        let removed = self.worker_manager.remove_flagged(finished);
        let ghost s0 = self@.store;
        let ghost rs = workers_view(removed@);
        let mut i: usize = 0;
        while i < removed.len()
            invariant
                i <= removed.len(),
                rs == workers_view(removed@),
                self.wf(),
                self@.rebuild_interval == old(self)@.rebuild_interval,
                self@.workers == (ManagerView {
                    workers: kept_from(old(self)@.workers.workers, finished@, 0),
                    ..old(self)@.workers
                }),
                self@.store == revert_jobs(s0, rs.subrange(0, i as int)),
            decreases removed.len() - i,
        {
            assert(rs.subrange(0, i as int + 1).drop_last() =~= rs.subrange(0, i as int));
            assert(rs.subrange(0, i as int + 1).last() == removed@[i as int]@);
            self.handle_removed_worker(&removed[i]);
            i = i + 1;
        }
        assert(rs.subrange(0, removed.len() as int) =~= rs);
    }

    /// Puts back in the queue, at the time `now`, the built or failed
    /// packages due for a rebuild, when a rebuild interval is set; see
    /// `PackageStore::set_packages_rebuild_at`.
    pub fn schedule_rebuilds_at(&mut self, now: i64) -> (r: Result<usize, StoreError>)
        requires
            old(self).wf(),
        ensures
            final(self).wf(),
            final(self)@.workers == old(self)@.workers,
            final(self)@.rebuild_interval == old(self)@.rebuild_interval,
            old(self)@.rebuild_interval is None ==> r == Ok::<usize, StoreError>(0) && final(self)@ == old(self)@,
            old(self)@.rebuild_interval matches Some(i) ==> {
                let interval = i as i64;
                &&& cutoff_fits(now, interval) ==> {
                    &&& final(self)@.store == old(self)@.store.rebuild((now - interval) as i64)
                    &&& r is Ok
                    &&& r->Ok_0 == count_rebuild_due(old(self)@.store.packages, (now - interval) as i64)
                }
                &&& !cutoff_fits(now, interval) ==> r == Err::<usize, StoreError>(StoreError::TimeOutOfRange)
                    && final(self)@ == old(self)@
            },
    {
        match self.rebuild_interval {
            Some(interval) => self.package_store.set_packages_rebuild_at(now, interval as i64),
            None => Ok(0),
        }
    }

    /// Puts back in the queue the built or failed packages due for a
    /// rebuild now, when a rebuild interval is set; see
    /// `schedule_rebuilds_at`. When the clock cannot be read nothing changes
    /// and the answer is `ClockUnavailable`.
    pub fn schedule_rebuilds(&mut self) -> (r: Result<usize, StoreError>)
        requires
            old(self).wf(),
        ensures
            final(self).wf(),
            final(self)@.workers == old(self)@.workers,
            final(self)@.rebuild_interval == old(self)@.rebuild_interval,
            old(self)@.rebuild_interval is None ==> r == Ok::<usize, StoreError>(0) && final(self)@ == old(self)@,
            old(self)@.rebuild_interval matches Some(i) ==> match r {
                Ok(n) => exists|now: i64| {
                    &&& now >= 0
                    &&& cutoff_fits(now, i as i64)
                    &&& final(self)@.store == #[trigger] old(self)@.store.rebuild((now - (i as i64)) as i64)
                    &&& n == count_rebuild_due(old(self)@.store.packages, (now - (i as i64)) as i64)
                },
                Err(e) => final(self)@ == old(self)@ && (e == StoreError::ClockUnavailable
                    || (e == StoreError::TimeOutOfRange && exists|now: i64| now >= 0 && !#[trigger] cutoff_fits(now, i as i64))),
            },
    {
        if self.rebuild_interval.is_none() {
            return Ok(0);
        }
        match current_timestamp() {
            Some(now) => {
                let r = self.schedule_rebuilds_at(now);
                proof {
                    let i = old(self)@.rebuild_interval->0;
                    if cutoff_fits(now, i as i64) {
                        assert(final(self)@.store == old(self)@.store.rebuild((now - (i as i64)) as i64));
                    } else {
                        assert(!cutoff_fits(now, i as i64));
                    }
                }
                r
            },
            None => Err(StoreError::ClockUnavailable),
        }
    }

    /// Picks the next job: the pending package with the smallest id goes to
    /// the first worker standing by and authenticated, which becomes
    /// dispatched with that job. Nothing happens when no package is pending
    /// or no worker is free. The package is marked as building only once the
    /// job has reached the worker (see `confirm_dispatch`).
    pub fn next_dispatch(&mut self) -> (r: Option<Dispatch>)
        requires
            old(self).wf(),
        ensures
            final(self).wf(),
            final(self)@.store == old(self)@.store,
            final(self)@.rebuild_interval == old(self)@.rebuild_interval,
            final(self)@.workers.api_key == old(self)@.workers.api_key,
            final(self)@.workers.next_id == old(self)@.workers.next_id,
            match (old(self)@.store.next_pending(), first_free(old(self)@.workers.workers)) {
                (Some(p), Some(i)) => {
                    let job = expected_job(p, patches_of(old(self)@.store.patches, p.id));
                    &&& r is Some
                    &&& r->0.worker_id == old(self)@.workers.workers[i].id
                    &&& r->0.package_id == p.id
                    &&& job_view(r->0.job) == job
                    &&& final(self)@.workers.workers == old(self)@.workers.workers.update(i, WorkerView {
                        status: WorkerStatus::DISPATCHED,
                        job: Some(job),
                        ..old(self)@.workers.workers[i]
                    })
                },
                _ => r is None && final(self)@ == old(self)@,
            },
    {
        let package = match self.package_store.get_next_pending_package() {
            Some(p) => p,
            None => return None,
        };
        let package_id = package.get_id();
        let patches = self.package_store.get_patches_for_package(package_id);
        let job = package.get_package_job(patches);
        match self.worker_manager.dispatch(clone_job(&job)) {
            None => None,
            Some(worker_id) => Some(Dispatch { worker_id, package_id, job }),
        }
    }

    /// Marks a dispatched package as building once its job reached the worker.
    pub fn confirm_dispatch(&mut self, package_id: i32)
        requires
            old(self).wf(),
        ensures
            final(self).wf(),
            final(self)@ == (OrchestratorView { store: old(self)@.store.set_status(package_id, 2), ..old(self)@ }),
    {
        let _ = self.package_store.update_package_status(package_id, PackageStatus::BUILDING);
    }

    /// Records a build's output at time `now` on the package with the name:
    /// see `build_result_row`. `repository_added` tells whether the built
    /// files were added to the repository (it only matters when there are
    /// files). Returns the updated package and whether its built version
    /// changed, or nothing when no package has the name.
    pub fn handle_package_build_output_at(
        &mut self,
        repository: &Repository,
        package_name: &str,
        version: Option<String>,
        error: Option<String>,
        package_files: Vec<String>,
        repository_added: bool,
        now: i64,
    ) -> (r: Option<BuildOutcome>)
        requires
            old(self).wf(),
        ensures
            final(self).wf(),
            final(self)@.workers == old(self)@.workers,
            final(self)@.rebuild_interval == old(self)@.rebuild_interval,
            match old(self)@.store.lookup_by_name(package_name@) {
                Some(p) => {
                    let row = build_result_row(p, package_files.deep_view(), error.deep_view(),
                        version.deep_view(), repository_added, now);
                    &&& r is Some
                    &&& r->0.package@ == row
                    &&& r->0.version_changed == (row.last_built_version != p.last_built_version)
                    &&& final(self)@.store == old(self)@.store.update(row)
                },
                None => r is None && final(self)@ == old(self)@,
            },
    {
        let mut package = match self.package_store.get_package_by_name(package_name) {
            Some(p) => p,
            None => return None,
        };
        let last_version = clone_opt_string(package.get_last_built_version());
        let has_files = package_files.len() > 0;
        repository.update_package_state_from_build_data_at(&mut package, package_files, error, version, now);
        if has_files && !repository_added {
            repository.record_repository_failure(&mut package);
        }
        let _ = self.package_store.update_package(&package);
        let version_changed = !opt_str_eq(package.get_last_built_version(), &last_version);
        Some(BuildOutcome { package, version_changed })
    }

    /// Records a build's output at the current time; see
    /// `handle_package_build_output_at`. A name that no package has changes
    /// nothing and is answered with nothing, without reading the clock; when
    /// the clock cannot be read nothing changes and the answer is
    /// `ClockUnavailable`.
    pub fn handle_package_build_output(
        &mut self,
        repository: &Repository,
        package_name: &str,
        version: Option<String>,
        error: Option<String>,
        package_files: Vec<String>,
        repository_added: bool,
    ) -> (r: Result<Option<BuildOutcome>, ClockUnavailable>)
        requires
            old(self).wf(),
        ensures
            final(self).wf(),
            final(self)@.workers == old(self)@.workers,
            final(self)@.rebuild_interval == old(self)@.rebuild_interval,
            old(self)@.store.lookup_by_name(package_name@) is None ==> r is Ok,
            r is Err ==> final(self)@ == old(self)@,
            r is Ok ==> match old(self)@.store.lookup_by_name(package_name@) {
                Some(p) => exists|now: i64| {
                    let row = #[trigger] build_result_row(p, package_files.deep_view(), error.deep_view(),
                        version.deep_view(), repository_added, now);
                    &&& now >= 0
                    &&& r->Ok_0 is Some
                    &&& r->Ok_0->0.package@ == row
                    &&& r->Ok_0->0.version_changed == (row.last_built_version != p.last_built_version)
                    &&& final(self)@.store == old(self)@.store.update(row)
                },
                None => r->Ok_0 is None && final(self)@ == old(self)@,
            },
    {
        if self.package_store.get_package_by_name(package_name).is_none() {
            return Ok(None);
        }
        match current_timestamp() {
            Some(now) => Ok(self.handle_package_build_output_at(
                repository, package_name, version, error, package_files, repository_added, now)),
            None => Err(ClockUnavailable),
        }
    }
}

/// Whether two optional strings are equal.
pub fn opt_str_eq(a: &Option<String>, b: &Option<String>) -> (r: bool)
    ensures
        r == (a.deep_view() == b.deep_view()),
{
    match (a, b) {
        (Some(x), Some(y)) => str_eq(x.as_str(), y.as_str()),
        (None, None) => true,
        _ => false,
    }
}

} // verus!
