use vstd::prelude::*;
use crate::common::models::{PackageDefinition, PackageJob, PackagePatch, WorkerStatus};
use crate::common::messages::WebsocketMessage;
use crate::common::responses::WorkerResponse;
use crate::server::text::{clone_opt_string, str_eq};

verus! {

/// A build job as plain values.
pub struct JobView {
    pub package_id: i32,
    pub name: Seq<char>,
    pub run_before: Option<Seq<char>>,
    pub patches: Option<Seq<(Seq<char>, Option<Seq<char>>)>>,
    pub last_built_version: Option<Seq<char>>,
}

/// The plain values of a list of patches.
pub open spec fn patches_list_view(v: Seq<PackagePatch>) -> Seq<(Seq<char>, Option<Seq<char>>)> {
    v.map_values(|p: PackagePatch| (p.url@, p.sha512.deep_view()))
}

/// The plain values of a build job.
pub open spec fn job_view(j: PackageJob) -> JobView {
    JobView {
        package_id: j.definition.package_id,
        name: j.definition.name@,
        run_before: j.definition.run_before.deep_view(),
        patches: match j.definition.patches {
            Some(v) => Some(patches_list_view(v@)),
            None => None,
        },
        last_built_version: j.last_built_version.deep_view(),
    }
}

/// The plain values of an optional build job.
pub open spec fn opt_job_view(j: Option<PackageJob>) -> Option<JobView> {
    match j {
        Some(j) => Some(job_view(j)),
        None => None,
    }
}

/// The plain values of a package definition (with no built version).
pub open spec fn definition_view(d: PackageDefinition) -> JobView {
    JobView {
        package_id: d.package_id,
        name: d.name@,
        run_before: d.run_before.deep_view(),
        patches: match d.patches {
            Some(v) => Some(patches_list_view(v@)),
            None => None,
        },
        last_built_version: None,
    }
}

/// A copy of a package definition.
pub fn clone_definition(d: &PackageDefinition) -> (r: PackageDefinition)
    ensures
        definition_view(r) == definition_view(*d),
{
    let patches = match &d.patches {
        Some(v) => {
            let mut r: Vec<PackagePatch> = Vec::new();
            let mut i: usize = 0;
            while i < v.len()
                invariant
                    i <= v.len(),
                    r.len() == i,
                    forall|k: int| 0 <= k < i ==> (#[trigger] r@[k]).url@ == v@[k].url@
                        && r@[k].sha512.deep_view() == v@[k].sha512.deep_view(),
                decreases v.len() - i,
            {
                r.push(PackagePatch { url: v[i].url.clone(), sha512: clone_opt_string(&v[i].sha512) });
                i = i + 1;
            }
            assert(patches_list_view(r@) =~= patches_list_view(v@));
            Some(r)
        },
        None => None,
    };
    PackageDefinition {
        package_id: d.package_id,
        name: d.name.clone(),
        run_before: clone_opt_string(&d.run_before),
        patches,
    }
}

/// A copy of a build job.
pub fn clone_job(j: &PackageJob) -> (r: PackageJob)
    ensures
        job_view(r) == job_view(*j),
{
    let definition = clone_definition(&j.definition);
    PackageJob { definition, last_built_version: clone_opt_string(&j.last_built_version) }
}

/// A copy of an optional build job.
pub fn clone_opt_job(j: &Option<PackageJob>) -> (r: Option<PackageJob>)
    ensures
        opt_job_view(r) == opt_job_view(*j),
{
    match j {
        Some(j) => Some(clone_job(j)),
        None => None,
    }
}

/// How handing a job to the workers went.
pub enum WorkerDispatchResult {
    /// No worker stands by authenticated.
    NoneAvailable,
    /// The job reached a worker.
    Dispatched,
    /// The job could not be sent; the message says why.
    Failed(String),
}

/// The state the server keeps of one connected worker.
pub struct InnerWorker {
    id: usize,
    status: WorkerStatus,
    current_job: Option<PackageJob>,
    is_authenticated: bool,
}

/// A worker's state as plain values.
pub struct WorkerView {
    pub id: usize,
    pub status: WorkerStatus,
    pub job: Option<JobView>,
    pub authenticated: bool,
}

impl View for InnerWorker {
    type V = WorkerView;

    closed spec fn view(&self) -> WorkerView {
        WorkerView {
            id: self.id,
            status: self.status,
            job: opt_job_view(self.current_job),
            authenticated: self.is_authenticated,
        }
    }
}

impl InnerWorker {
    /// A freshly connected worker: standing by, unauthenticated, idle.
    pub fn new(id: usize) -> (w: InnerWorker)
        ensures
            w@ == (WorkerView { id, status: WorkerStatus::STANDBY, job: None, authenticated: false }),
    {
        InnerWorker { id, status: WorkerStatus::STANDBY, current_job: None, is_authenticated: false }
    }

    pub fn get_id(&self) -> (id: usize)
        ensures
            id == self@.id,
    {
        self.id
    }

    pub fn get_status(&self) -> (s: WorkerStatus)
        ensures
            s == self@.status,
    {
        self.status
    }

    pub fn is_authenticated(&self) -> (b: bool)
        ensures
            b == self@.authenticated,
    {
        self.is_authenticated
    }

    pub fn get_current_job(&self) -> (j: Option<PackageJob>)
        ensures
            opt_job_view(j) == self@.job,
    {
        clone_opt_job(&self.current_job)
    }

    /// The worker as the API shows it: its current job by package name.
    pub fn to_http_response(&self) -> (r: WorkerResponse)
        ensures
            r.id == self@.id,
            r.status == self@.status,
            r.is_authenticated == self@.authenticated,
            r.current_job.deep_view() == match self@.job {
                Some(j) => Some(j.name),
                None => None,
            },
    {
        let current_job = match &self.current_job {
            Some(j) => Some(j.definition.name.clone()),
            None => None,
        };
        WorkerResponse { id: self.id, status: self.status, current_job, is_authenticated: self.is_authenticated }
    }
}

/// The position of the first worker with the id.
pub open spec fn first_with_id(ws: Seq<WorkerView>, id: usize) -> Option<int> {
    if exists|i: int| 0 <= i < ws.len() && ws[i].id == id {
        Some(choose|i: int| 0 <= i < ws.len() && ws[i].id == id && forall|j: int| 0 <= j < i ==> ws[j].id != id)
    } else {
        None
    }
}

/// Whether a worker can take a job: standing by and authenticated.
pub open spec fn is_free(w: WorkerView) -> bool {
    w.status == WorkerStatus::STANDBY && w.authenticated
}

/// The position of the first free worker.
pub open spec fn first_free(ws: Seq<WorkerView>) -> Option<int> {
    if exists|i: int| 0 <= i < ws.len() && is_free(ws[i]) {
        Some(choose|i: int| 0 <= i < ws.len() && is_free(ws[i]) && forall|j: int| 0 <= j < i ==> !is_free(ws[j]))
    } else {
        None
    }
}

/// The workers at positions from `j` on whose flag is not set, in order.
pub open spec fn kept_from(ws: Seq<WorkerView>, flags: Seq<bool>, j: int) -> Seq<WorkerView>
    decreases ws.len() - j,
{
    if j < 0 || j >= ws.len() {
        Seq::empty()
    } else if flags[j] {
        kept_from(ws, flags, j + 1)
    } else {
        seq![ws[j]] + kept_from(ws, flags, j + 1)
    }
}

/// The workers at positions from `j` on whose flag is set, last one first.
pub open spec fn removed_from(ws: Seq<WorkerView>, flags: Seq<bool>, j: int) -> Seq<WorkerView>
    decreases ws.len() - j,
{
    if j < 0 || j >= ws.len() {
        Seq::empty()
    } else if flags[j] {
        removed_from(ws, flags, j + 1) + seq![ws[j]]
    } else {
        removed_from(ws, flags, j + 1)
    }
}

/// The workers' states as plain values.
pub open spec fn workers_view(ws: Seq<InnerWorker>) -> Seq<WorkerView> {
    ws.map_values(|w: InnerWorker| w@)
}

/// The workers connected to the server, in the order they connected.
pub struct WorkerManager {
    api_key: String,
    next_id: usize,
    workers: Vec<InnerWorker>,
}

/// The worker pool as plain values.
pub struct ManagerView {
    pub api_key: Seq<char>,
    pub next_id: usize,
    pub workers: Seq<WorkerView>,
}

impl View for WorkerManager {
    type V = ManagerView;

    closed spec fn view(&self) -> ManagerView {
        ManagerView { api_key: self.api_key@, next_id: self.next_id, workers: workers_view(self.workers@) }
    }
}

/// The worker pool after a message from the worker with the id: a status
/// update sets its status and job, an authentication with the right key
/// authenticates it, and anything else changes nothing.
pub open spec fn after_message(m: ManagerView, id: usize, msg: WebsocketMessage) -> ManagerView {
    match first_with_id(m.workers, id) {
        None => m,
        Some(i) => match msg {
            WebsocketMessage::WorkerStatusUpdate { status, job } => ManagerView {
                workers: m.workers.update(i, WorkerView { status, job: opt_job_view(job), ..m.workers[i] }),
                ..m
            },
            WebsocketMessage::Authenticate { api_key } => if api_key@ == m.api_key {
                ManagerView { workers: m.workers.update(i, WorkerView { authenticated: true, ..m.workers[i] }), ..m }
            } else {
                m
            },
            _ => m,
        },
    }
}

impl WorkerManager {
    /// An empty pool whose workers authenticate with the key.
    pub fn new(api_key: String) -> (m: WorkerManager)
        ensures
            m@.api_key == api_key@,
            m@.next_id == 0,
            m@.workers.len() == 0,
    {
        let m = WorkerManager { api_key, next_id: 0, workers: Vec::new() };
        assert(m@.workers =~= Seq::<WorkerView>::empty());
        m
    }

    /// The workers as the API shows them, in order.
    pub fn get_workers(&self) -> (r: Vec<WorkerResponse>)
        ensures
            r.len() == self@.workers.len(),
            forall|k: int| 0 <= k < r.len() ==> {
                &&& (#[trigger] r@[k]).id == self@.workers[k].id
                &&& r@[k].status == self@.workers[k].status
                &&& r@[k].is_authenticated == self@.workers[k].authenticated
                &&& r@[k].current_job.deep_view() == match self@.workers[k].job {
                    Some(j) => Some(j.name),
                    None => None,
                }
            },
    {
        let mut r: Vec<WorkerResponse> = Vec::new();
        let mut i: usize = 0;
        while i < self.workers.len()
            invariant
                i <= self.workers.len(),
                r.len() == i,
                forall|k: int| 0 <= k < i ==> {
                    &&& (#[trigger] r@[k]).id == self.workers@[k]@.id
                    &&& r@[k].status == self.workers@[k]@.status
                    &&& r@[k].is_authenticated == self.workers@[k]@.authenticated
                    &&& r@[k].current_job.deep_view() == match self.workers@[k]@.job {
                        Some(j) => Some(j.name),
                        None => None,
                    }
                },
            decreases self.workers.len() - i,
        {
            r.push(self.workers[i].to_http_response());
            i = i + 1;
        }
        r
    }

    /// The ids of the workers, in order.
    pub fn worker_ids(&self) -> (r: Vec<usize>)
        ensures
            r.len() == self@.workers.len(),
            forall|k: int| 0 <= k < r.len() ==> #[trigger] r@[k] == self@.workers[k].id,
    {
        let mut r: Vec<usize> = Vec::new();
        let mut i: usize = 0;
        while i < self.workers.len()
            invariant
                i <= self.workers.len(),
                r.len() == i,
                forall|k: int| 0 <= k < i ==> #[trigger] r@[k] == self.workers@[k]@.id,
            decreases self.workers.len() - i,
        {
            r.push(self.workers[i].id);
            i = i + 1;
        }
        r
    }

    /// Registers a newly connected worker under the next id (ids wrap
    /// around after the largest `usize`); returns its id.
    pub fn add(&mut self) -> (id: usize)
        ensures
            id == old(self)@.next_id,
            final(self)@.next_id == old(self)@.next_id.wrapping_add(1),
            final(self)@.api_key == old(self)@.api_key,
            final(self)@.workers == old(self)@.workers.push(
                WorkerView { id, status: WorkerStatus::STANDBY, job: None, authenticated: false }),
    {
        let id = self.next_id;
        self.next_id = self.next_id.wrapping_add(1);
        let ghost before = self@.workers;
        let w = InnerWorker::new(id);
        self.workers.push(w);
        assert(self@.workers =~= before.push(WorkerView { id, status: WorkerStatus::STANDBY, job: None, authenticated: false }));
        id
    }

    fn position(&self, id: usize) -> (r: Option<usize>)
        ensures
            match r {
                Some(i) => first_with_id(self@.workers, id) == Some(i as int) && i < self@.workers.len(),
                None => first_with_id(self@.workers, id) is None,
            },
    {
        let mut i: usize = 0;
        while i < self.workers.len()
            invariant
                i <= self.workers.len(),
                forall|k: int| 0 <= k < i ==> self@.workers[k].id != id,
            decreases self.workers.len() - i,
        {
            if self.workers[i].id == id {
                proof {
                    let ws = self@.workers;
                    assert(ws[i as int].id == id);
                    let w = choose|w: int| 0 <= w < ws.len() && ws[w].id == id && forall|j: int| 0 <= j < w ==> ws[j].id != id;
                    assert(0 <= w < ws.len() && ws[w].id == id && forall|j: int| 0 <= j < w ==> ws[j].id != id);
                    assert(w == i);
                }
                return Some(i);
            }
            i = i + 1;
        }
        None
    }

    /// Takes out the first worker with the id, if there is one.
    pub fn remove(&mut self, worker_id: usize) -> (r: Option<InnerWorker>)
        ensures
            final(self)@.api_key == old(self)@.api_key,
            final(self)@.next_id == old(self)@.next_id,
            match first_with_id(old(self)@.workers, worker_id) {
                Some(i) => r is Some && r->0@ == old(self)@.workers[i]
                    && final(self)@.workers == old(self)@.workers.remove(i),
                None => r is None && final(self)@.workers == old(self)@.workers,
            },
    {
        match self.position(worker_id) {
            None => None,
            Some(i) => {
                let ghost before = self@.workers;
                let w = self.workers.remove(i);
                assert(self@.workers =~= before.remove(i as int));
                Some(w)
            },
        }
    }

    /// Takes out the workers whose flag is set (one flag per worker, in
    /// order) and hands them back last one first.
    pub fn remove_flagged(&mut self, finished: &Vec<bool>) -> (removed: Vec<InnerWorker>)
        requires
            finished.len() == old(self)@.workers.len(),
        ensures
            final(self)@.api_key == old(self)@.api_key,
            final(self)@.next_id == old(self)@.next_id,
            final(self)@.workers == kept_from(old(self)@.workers, finished@, 0),
            workers_view(removed@) == removed_from(old(self)@.workers, finished@, 0),
    {
        let ghost before = self@.workers;
        let ghost flags = finished@;
        let mut removed: Vec<InnerWorker> = Vec::new();
        let mut j: usize = self.workers.len();
        assert(self@.workers =~= before.subrange(0, j as int) + kept_from(before, flags, j as int));
        while j > 0
            invariant
                flags == finished@,
                flags.len() == before.len(),
                j <= before.len(),
                self@.api_key == old(self)@.api_key,
                self@.next_id == old(self)@.next_id,
                self@.workers == before.subrange(0, j as int) + kept_from(before, flags, j as int),
                workers_view(removed@) == removed_from(before, flags, j as int),
            decreases j,
        {
            let idx = j - 1;
            let ghost ws_before = self@.workers;
            let ghost rm_before = workers_view(removed@);
            assert(before.subrange(0, j as int) =~= before.subrange(0, idx as int).push(before[idx as int]));
            assert(self.workers@.len() == ws_before.len());
            assert(ws_before.len() >= j);
            if finished[idx] {
                assert(ws_before[idx as int] == before[idx as int]);
                let w = self.workers.remove(idx);
                assert(self@.workers =~= ws_before.remove(idx as int));
                assert(ws_before.remove(idx as int) =~= before.subrange(0, idx as int) + kept_from(before, flags, j as int));
                removed.push(w);
                assert(self@.workers =~= before.subrange(0, idx as int) + kept_from(before, flags, idx as int));
                assert(workers_view(removed@) =~= rm_before.push(before[idx as int]));
                assert(removed_from(before, flags, idx as int) =~= rm_before + seq![before[idx as int]]);
            } else {
                assert(kept_from(before, flags, idx as int) == seq![before[idx as int]] + kept_from(before, flags, j as int));
                assert(self@.workers =~= before.subrange(0, idx as int) + kept_from(before, flags, idx as int));
            }
            j = idx;
        }
        assert(before.subrange(0, 0) + kept_from(before, flags, 0) =~= kept_from(before, flags, 0));
        removed
    }
    fn first_free_position(&self) -> (r: Option<usize>)
        ensures
            match r {
                Some(i) => first_free(self@.workers) == Some(i as int) && i < self@.workers.len(),
                None => first_free(self@.workers) is None,
            },
    {
        let mut i: usize = 0;
        while i < self.workers.len()
            invariant
                i <= self.workers.len(),
                forall|k: int| 0 <= k < i ==> !is_free(self@.workers[k]),
            decreases self.workers.len() - i,
        {
            if self.workers[i].status == WorkerStatus::STANDBY && self.workers[i].is_authenticated {
                proof {
                    let ws = self@.workers;
                    assert(is_free(ws[i as int]));
                    let w = choose|w: int| 0 <= w < ws.len() && is_free(ws[w]) && forall|j: int| 0 <= j < w ==> !is_free(ws[j]);
                    assert(0 <= w < ws.len() && is_free(ws[w]) && forall|j: int| 0 <= j < w ==> !is_free(ws[j]));
                    assert(w == i);
                }
                return Some(i);
            }
            i = i + 1;
        }
        None
    }

    /// The id of the first worker standing by and authenticated.
    pub fn get_next_free_worker_id(&self) -> (r: Option<usize>)
        ensures
            match first_free(self@.workers) {
                Some(i) => r == Some(self@.workers[i].id),
                None => r is None,
            },
    {
        match self.first_free_position() {
            Some(i) => Some(self.workers[i].id),
            None => None,
        }
    }

    /// Gives the job to the first worker standing by and authenticated,
    /// which becomes dispatched with that job; returns its id, or nothing
    /// when no worker is free.
    pub fn dispatch(&mut self, package_job: PackageJob) -> (r: Option<usize>)
        ensures
            final(self)@.api_key == old(self)@.api_key,
            final(self)@.next_id == old(self)@.next_id,
            match first_free(old(self)@.workers) {
                Some(i) => r == Some(old(self)@.workers[i].id)
                    && final(self)@.workers == old(self)@.workers.update(i, WorkerView {
                        status: WorkerStatus::DISPATCHED,
                        job: Some(job_view(package_job)),
                        ..old(self)@.workers[i]
                    }),
                None => r is None && final(self)@.workers == old(self)@.workers,
            },
    {
        match self.first_free_position() {
            None => None,
            Some(i) => {
                let ghost before = self@.workers;
                let id = self.workers[i].id;
                let authenticated = self.workers[i].is_authenticated;
                self.workers[i] = InnerWorker {
                    id,
                    status: WorkerStatus::DISPATCHED,
                    current_job: Some(package_job),
                    is_authenticated: authenticated,
                };
                assert(self@.workers =~= before.update(i as int, WorkerView {
                    status: WorkerStatus::DISPATCHED,
                    job: Some(job_view(package_job)),
                    ..before[i as int]
                }));
                Some(id)
            },
        }
    }

    /// Applies a message received from the worker with the id.
    pub fn handle_message(&mut self, worker_id: usize, message: WebsocketMessage)
        ensures
            final(self)@ == after_message(old(self)@, worker_id, message),
    {
        match message {
            WebsocketMessage::WorkerStatusUpdate { status, job } => {
                self.set_worker_status(worker_id, status, job);
            },
            WebsocketMessage::Authenticate { api_key } => {
                let _ = self.try_authenticate_worker(worker_id, api_key.as_str());
            },
            _ => {},
        }
    }

    /// Authenticates the worker with the id when the key is the pool's;
    /// says whether it did.
    pub fn try_authenticate_worker(&mut self, worker_id: usize, submitted_key: &str) -> (r: bool)
        ensures
            r == (first_with_id(old(self)@.workers, worker_id) is Some && submitted_key@ == old(self)@.api_key),
            final(self)@ == if r {
                ManagerView {
                    workers: old(self)@.workers.update(first_with_id(old(self)@.workers, worker_id).unwrap(),
                        WorkerView { authenticated: true, ..old(self)@.workers[first_with_id(old(self)@.workers, worker_id).unwrap()] }),
                    ..old(self)@
                }
            } else {
                old(self)@
            },
    {
        let ghost before = self@;
        match self.position(worker_id) {
            None => false,
            Some(i) => {
                if str_eq(submitted_key, self.api_key.as_str()) {
                    let id = self.workers[i].id;
                    let status = self.workers[i].status;
                    let job = clone_opt_job(&self.workers[i].current_job);
                    self.workers[i] = InnerWorker { id, status, current_job: job, is_authenticated: true };
                    assert(self@.workers =~= before.workers.update(i as int,
                        WorkerView { authenticated: true, ..before.workers[i as int] }));
                    true
                } else {
                    false
                }
            },
        }
    }

    /// Sets the status and the job of the worker with the id, if there is one.
    pub fn set_worker_status(&mut self, worker_id: usize, status: WorkerStatus, current_job: Option<PackageJob>)
        ensures
            final(self)@ == after_message(old(self)@, worker_id,
                WebsocketMessage::WorkerStatusUpdate { status, job: current_job }),
    {
        let ghost before = self@;
        match self.position(worker_id) {
            None => {},
            Some(i) => {
                let id = self.workers[i].id;
                let authenticated = self.workers[i].is_authenticated;
                let ghost jv = opt_job_view(current_job);
                self.workers[i] = InnerWorker { id, status, current_job, is_authenticated: authenticated };
                assert(self@.workers =~= before.workers.update(i as int,
                    WorkerView { status, job: jv, ..before.workers[i as int] }));
            },
        }
    }
}

} // verus!
