use vstd::prelude::*;
use crate::common::models::{PackageDefinition, PackageJob, PackageStatus};
use crate::common::responses::PackageResponse;
use crate::server::clock::{current_timestamp, ClockUnavailable};
use crate::server::text::{clone_opt_string, clone_strings, str_eq};
use crate::server::worker::{JobView, clone_definition, definition_view, job_view};

verus! {

/// What the server knows of a package between builds, as plain values.
pub struct PackageStateView {
    pub status: PackageStatus,
    pub last_built: Option<i64>,
    pub files: Seq<Seq<char>>,
    pub last_built_version: Option<Seq<char>>,
}

/// What the server knows of a package between builds; `last_built` is a
/// Unix timestamp in seconds.
pub struct PackageState {
    pub status: PackageStatus,
    pub last_built: Option<i64>,
    pub files: Vec<String>,
    pub last_built_version: Option<String>,
}

impl View for PackageState {
    type V = PackageStateView;

    open spec fn view(&self) -> PackageStateView {
        PackageStateView {
            status: self.status,
            last_built: self.last_built,
            files: self.files.deep_view(),
            last_built_version: self.last_built_version.deep_view(),
        }
    }
}

/// The state of a package that was never built: pending, with nothing built.
pub open spec fn fresh_state() -> PackageStateView {
    PackageStateView {
        status: PackageStatus::PENDING,
        last_built: None,
        files: Seq::empty(),
        last_built_version: None,
    }
}

impl PackageState {
    pub fn new() -> (s: PackageState)
        ensures
            s@ == fresh_state(),
    {
        let s = PackageState { status: PackageStatus::PENDING, last_built: None, files: Vec::new(), last_built_version: None };
        assert(s@.files =~= Seq::<Seq<char>>::empty());
        s
    }

    /// A copy of the state.
    pub fn duplicate(&self) -> (s: PackageState)
        ensures
            s@ == self@,
    {
        PackageState {
            status: self.status,
            last_built: self.last_built,
            files: clone_strings(&self.files),
            last_built_version: clone_opt_string(&self.last_built_version),
        }
    }
}

/// A configured package with its state, as plain values.
pub struct ServerPackageView {
    pub package: JobView,
    pub state: PackageStateView,
}

/// A configured package together with its state.
pub struct ServerPackage {
    package: PackageDefinition,
    pub state: PackageState,
}

impl View for ServerPackage {
    type V = ServerPackageView;

    closed spec fn view(&self) -> ServerPackageView {
        ServerPackageView { package: definition_view(self.package), state: self.state@ }
    }
}

impl ServerPackage {
    /// A package as configured, not built yet.
    pub fn from_package_definition(package_config: PackageDefinition) -> (p: ServerPackage)
        ensures
            p@ == (ServerPackageView { package: definition_view(package_config), state: fresh_state() }),
    {
        ServerPackage { package: package_config, state: PackageState::new() }
    }

    pub fn get_package_name(&self) -> (name: &String)
        ensures
            name@ == self@.package.name,
    {
        &self.package.name
    }

    pub fn set_status(&mut self, status: PackageStatus)
        ensures
            final(self)@ == (ServerPackageView {
                state: PackageStateView { status, ..old(self)@.state },
                ..old(self)@
            }),
    {
        self.state.status = status;
    }

    pub fn get_state(&self) -> (s: &PackageState)
        ensures
            s@ == self@.state,
    {
        &self.state
    }

    pub fn set_state(&mut self, state: PackageState)
        ensures
            final(self)@ == (ServerPackageView { state: state@, ..old(self)@ }),
    {
        self.state = state;
    }

    /// The package as the API shows it, with no error recorded.
    pub fn get_response(&self) -> (r: PackageResponse)
        ensures
            r.id == self@.package.package_id,
            r.name@ == self@.package.name,
            r.run_before.deep_view() == self@.package.run_before,
            r.status == self@.state.status,
            r.last_built == self@.state.last_built,
            r.files.deep_view() == self@.state.files,
            r.last_built_version.deep_view() == self@.state.last_built_version,
            r.last_error is None,
    {
        PackageResponse {
            id: self.package.package_id,
            name: self.package.name.clone(),
            run_before: clone_opt_string(&self.package.run_before),
            status: self.state.status,
            last_built: self.state.last_built,
            files: clone_strings(&self.state.files),
            last_built_version: clone_opt_string(&self.state.last_built_version),
            last_error: None,
        }
    }

    /// The job that builds this package: its definition and the version
    /// built last.
    pub fn get_package_job(&self) -> (j: PackageJob)
        ensures
            job_view(j) == (JobView { last_built_version: self@.state.last_built_version, ..self@.package }),
    {
        PackageJob {
            definition: clone_definition(&self.package),
            last_built_version: clone_opt_string(&self.state.last_built_version),
        }
    }

    /// A copy of the package and its state.
    pub fn duplicate(&self) -> (p: ServerPackage)
        ensures
            p@ == self@,
    {
        ServerPackage { package: clone_definition(&self.package), state: self.state.duplicate() }
    }
}

/// The packages' states as plain values.
pub open spec fn packages_view(s: Seq<ServerPackage>) -> Seq<ServerPackageView> {
    s.map_values(|p: ServerPackage| p@)
}

/// Whether a package of the list has the name.
pub open spec fn has_name(s: Seq<ServerPackageView>, name: Seq<char>) -> bool {
    exists|i: int| 0 <= i < s.len() && s[i].package.name == name
}

/// No two packages of the list share a name.
pub open spec fn names_unique(s: Seq<ServerPackageView>) -> bool {
    forall|i: int, j: int| 0 <= i < s.len() && 0 <= j < s.len() && i != j
        ==> s[i].package.name != s[j].package.name
}

/// The position of the package with the name.
pub open spec fn index_of_name(s: Seq<ServerPackageView>, name: Seq<char>) -> Option<int> {
    if has_name(s, name) {
        Some(choose|i: int| 0 <= i < s.len() && s[i].package.name == name
            && forall|j: int| 0 <= j < i ==> s[j].package.name != name)
    } else {
        None
    }
}

/// The packages loaded from the configured definitions, in order: a
/// definition whose name was already loaded is skipped.
pub open spec fn loaded(defs: Seq<JobView>) -> Seq<ServerPackageView>
    decreases defs.len(),
{
    if defs.len() == 0 {
        Seq::empty()
    } else {
        let r = loaded(defs.drop_last());
        if has_name(r, defs.last().name) {
            r
        } else {
            r.push(ServerPackageView { package: defs.last(), state: fresh_state() })
        }
    }
}

/// The list after the package with the name, if any, got the state.
pub open spec fn with_state(s: Seq<ServerPackageView>, name: Seq<char>, st: PackageStateView) -> Seq<ServerPackageView> {
    match index_of_name(s, name) {
        Some(i) => s.update(i, ServerPackageView { state: st, ..s[i] }),
        None => s,
    }
}

/// The list after the package with the name, if any, got the status.
pub open spec fn with_status(s: Seq<ServerPackageView>, name: Seq<char>, status: PackageStatus) -> Seq<ServerPackageView> {
    match index_of_name(s, name) {
        Some(i) => with_state(s, name, PackageStateView { status, ..s[i].state }),
        None => s,
    }
}

/// The list after the saved states were restored one after the other;
/// states of names that are not in the list are dropped.
pub open spec fn restored(s: Seq<ServerPackageView>, states: Seq<(Seq<char>, PackageStateView)>) -> Seq<ServerPackageView>
    decreases states.len(),
{
    if states.len() == 0 {
        s
    } else {
        let r = restored(s, states.drop_last());
        with_state(r, states.last().0, states.last().1)
    }
}

/// The states to save: each package's name with its state, in order.
pub open spec fn saved(s: Seq<ServerPackageView>) -> Seq<(Seq<char>, PackageStateView)> {
    s.map_values(|p: ServerPackageView| (p.package.name, p.state))
}

/// The position of the first pending package.
pub open spec fn first_pending(s: Seq<ServerPackageView>) -> Option<int> {
    if exists|i: int| 0 <= i < s.len() && s[i].state.status == PackageStatus::PENDING {
        Some(choose|i: int| 0 <= i < s.len() && s[i].state.status == PackageStatus::PENDING
            && forall|j: int| 0 <= j < i ==> s[j].state.status != PackageStatus::PENDING)
    } else {
        None
    }
}

/// A package put back in the queue unless it is being built.
pub open spec fn pending_unless_building(p: ServerPackageView) -> ServerPackageView {
    if p.state.status == PackageStatus::BUILDING {
        p
    } else {
        ServerPackageView { state: PackageStateView { status: PackageStatus::PENDING, ..p.state }, ..p }
    }
}

/// Whether a built or failed package was last built more than the interval
/// (in seconds) before the time `now`.
pub open spec fn rebuild_due_at(p: ServerPackageView, now: i64, interval: u64) -> bool {
    &&& (p.state.status == PackageStatus::BUILT || p.state.status == PackageStatus::FAILED)
    &&& p.state.last_built is Some
    &&& now - p.state.last_built.unwrap() > interval
}

/// A package after a rebuild pass at the time `now`.
pub open spec fn rebuild_at(p: ServerPackageView, now: i64, interval: u64) -> ServerPackageView {
    if rebuild_due_at(p, now, interval) {
        ServerPackageView { state: PackageStateView { status: PackageStatus::PENDING, ..p.state }, ..p }
    } else {
        p
    }
}

/// The packages after a rebuild pass at the time `now`.
pub open spec fn rebuild_pass(s: Seq<ServerPackageView>, now: i64, interval: u64) -> Seq<ServerPackageView> {
    s.map_values(|p: ServerPackageView| rebuild_at(p, now, interval))
}

/// What a finished build leaves of a package's state: the time, the version
/// and the files; the status stays.
pub open spec fn with_build_data(st: PackageStateView, d: BuildDataView) -> PackageStateView {
    PackageStateView { last_built: d.time, last_built_version: d.version, files: d.package_files, ..st }
}

/// The outcome of a build, as plain values.
pub struct BuildDataView {
    pub time: Option<i64>,
    pub version: Option<Seq<char>>,
    pub package_files: Seq<Seq<char>>,
}

/// The outcome of a build: when it finished, the version and the files.
pub struct PackageBuildData {
    pub time: Option<i64>,
    pub version: Option<String>,
    pub package_files: Vec<String>,
}

impl View for PackageBuildData {
    type V = BuildDataView;

    open spec fn view(&self) -> BuildDataView {
        BuildDataView {
            time: self.time,
            version: self.version.deep_view(),
            package_files: self.package_files.deep_view(),
        }
    }
}

/// The packages of the configuration, each with its state, as plain values.
pub struct StateView {
    pub packages: Seq<ServerPackageView>,
    pub path: Seq<char>,
}

/// The packages of the configuration, each with its state; no two share a
/// name. `path` is the directory where the states are saved.
pub struct State {
    packages: Vec<ServerPackage>,
    path: String,
}

impl View for State {
    type V = StateView;

    closed spec fn view(&self) -> StateView {
        StateView { packages: packages_view(self.packages@), path: self.path@ }
    }
}

/// The saved states as plain values.
pub open spec fn states_view(s: Seq<(String, PackageState)>) -> Seq<(Seq<char>, PackageStateView)> {
    s.map_values(|e: (String, PackageState)| (e.0@, e.1@))
}

/// The configured definitions as plain values.
pub open spec fn definitions_view(s: Seq<PackageDefinition>) -> Seq<JobView> {
    s.map_values(|d: PackageDefinition| definition_view(d))
}

/// The position of the package with the name in the list.
fn position_in(v: &Vec<ServerPackage>, name: &str) -> (r: Option<usize>)
    ensures
        match r {
            Some(i) => index_of_name(packages_view(v@), name@) == Some(i as int) && i < v.len(),
            None => index_of_name(packages_view(v@), name@) is None,
        },
{
    let ghost s = packages_view(v@);
    let mut i: usize = 0;
    while i < v.len()
        invariant
            s == packages_view(v@),
            i <= v.len(),
            forall|k: int| 0 <= k < i ==> s[k].package.name != name@,
        decreases v.len() - i,
    {
        if str_eq(v[i].get_package_name().as_str(), name) {
            proof {
                assert(s[i as int].package.name == name@);
                let w = choose|w: int| 0 <= w < s.len() && s[w].package.name == name@
                    && forall|j: int| 0 <= j < w ==> s[j].package.name != name@;
                assert(0 <= w < s.len() && s[w].package.name == name@
                    && forall|j: int| 0 <= j < w ==> s[j].package.name != name@);
                assert(w == i);
            }
            return Some(i);
        }
        i = i + 1;
    }
    None
}

impl State {
    /// No two packages share a name.
    pub open spec fn wf(&self) -> bool {
        names_unique(self@.packages)
    }

    /// The configured packages, none built yet; a definition whose name
    /// came before is skipped.
    pub fn new(packages: &Vec<PackageDefinition>, path: String) -> (s: State)
        ensures
            s.wf(),
            s@.packages == loaded(definitions_view(packages@)),
            s@.path == path@,
    {
        let ghost defs = definitions_view(packages@);
        let mut v: Vec<ServerPackage> = Vec::new();
        let mut i: usize = 0;
        while i < packages.len()
            invariant
                defs == definitions_view(packages@),
                i <= packages.len(),
                packages_view(v@) == loaded(defs.take(i as int)),
                names_unique(packages_view(v@)),
            decreases packages.len() - i,
        {
            let ghost before = packages_view(v@);
            proof {
                assert(defs.take(i + 1).drop_last() =~= defs.take(i as int));
                assert(defs.take(i + 1).last() == defs[i as int]);
            }
            match position_in(&v, packages[i].name.as_str()) {
                Some(_) => {},
                None => {
                    v.push(ServerPackage::from_package_definition(clone_definition(&packages[i])));
                    assert(packages_view(v@) =~= before.push(ServerPackageView { package: defs[i as int], state: fresh_state() }));
                },
            }
            i = i + 1;
        }
        assert(defs.take(packages.len() as int) =~= defs);
        State { packages: v, path }
    }

    /// The directory where the states are saved.
    pub fn get_path(&self) -> (p: &String)
        ensures
            p@ == self@.path,
    {
        &self.path
    }

    /// Gives the package at the position the state.
    fn replace_state(&mut self, i: usize, state: PackageState)
        requires
            old(self).wf(),
            i < old(self)@.packages.len(),
        ensures
            final(self).wf(),
            final(self)@.path == old(self)@.path,
            final(self)@.packages == old(self)@.packages.update(i as int, ServerPackageView {
                state: state@,
                ..old(self)@.packages[i as int]
            }),
    {
        let ghost before = self@.packages;
        let mut p = self.packages[i].duplicate();
        p.set_state(state);
        self.packages.set(i, p);
        assert(self@.packages =~= before.update(i as int, ServerPackageView { state: state@, ..before[i as int] }));
    }

    /// Gives each saved state, one after the other, to the package with its
    /// name; a state whose name is not configured is dropped.
    pub fn restore(&mut self, states: Vec<(String, PackageState)>)
        requires
            old(self).wf(),
        ensures
            final(self).wf(),
            final(self)@.path == old(self)@.path,
            final(self)@.packages == restored(old(self)@.packages, states_view(states@)),
    {
        let ghost start = self@.packages;
        let ghost sv = states_view(states@);
        let mut i: usize = 0;
        while i < states.len()
            invariant
                self.wf(),
                self@.path == old(self)@.path,
                start == old(self)@.packages,
                sv == states_view(states@),
                i <= states.len(),
                self@.packages == restored(start, sv.take(i as int)),
            decreases states.len() - i,
        {
            proof {
                assert(sv.take(i + 1).drop_last() =~= sv.take(i as int));
                assert(sv.take(i + 1).last() == sv[i as int]);
            }
            match position_in(&self.packages, states[i].0.as_str()) {
                Some(k) => {
                    let st = states[i].1.duplicate();
                    self.replace_state(k, st);
                },
                None => {},
            }
            i = i + 1;
        }
        assert(sv.take(states.len() as int) =~= sv);
    }

    /// Each package's name with a copy of its state, in order: what is
    /// saved between runs.
    pub fn package_states(&self) -> (r: Vec<(String, PackageState)>)
        ensures
            states_view(r@) == saved(self@.packages),
    {
        let ghost s = self@.packages;
        let mut r: Vec<(String, PackageState)> = Vec::new();
        let mut i: usize = 0;
        while i < self.packages.len()
            invariant
                s == self@.packages,
                i <= self.packages.len(),
                states_view(r@) == saved(s).take(i as int),
            decreases self.packages.len() - i,
        {
            let name = self.packages[i].get_package_name().clone();
            let st = self.packages[i].get_state().duplicate();
            assert(name@ == s[i as int].package.name);
            assert(st@ == s[i as int].state);
            let ghost before = r@;
            let ghost entry = (name@, st@);
            r.push((name, st));
            assert(states_view(r@) =~= states_view(before).push(entry));
            assert(saved(s).take(i + 1) =~= saved(s).take(i as int).push(entry));
            i = i + 1;
        }
        assert(saved(s).take(self.packages.len() as int) =~= saved(s));
        r
    }

    /// The first pending package.
    pub fn get_next_pending_package(&self) -> (r: Option<&ServerPackage>)
        ensures
            match first_pending(self@.packages) {
                Some(i) => r is Some && r->0@ == self@.packages[i],
                None => r is None,
            },
    {
        let ghost s = self@.packages;
        let mut i: usize = 0;
        while i < self.packages.len()
            invariant
                s == self@.packages,
                i <= self.packages.len(),
                forall|k: int| 0 <= k < i ==> s[k].state.status != PackageStatus::PENDING,
            decreases self.packages.len() - i,
        {
            if self.packages[i].state.status == PackageStatus::PENDING {
                proof {
                    assert(s[i as int].state.status == PackageStatus::PENDING);
                    let w = choose|w: int| 0 <= w < s.len() && s[w].state.status == PackageStatus::PENDING
                        && forall|j: int| 0 <= j < w ==> s[j].state.status != PackageStatus::PENDING;
                    assert(0 <= w < s.len() && s[w].state.status == PackageStatus::PENDING
                        && forall|j: int| 0 <= j < w ==> s[j].state.status != PackageStatus::PENDING);
                    assert(w == i);
                }
                return Some(&self.packages[i]);
            }
            i = i + 1;
        }
        None
    }

    /// The packages with their states, in order.
    pub fn get_packages(&self) -> (r: &Vec<ServerPackage>)
        ensures
            packages_view(r@) == self@.packages,
    {
        &self.packages
    }

    /// Puts every package that is not being built back in the queue.
    pub fn set_all_packages_pending(&mut self)
        requires
            old(self).wf(),
        ensures
            final(self).wf(),
            final(self)@.path == old(self)@.path,
            final(self)@.packages == old(self)@.packages.map_values(|p: ServerPackageView| pending_unless_building(p)),
    {
        let ghost start = self@.packages;
        let mut i: usize = 0;
        while i < self.packages.len()
            invariant
                start == old(self)@.packages,
                names_unique(start),
                self@.path == old(self)@.path,
                i <= self.packages.len(),
                self@.packages.len() == start.len(),
                forall|k: int| 0 <= k < i ==> #[trigger] self@.packages[k] == pending_unless_building(start[k]),
                forall|k: int| i <= k < self@.packages.len() ==> #[trigger] self@.packages[k] == start[k],
            decreases self.packages.len() - i,
        {
            assert(self@.packages[i as int] == start[i as int]);
            if self.packages[i].state.status != PackageStatus::BUILDING {
                let ghost before = self@.packages;
                let mut p = self.packages[i].duplicate();
                p.set_status(PackageStatus::PENDING);
                self.packages.set(i, p);
                assert(self@.packages =~= before.update(i as int, pending_unless_building(start[i as int])));
            }
            i = i + 1;
        }
        assert(self@.packages =~= start.map_values(|p: ServerPackageView| pending_unless_building(p)));
    }

    /// Gives the package with the name the status.
    pub fn set_package_status(&mut self, package_name: &String, status: PackageStatus)
        requires
            old(self).wf(),
        ensures
            final(self).wf(),
            final(self)@.path == old(self)@.path,
            final(self)@.packages == with_status(old(self)@.packages, package_name@, status),
    {
        match position_in(&self.packages, package_name.as_str()) {
            Some(i) => {
                let mut st = self.packages[i].get_state().duplicate();
                st.status = status;
                self.replace_state(i, st);
            },
            None => {},
        }
    }

    /// Records the outcome of a build of the package with the name: when it
    /// finished, the version and the files; its status stays.
    pub fn set_package_build_data(&mut self, package_name: &String, build_data: PackageBuildData)
        requires
            old(self).wf(),
        ensures
            final(self).wf(),
            final(self)@.path == old(self)@.path,
            final(self)@.packages == match index_of_name(old(self)@.packages, package_name@) {
                Some(i) => with_state(old(self)@.packages, package_name@,
                    with_build_data(old(self)@.packages[i].state, build_data@)),
                None => old(self)@.packages,
            },
    {
        match position_in(&self.packages, package_name.as_str()) {
            Some(i) => {
                let status = self.packages[i].state.status;
                let st = PackageState {
                    status,
                    last_built: build_data.time,
                    files: build_data.package_files,
                    last_built_version: build_data.version,
                };
                self.replace_state(i, st);
            },
            None => {},
        }
    }

    /// Puts back in the queue every built or failed package last built more
    /// than `rebuild_interval` seconds before the time `now`.
    pub fn mark_package_for_rebuild_at(&mut self, now: i64, rebuild_interval: u64)
        requires
            old(self).wf(),
        ensures
            final(self).wf(),
            final(self)@.path == old(self)@.path,
            final(self)@.packages == rebuild_pass(old(self)@.packages, now, rebuild_interval),
    {
        let ghost start = self@.packages;
        let mut i: usize = 0;
        while i < self.packages.len()
            invariant
                start == old(self)@.packages,
                names_unique(start),
                self@.path == old(self)@.path,
                i <= self.packages.len(),
                self@.packages.len() == start.len(),
                forall|k: int| 0 <= k < i ==> #[trigger] self@.packages[k] == rebuild_at(start[k], now, rebuild_interval),
                forall|k: int| i <= k < self@.packages.len() ==> #[trigger] self@.packages[k] == start[k],
            decreases self.packages.len() - i,
        {
            assert(self@.packages[i as int] == start[i as int]);
            let status = self.packages[i].state.status;
            if status == PackageStatus::FAILED || status == PackageStatus::BUILT {
                match self.packages[i].state.last_built {
                    Some(last_built) => {
                        let elapsed: i128 = now as i128 - last_built as i128;
                        if elapsed > rebuild_interval as i128 {
                            let ghost before = self@.packages;
                            let mut p = self.packages[i].duplicate();
                            p.set_status(PackageStatus::PENDING);
                            self.packages.set(i, p);
                            assert(self@.packages =~= before.update(i as int, rebuild_at(start[i as int], now, rebuild_interval)));
                        }
                    },
                    None => {},
                }
            }
            i = i + 1;
        }
        assert(self@.packages =~= rebuild_pass(start, now, rebuild_interval));
    }

    /// Puts back in the queue every built or failed package last built more
    /// than `rebuild_interval` seconds before now; when the clock cannot be
    /// read nothing changes.
    pub fn mark_package_for_rebuild(&mut self, rebuild_interval: u64) -> (r: Result<(), ClockUnavailable>)
        requires
            old(self).wf(),
            rebuild_interval <= i64::MAX / 1000,
        ensures
            final(self).wf(),
            final(self)@.path == old(self)@.path,
            r is Ok ==> exists|now: i64| now >= 0 && final(self)@.packages
                == #[trigger] rebuild_pass(old(self)@.packages, now, rebuild_interval),
            r is Err ==> final(self)@ == old(self)@,
    {
        match current_timestamp() {
            Some(now) => {
                self.mark_package_for_rebuild_at(now, rebuild_interval);
                Ok(())
            },
            None => Err(ClockUnavailable),
        }
    }
}

/// In a list where names are unique, the position of a package's own name
/// is its position.
proof fn lemma_index_of_own_name(s: Seq<ServerPackageView>, k: int)
    requires
        names_unique(s),
        0 <= k < s.len(),
    ensures
        index_of_name(s, s[k].package.name) == Some(k),
{
    let name = s[k].package.name;
    assert(has_name(s, name));
    let w = choose|w: int| 0 <= w < s.len() && s[w].package.name == name
        && forall|j: int| 0 <= j < w ==> s[j].package.name != name;
    assert(0 <= w < s.len() && s[w].package.name == name);
    assert(w == k);
}

proof fn lemma_restore_saved_prefix(s: Seq<ServerPackageView>, k: int)
    requires
        names_unique(s),
        0 <= k <= s.len(),
    ensures
        restored(s, saved(s).take(k)) == s,
    decreases k,
{
    let t = saved(s).take(k);
    if k > 0 {
        lemma_restore_saved_prefix(s, k - 1);
        assert(t.drop_last() =~= saved(s).take(k - 1));
        assert(t.last() == (s[k - 1].package.name, s[k - 1].state));
        lemma_with_own_state(s, k - 1);
    } else {
        assert(t.len() == 0);
    }
}

proof fn lemma_with_own_state(s: Seq<ServerPackageView>, k: int)
    requires
        names_unique(s),
        0 <= k < s.len(),
    ensures
        with_state(s, s[k].package.name, s[k].state) == s,
{
    lemma_index_of_own_name(s, k);
    assert(s.update(k, ServerPackageView { state: s[k].state, ..s[k] }) =~= s);
}

/// Restoring the states that were saved gives back the packages as they
/// were: saving and then restoring changes nothing.
pub proof fn law_save_then_restore(s: Seq<ServerPackageView>)
    requires
        names_unique(s),
    ensures
        restored(s, saved(s)) == s,
{
    lemma_restore_saved_prefix(s, s.len() as int);
    assert(saved(s).take(s.len() as int) =~= saved(s));
}

/// Giving a package a status changes that package's status alone: its
/// definition and the rest of its state stay, and so do the other packages.
pub proof fn law_set_status_then_lookup(s: Seq<ServerPackageView>, name: Seq<char>, status: PackageStatus)
    requires
        names_unique(s),
    ensures
        names_unique(with_status(s, name, status)),
        with_status(s, name, status).len() == s.len(),
        forall|k: int| 0 <= k < s.len() && s[k].package.name == name ==>
            #[trigger] with_status(s, name, status)[k] == (ServerPackageView {
                state: PackageStateView { status, ..s[k].state },
                ..s[k]
            }),
        forall|k: int| 0 <= k < s.len() && s[k].package.name != name ==>
            #[trigger] with_status(s, name, status)[k] == s[k],
{
    if has_name(s, name) {
        let k = choose|k: int| 0 <= k < s.len() && s[k].package.name == name;
        lemma_index_of_own_name(s, k);
    }
}

/// Loading the configured definitions keeps the first definition of each
/// name and only that one: every configured name is loaded, once, from its
/// first definition, not built yet.
pub proof fn law_first_definition_wins(defs: Seq<JobView>)
    ensures
        names_unique(loaded(defs)),
        forall|j: int| 0 <= j < defs.len() ==> #[trigger] has_name(loaded(defs), defs[j].name),
        forall|k: int| 0 <= k < loaded(defs).len() ==> (#[trigger] loaded(defs)[k]).state == fresh_state()
            && exists|j: int| 0 <= j < defs.len() && loaded(defs)[k].package == defs[j]
                && forall|i: int| 0 <= i < j ==> defs[i].name != defs[j].name,
    decreases defs.len(),
{
    if defs.len() > 0 {
        let init = defs.drop_last();
        law_first_definition_wins(init);
        let r = loaded(init);
        let last = defs.last();
        assert forall|j: int| 0 <= j < defs.len() implies #[trigger] has_name(loaded(defs), defs[j].name) by {
            if j < defs.len() - 1 {
                assert(init[j] == defs[j]);
                assert(has_name(r, init[j].name));
                let w = choose|w: int| 0 <= w < r.len() && r[w].package.name == init[j].name;
                assert(loaded(defs)[w] == r[w]);
            } else if has_name(r, last.name) {
            } else {
                assert(loaded(defs)[r.len() as int].package.name == last.name);
            }
        }
        assert forall|k: int| 0 <= k < loaded(defs).len() implies (#[trigger] loaded(defs)[k]).state == fresh_state()
            && exists|j: int| 0 <= j < defs.len() && loaded(defs)[k].package == defs[j]
                && forall|i: int| 0 <= i < j ==> defs[i].name != defs[j].name by {
            if k < r.len() {
                assert(loaded(defs)[k] == r[k]);
                let j = choose|j: int| 0 <= j < init.len() && r[k].package == init[j]
                    && forall|i: int| 0 <= i < j ==> init[i].name != init[j].name;
                assert(defs[j] == init[j]);
                assert forall|i: int| 0 <= i < j implies defs[i].name != defs[j].name by {
                    assert(defs[i] == init[i]);
                }
            } else {
                let j = defs.len() - 1;
                assert(!has_name(r, last.name));
                assert(loaded(defs)[k].package == defs[j]);
                assert forall|i: int| 0 <= i < j implies defs[i].name != defs[j].name by {
                    assert(defs[i] == init[i]);
                    if defs[i].name == defs[j].name {
                        assert(has_name(r, init[i].name));
                    }
                }
            }
        }
    }
}

} // verus!
