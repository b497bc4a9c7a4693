use vstd::prelude::*;
use crate::common::models::{PackageDefinition, PackageJob, PackageStatus, status_code, status_from_code};
use crate::common::models::PackagePatch as PatchDefinition;
use crate::common::responses::{PackagePatchResponse, PackageResponse};
use crate::server::text::{chars_of, clone_opt_string, clone_strings, str_eq};
use crate::server::like::{like, like_match, search_pattern, search_pattern_of};
use crate::server::clock::current_timestamp;
use crate::server::worker::{job_view, patches_list_view, JobView};

verus! {

/// The built files of a package, kept as one column of the package row.
pub struct StringArray(pub Vec<String>);

/// One row of the packages table.
pub struct Package {
    id: i32,
    name: String,
    pub run_before: Option<String>,
    status: i16,
    last_built: Option<i64>,
    files: StringArray,
    pub last_built_version: Option<String>,
    pub last_error: Option<String>,
}

/// A package row as plain values; `last_built` is a Unix timestamp in seconds.
pub struct PackageView {
    pub id: i32,
    pub name: Seq<char>,
    pub run_before: Option<Seq<char>>,
    pub status: i16,
    pub last_built: Option<i64>,
    pub files: Seq<Seq<char>>,
    pub last_built_version: Option<Seq<char>>,
    pub last_error: Option<Seq<char>>,
}

impl View for Package {
    type V = PackageView;

    closed spec fn view(&self) -> PackageView {
        PackageView {
            id: self.id,
            name: self.name@,
            run_before: self.run_before.deep_view(),
            status: self.status,
            last_built: self.last_built,
            files: self.files.0.deep_view(),
            last_built_version: self.last_built_version.deep_view(),
            last_error: self.last_error.deep_view(),
        }
    }
}

/// The status a stored code reads as: the code is taken as a byte first.
pub open spec fn row_status(p: PackageView) -> PackageStatus {
    status_from_code(p.status as u8)
}

impl Package {
    /// A row from its stored columns (as a database holds them).
    pub fn from_parts(
        id: i32,
        name: String,
        run_before: Option<String>,
        status: i16,
        last_built: Option<i64>,
        files: Vec<String>,
        last_built_version: Option<String>,
        last_error: Option<String>,
    ) -> (p: Package)
        ensures
            p@ == (PackageView {
                id,
                name: name@,
                run_before: run_before.deep_view(),
                status,
                last_built,
                files: files.deep_view(),
                last_built_version: last_built_version.deep_view(),
                last_error: last_error.deep_view(),
            }),
    {
        Package { id, name, run_before, status, last_built, files: StringArray(files), last_built_version, last_error }
    }

    /// The stored status code.
    pub fn get_status_code(&self) -> (c: i16)
        ensures
            c == self@.status,
    {
        self.status
    }

    pub fn get_id(&self) -> (id: i32)
        ensures
            id == self@.id,
    {
        self.id
    }

    pub fn get_name(&self) -> (name: &String)
        ensures
            name@ == self@.name,
    {
        &self.name
    }

    pub fn get_status(&self) -> (s: PackageStatus)
        ensures
            s == row_status(self@),
    {
        PackageStatus::from_u8(self.status as u8)
    }

    pub fn set_status(&mut self, status: PackageStatus)
        ensures
            final(self)@ == (PackageView { status: status_code(status) as i16, ..old(self)@ }),
    {
        self.status = status.code() as i16;
    }

    /// The time of the last build, as a Unix timestamp in seconds.
    pub fn get_last_built(&self) -> (t: Option<i64>)
        ensures
            t == self@.last_built,
    {
        self.last_built
    }

    pub fn set_last_built(&mut self, last_built: Option<i64>)
        ensures
            final(self)@ == (PackageView { last_built: last_built, ..old(self)@ }),
    {
        self.last_built = last_built;
    }

    pub fn get_files(&self) -> (files: &Vec<String>)
        ensures
            files.deep_view() == self@.files,
    {
        &self.files.0
    }

    /// The list of built files, to change in place.
    pub fn get_files_mut(&mut self) -> (files: &mut Vec<String>)
        ensures
            files.deep_view() == old(self)@.files,
            final(self)@ == (PackageView { files: final(files).deep_view(), ..old(self)@ }),
    {
        &mut self.files.0
    }

    /// Replaces the list of built files.
    pub fn set_files(&mut self, files: Vec<String>)
        ensures
            final(self)@ == (PackageView { files: files.deep_view(), ..old(self)@ }),
    {
        self.files = StringArray(files);
    }

    pub fn set_run_before(&mut self, run_before: Option<String>)
        ensures
            final(self)@ == (PackageView { run_before: run_before.deep_view(), ..old(self)@ }),
    {
        self.run_before = run_before;
    }

    pub fn set_last_built_version(&mut self, version: Option<String>)
        ensures
            final(self)@ == (PackageView { last_built_version: version.deep_view(), ..old(self)@ }),
    {
        self.last_built_version = version;
    }

    pub fn set_last_error(&mut self, error: Option<String>)
        ensures
            final(self)@ == (PackageView { last_error: error.deep_view(), ..old(self)@ }),
    {
        self.last_error = error;
    }

    pub fn get_last_built_version(&self) -> (v: &Option<String>)
        ensures
            v.deep_view() == self@.last_built_version,
    {
        &self.last_built_version
    }

    pub fn get_last_error(&self) -> (v: &Option<String>)
        ensures
            v.deep_view() == self@.last_error,
    {
        &self.last_error
    }

    pub fn get_run_before(&self) -> (v: &Option<String>)
        ensures
            v.deep_view() == self@.run_before,
    {
        &self.run_before
    }

    /// The build job of the package with the given patches.
    pub fn get_package_job(&self, patches: Vec<PackagePatch>) -> (job: PackageJob)
        ensures
            job_view(job) == expected_job(self@, patches_view(patches@)),
    {
        let mut defs: Vec<PatchDefinition> = Vec::new();
        let mut i: usize = 0;
        while i < patches.len()
            invariant
                i <= patches.len(),
                defs.len() == i,
                forall|k: int| 0 <= k < i ==> {
                    &&& (#[trigger] defs@[k]).url@ == patches@[k]@.url
                    &&& defs@[k].sha512.deep_view() == patches@[k]@.sha_512
                },
            decreases patches.len() - i,
        {
            defs.push(patches[i].to_definition());
            i = i + 1;
        }
        let job = PackageJob {
            definition: PackageDefinition {
                package_id: self.id,
                name: self.name.clone(),
                run_before: clone_opt_string(&self.run_before),
                patches: Some(defs),
            },
            last_built_version: clone_opt_string(&self.last_built_version),
        };
        assert(patches_list_view(defs@) =~= patches_view(patches@).map_values(|q: PatchView| (q.url, q.sha_512)));
        job
    }

    /// The package as the API shows it.
    pub fn into_package_response(self) -> (r: PackageResponse)
        ensures
            r.id == self@.id,
            r.name@ == self@.name,
            r.run_before.deep_view() == self@.run_before,
            r.status == row_status(self@),
            r.last_built == self@.last_built,
            r.files.deep_view() == self@.files,
            r.last_built_version.deep_view() == self@.last_built_version,
            r.last_error.deep_view() == self@.last_error,
    {
        let status = self.get_status();
        PackageResponse {
            id: self.id,
            name: self.name,
            run_before: self.run_before,
            status,
            last_built: self.last_built,
            files: self.files.0,
            last_built_version: self.last_built_version,
            last_error: self.last_error,
        }
    }

    /// A copy of the row.
    pub fn duplicate(&self) -> (p: Package)
        ensures
            p@ == self@,
    {
        let files = clone_strings(&self.files.0);
        Package {
            id: self.id,
            name: self.name.clone(),
            run_before: clone_opt_string(&self.run_before),
            status: self.status,
            last_built: self.last_built,
            files: StringArray(files),
            last_built_version: clone_opt_string(&self.last_built_version),
            last_error: clone_opt_string(&self.last_error),
        }
    }
}

/// The value to store for an optional column: the new one when set, else
/// a copy of the stored one.
fn kept_or_new(stored: &Option<String>, new: &Option<String>) -> (r: Option<String>)
    ensures
        r.deep_view() == kept_unless_set(stored.deep_view(), new.deep_view()),
{
    match new {
        Some(v) => Some(v.clone()),
        None => clone_opt_string(stored),
    }
}

impl Package {
    /// The stored row after `p` is written over it; see `changeset_row`.
    fn changeset_applied(stored: &Package, p: &Package) -> (r: Package)
        ensures
            r@ == changeset_row(stored@, p@),
    {
        Package {
            id: stored.id,
            name: p.name.clone(),
            run_before: kept_or_new(&stored.run_before, &p.run_before),
            status: p.status,
            last_built: match p.last_built {
                Some(t) => Some(t),
                None => stored.last_built,
            },
            files: StringArray(clone_strings(&p.files.0)),
            last_built_version: kept_or_new(&stored.last_built_version, &p.last_built_version),
            last_error: kept_or_new(&stored.last_error, &p.last_error),
        }
    }
}

/// Insert request for a package.
pub struct PackageInsert {
    pub name: String,
    pub run_before: Option<String>,
}

/// One row of the patches table.
pub struct PackagePatch {
    id: i32,
    pub package_id: i32,
    pub url: String,
    pub sha_512: Option<String>,
}

/// A patch row as plain values.
pub struct PatchView {
    pub id: i32,
    pub package_id: i32,
    pub url: Seq<char>,
    pub sha_512: Option<Seq<char>>,
}

impl View for PackagePatch {
    type V = PatchView;

    closed spec fn view(&self) -> PatchView {
        PatchView {
            id: self.id,
            package_id: self.package_id,
            url: self.url@,
            sha_512: self.sha_512.deep_view(),
        }
    }
}

impl PackagePatch {
    /// A row from its stored columns.
    pub fn from_parts(id: i32, package_id: i32, url: String, sha_512: Option<String>) -> (p: PackagePatch)
        ensures
            p@ == (PatchView { id, package_id, url: url@, sha_512: sha_512.deep_view() }),
    {
        PackagePatch { id, package_id, url, sha_512 }
    }

    pub fn get_id(&self) -> (id: i32)
        ensures
            id == self@.id,
    {
        self.id
    }

    pub fn get_package_id(&self) -> (id: i32)
        ensures
            id == self@.package_id,
    {
        self.package_id
    }

    pub fn get_url(&self) -> (url: &String)
        ensures
            url@ == self@.url,
    {
        &self.url
    }

    pub fn get_sha_512(&self) -> (sha: &Option<String>)
        ensures
            sha.deep_view() == self@.sha_512,
    {
        &self.sha_512
    }

    pub fn set_url(&mut self, url: String)
        ensures
            final(self)@ == (PatchView { url: url@, ..old(self)@ }),
    {
        self.url = url;
    }

    pub fn set_sha_512(&mut self, sha: Option<String>)
        ensures
            final(self)@ == (PatchView { sha_512: sha.deep_view(), ..old(self)@ }),
    {
        self.sha_512 = sha;
    }

    /// The patch as a build job carries it.
    pub fn to_definition(&self) -> (d: PatchDefinition)
        ensures
            d.url@ == self@.url,
            d.sha512.deep_view() == self@.sha_512,
    {
        PatchDefinition { url: self.url.clone(), sha512: clone_opt_string(&self.sha_512) }
    }

    /// The patch as the API shows it.
    pub fn into_response(self) -> (r: PackagePatchResponse)
        ensures
            r.id == self@.id,
            r.package_id == self@.package_id,
            r.url@ == self@.url,
            r.sha_512.deep_view() == self@.sha_512,
    {
        PackagePatchResponse { id: self.id, package_id: self.package_id, url: self.url, sha_512: self.sha_512 }
    }

    /// A copy of the row.
    pub fn duplicate(&self) -> (p: PackagePatch)
        ensures
            p@ == self@,
    {
        PackagePatch {
            id: self.id,
            package_id: self.package_id,
            url: self.url.clone(),
            sha_512: clone_opt_string(&self.sha_512),
        }
    }
}

/// Insert request for a patch.
pub struct PackagePatchInsert {
    pub package_id: i32,
    pub url: String,
    pub sha_512: Option<String>,
}

/// The ids of an optional list.
pub open spec fn ids_of(o: Option<Vec<i32>>) -> Option<Seq<i32>> {
    match o {
        Some(v) => Some(v@),
        None => None,
    }
}

/// Whether the list holds the id.
pub fn contains_id(ids: &Vec<i32>, id: i32) -> (r: bool)
    ensures
        r == ids@.contains(id),
{
    let mut i: usize = 0;
    while i < ids.len()
        invariant
            i <= ids.len(),
            forall|k: int| 0 <= k < i ==> ids@[k] != id,
        decreases ids.len() - i,
    {
        if ids[i] == id {
            assert(ids@[i as int] == id);
            return true;
        }
        i = i + 1;
    }
    false
}

/// The build job a package row and its patch rows make.
pub open spec fn expected_job(p: PackageView, patches: Seq<PatchView>) -> JobView {
    JobView {
        package_id: p.id,
        name: p.name,
        run_before: p.run_before,
        patches: Some(patches.map_values(|q: PatchView| (q.url, q.sha_512))),
        last_built_version: p.last_built_version,
    }
}

/// Why a store operation did not take place.
#[derive(PartialEq, Eq, Structural, Clone, Copy, Debug)]
pub enum StoreError {
    /// No row has the given id.
    NotFound,
    /// Every id that a row can have has been given out.
    IdsExhausted,
    /// A time computed from the clock falls outside what a timestamp holds.
    TimeOutOfRange,
    /// The system clock could not be read.
    ClockUnavailable,
}

/// The largest id a row can have.
pub open spec fn max_id() -> int {
    i32::MAX as int
}

/// The rows of a list of packages.
pub open spec fn packages_view(s: Seq<Package>) -> Seq<PackageView> {
    s.map_values(|p: Package| p@)
}

/// The rows of a list of patches.
pub open spec fn patches_view(s: Seq<PackagePatch>) -> Seq<PatchView> {
    s.map_values(|p: PackagePatch| p@)
}

/// The whole content of the store.
pub struct StoreView {
    pub packages: Seq<PackageView>,
    pub patches: Seq<PatchView>,
    pub next_package_id: int,
    pub next_patch_id: int,
}

/// A new package row: pending, never built, no files.
pub open spec fn new_package_row(id: i32, name: Seq<char>, run_before: Option<Seq<char>>) -> PackageView {
    PackageView {
        id: id,
        name: name,
        run_before: run_before,
        status: 1,
        last_built: None,
        files: Seq::empty(),
        last_built_version: None,
        last_error: None,
    }
}

/// Whether a rebuild request names a package (no list names them all).
pub open spec fn selected(ids: Option<Seq<i32>>, id: i32) -> bool {
    match ids {
        Some(ids) => ids.contains(id),
        None => true,
    }
}

/// A row after a rebuild request that selects it.
pub open spec fn pending_row(q: PackageView, force: bool) -> PackageView {
    if force {
        PackageView { status: 1, last_built_version: None, ..q }
    } else if q.status != 2 {
        PackageView { status: 1, ..q }
    } else {
        q
    }
}

/// A row after a rebuild request.
pub open spec fn pending_update(q: PackageView, ids: Option<Seq<i32>>, force: bool) -> PackageView {
    if selected(ids, q.id) {
        pending_row(q, force)
    } else {
        q
    }
}

/// Whether `now - interval` is a timestamp that an `i64` holds.
pub open spec fn cutoff_fits(now: i64, interval: i64) -> bool {
    i64::MIN <= now - interval <= i64::MAX
}

/// Whether a built or failed row was last built before the cutoff.
pub open spec fn rebuild_due(q: PackageView, cutoff: i64) -> bool {
    &&& q.last_built is Some
    &&& q.last_built.unwrap() < cutoff
    &&& (q.status == 3 || q.status == 4)
}

/// A row after a periodic rebuild pass.
pub open spec fn rebuild_update(q: PackageView, cutoff: i64) -> PackageView {
    if rebuild_due(q, cutoff) {
        PackageView { status: 1, ..q }
    } else {
        q
    }
}

/// How many rows a periodic rebuild pass sets pending.
pub open spec fn count_rebuild_due(s: Seq<PackageView>, cutoff: i64) -> nat
    decreases s.len(),
{
    if s.len() == 0 {
        0
    } else {
        count_rebuild_due(s.drop_last(), cutoff) + (if rebuild_due(s.last(), cutoff) { 1nat } else { 0nat })
    }
}

/// The rows whose name matches the `LIKE` pattern, in id order.
pub open spec fn packages_matching(s: Seq<PackageView>, pattern: Seq<char>) -> Seq<PackageView>
    decreases s.len(),
{
    if s.len() == 0 {
        Seq::empty()
    } else {
        let r = packages_matching(s.drop_last(), pattern);
        if like(pattern, s.last().name) {
            r.push(s.last())
        } else {
            r
        }
    }
}

/// A row after its status is set.
pub open spec fn status_update(q: PackageView, id: i32, code: i16) -> PackageView {
    if q.id == id {
        PackageView { status: code, ..q }
    } else {
        q
    }
}

/// A row after a package with the same id is written over it.
pub open spec fn row_update(q: PackageView, p: PackageView) -> PackageView {
    if q.id == p.id {
        changeset_row(q, p)
    } else {
        q
    }
}

/// An optional column after an update: a new value replaces the stored one,
/// and no value leaves the stored one as it was.
pub open spec fn kept_unless_set<T>(stored: Option<T>, new: Option<T>) -> Option<T> {
    if new is Some {
        new
    } else {
        stored
    }
}

/// A stored row after a row is written over it: the name, status and files
/// are replaced, while an optional column that the written row leaves empty
/// keeps its stored value (an update does not clear it).
pub open spec fn changeset_row(q: PackageView, p: PackageView) -> PackageView {
    PackageView {
        id: q.id,
        name: p.name,
        run_before: kept_unless_set(q.run_before, p.run_before),
        status: p.status,
        last_built: kept_unless_set(q.last_built, p.last_built),
        files: p.files,
        last_built_version: kept_unless_set(q.last_built_version, p.last_built_version),
        last_error: kept_unless_set(q.last_error, p.last_error),
    }
}

/// A patch row after a patch with the same id is written over it.
pub open spec fn patch_row_update(q: PatchView, p: PatchView) -> PatchView {
    if q.id == p.id {
        PatchView { id: q.id, sha_512: kept_unless_set(q.sha_512, p.sha_512), ..p }
    } else {
        q
    }
}

/// The patches of one package, in id order.
pub open spec fn patches_of(s: Seq<PatchView>, package_id: i32) -> Seq<PatchView>
    decreases s.len(),
{
    if s.len() == 0 {
        Seq::empty()
    } else {
        let r = patches_of(s.drop_last(), package_id);
        if s.last().package_id == package_id {
            r.push(s.last())
        } else {
            r
        }
    }
}

impl StoreView {
    pub open spec fn wf(self) -> bool {
        &&& 1 <= self.next_package_id <= max_id() + 1
        &&& 1 <= self.next_patch_id <= max_id() + 1
        &&& forall|i: int| 0 <= i < self.packages.len() ==> 1 <= #[trigger] self.packages[i].id < self.next_package_id
        &&& forall|i: int, j: int| 0 <= i < j < self.packages.len() ==> self.packages[i].id < self.packages[j].id
        &&& forall|i: int| 0 <= i < self.patches.len() ==> 1 <= #[trigger] self.patches[i].id < self.next_patch_id
        &&& forall|i: int, j: int| 0 <= i < j < self.patches.len() ==> self.patches[i].id < self.patches[j].id
    }

    /// Whether a package row has the id.
    pub open spec fn has_package(self, id: i32) -> bool {
        exists|i: int| 0 <= i < self.packages.len() && self.packages[i].id == id
    }

    /// Position of the package row with the id.
    pub open spec fn package_index(self, id: i32) -> int {
        choose|i: int| 0 <= i < self.packages.len() && self.packages[i].id == id
    }

    /// The package row with the id.
    pub open spec fn lookup(self, id: i32) -> Option<PackageView> {
        if self.has_package(id) {
            Some(self.packages[self.package_index(id)])
        } else {
            None
        }
    }

    /// Whether a package row has the name.
    pub open spec fn has_name(self, name: Seq<char>) -> bool {
        exists|i: int| 0 <= i < self.packages.len() && self.packages[i].name == name
    }

    /// The first package row, in id order, with the name.
    pub open spec fn lookup_by_name(self, name: Seq<char>) -> Option<PackageView> {
        if self.has_name(name) {
            Some(self.packages[choose|i: int| 0 <= i < self.packages.len() && self.packages[i].name == name
                && forall|j: int| 0 <= j < i ==> self.packages[j].name != name])
        } else {
            None
        }
    }

    /// Whether some package is pending.
    pub open spec fn has_pending(self) -> bool {
        exists|i: int| 0 <= i < self.packages.len() && self.packages[i].status == 1
    }

    /// The pending package with the smallest id.
    pub open spec fn next_pending(self) -> Option<PackageView> {
        if self.has_pending() {
            Some(self.packages[choose|i: int| 0 <= i < self.packages.len() && self.packages[i].status == 1
                && forall|j: int| 0 <= j < i ==> self.packages[j].status != 1])
        } else {
            None
        }
    }

    /// The store after a package is inserted under the next id.
    pub open spec fn create(self, name: Seq<char>, run_before: Option<Seq<char>>) -> StoreView {
        StoreView {
            packages: self.packages.push(new_package_row(self.next_package_id as i32, name, run_before)),
            next_package_id: self.next_package_id + 1,
            ..self
        }
    }

    /// The store after a package row is written over the row with its id;
    /// see `changeset_row`.
    pub open spec fn update(self, p: PackageView) -> StoreView {
        StoreView { packages: self.packages.map_values(|q: PackageView| row_update(q, p)), ..self }
    }

    /// The store after the status code of a package is set.
    pub open spec fn set_status(self, id: i32, code: i16) -> StoreView {
        StoreView { packages: self.packages.map_values(|q: PackageView| status_update(q, id, code)), ..self }
    }

    /// The store after a rebuild request.
    pub open spec fn set_pending(self, ids: Option<Seq<i32>>, force: bool) -> StoreView {
        StoreView { packages: self.packages.map_values(|q: PackageView| pending_update(q, ids, force)), ..self }
    }

    /// The store after a periodic rebuild pass with the cutoff.
    pub open spec fn rebuild(self, cutoff: i64) -> StoreView {
        StoreView { packages: self.packages.map_values(|q: PackageView| rebuild_update(q, cutoff)), ..self }
    }

    /// The store after the package with the id is deleted.
    pub open spec fn delete(self, id: i32) -> StoreView {
        if self.has_package(id) {
            StoreView { packages: self.packages.remove(self.package_index(id)), ..self }
        } else {
            self
        }
    }

    /// Whether a patch row has the id.
    pub open spec fn has_patch(self, id: i32) -> bool {
        exists|i: int| 0 <= i < self.patches.len() && self.patches[i].id == id
    }

    /// Position of the patch row with the id.
    pub open spec fn patch_index(self, id: i32) -> int {
        choose|i: int| 0 <= i < self.patches.len() && self.patches[i].id == id
    }

    /// The patch row with the id.
    pub open spec fn lookup_patch(self, id: i32) -> Option<PatchView> {
        if self.has_patch(id) {
            Some(self.patches[self.patch_index(id)])
        } else {
            None
        }
    }

    /// The store after a patch is inserted under the next id.
    pub open spec fn create_patch(self, package_id: i32, url: Seq<char>, sha_512: Option<Seq<char>>) -> StoreView {
        StoreView {
            patches: self.patches.push(PatchView { id: self.next_patch_id as i32, package_id, url, sha_512 }),
            next_patch_id: self.next_patch_id + 1,
            ..self
        }
    }

    /// The store after a patch row is written over the row with its id; a
    /// patch written without a checksum keeps the stored one.
    pub open spec fn update_patch(self, p: PatchView) -> StoreView {
        StoreView { patches: self.patches.map_values(|q: PatchView| patch_row_update(q, p)), ..self }
    }

    /// The store after the patch with the id is deleted.
    pub open spec fn delete_patch(self, id: i32) -> StoreView {
        if self.has_patch(id) {
            StoreView { patches: self.patches.remove(self.patch_index(id)), ..self }
        } else {
            self
        }
    }
}

/// Whether package rows have positive ids in strictly increasing order.
pub open spec fn package_rows_ok(s: Seq<PackageView>) -> bool {
    &&& forall|i: int| 0 <= i < s.len() ==> 1 <= #[trigger] s[i].id
    &&& forall|i: int, j: int| 0 <= i < j < s.len() ==> s[i].id < s[j].id
}

/// Whether patch rows have positive ids in strictly increasing order.
pub open spec fn patch_rows_ok(s: Seq<PatchView>) -> bool {
    &&& forall|i: int| 0 <= i < s.len() ==> 1 <= #[trigger] s[i].id
    &&& forall|i: int, j: int| 0 <= i < j < s.len() ==> s[i].id < s[j].id
}

/// The packages and patches of the build server, with ids given out in
/// increasing order and rows kept in id order.
pub struct PackageStore {
    packages: Vec<Package>,
    patches: Vec<PackagePatch>,
    next_package_id: i64,
    next_patch_id: i64,
}

impl View for PackageStore {
    type V = StoreView;

    closed spec fn view(&self) -> StoreView {
        StoreView {
            packages: packages_view(self.packages@),
            patches: patches_view(self.patches@),
            next_package_id: self.next_package_id as int,
            next_patch_id: self.next_patch_id as int,
        }
    }
}

impl PackageStore {
    pub open spec fn wf(&self) -> bool {
        self@.wf()
    }

    /// An empty store.
    pub fn in_memory() -> (s: PackageStore)
        ensures
            s.wf(),
            s@.packages.len() == 0,
            s@.patches.len() == 0,
            s@.next_package_id == 1,
            s@.next_patch_id == 1,
    {
        let s = PackageStore { packages: Vec::new(), patches: Vec::new(), next_package_id: 1, next_patch_id: 1 };
        assert(s@.packages =~= Seq::<PackageView>::empty());
        assert(s@.patches =~= Seq::<PatchView>::empty());
        s
    }

    /// Position of the package with the id, if one has it.
    fn find_package(&self, id: i32) -> (r: Option<usize>)
        requires
            self.wf(),
        ensures
            match r {
                Some(i) => i < self@.packages.len() && self@.packages[i as int].id == id
                    && self@.has_package(id) && self@.package_index(id) == i,
                None => !self@.has_package(id),
            },
    {
        let mut i: usize = 0;
        while i < self.packages.len()
            invariant
                self.wf(),
                i <= self.packages.len(),
                forall|k: int| 0 <= k < i ==> self@.packages[k].id != id,
            decreases self.packages.len() - i,
        {
            if self.packages[i].id == id {
                proof {
                    let w = self@.package_index(id);
                    assert(self@.packages[i as int].id == id);
                    assert(self@.has_package(id));
                    assert(w == i) by {
                        if w < i {
                        } else if w > i {
                            assert(self@.packages[i as int].id < self@.packages[w].id);
                        }
                    }
                }
                return Some(i);
            }
            i = i + 1;
        }
        None
    }

    pub fn create_package(&mut self, insert: PackageInsert) -> (r: Result<Package, StoreError>)
        requires
            old(self).wf(),
        ensures
            final(self).wf(),
            old(self)@.next_package_id <= max_id() ==> {
                &&& r is Ok
                &&& r->Ok_0@ == new_package_row(old(self)@.next_package_id as i32, insert.name@, insert.run_before.deep_view())
                &&& final(self)@ == old(self)@.create(insert.name@, insert.run_before.deep_view())
            },
            old(self)@.next_package_id > max_id() ==> r == Err::<Package, StoreError>(StoreError::IdsExhausted) && final(self)@ == old(self)@,
    {
        if self.next_package_id > i32::MAX as i64 {
            return Err(StoreError::IdsExhausted);
        }
        let id = self.next_package_id as i32;
        let package = Package {
            id,
            name: insert.name,
            run_before: insert.run_before,
            status: 1,
            last_built: None,
            files: StringArray(Vec::new()),
            last_built_version: None,
            last_error: None,
        };
        assert(package@.files =~= Seq::<Seq<char>>::empty());
        let copy = package.duplicate();
        let ghost old_view = self@;
        self.packages.push(package);
        self.next_package_id = self.next_package_id + 1;
        assert(self@.packages =~= old_view.packages.push(copy@));
        Ok(copy)
    }

    pub fn get_package(&self, id: i32) -> (r: Option<Package>)
        requires
            self.wf(),
        ensures
            match r {
                Some(p) => self@.lookup(id) == Some(p@),
                None => self@.lookup(id) is None,
            },
    {
        match self.find_package(id) {
            Some(i) => Some(self.packages[i].duplicate()),
            None => None,
        }
    }

    /// All packages, in id order.
    pub fn get_packages(&self) -> (r: Vec<Package>)
        requires
            self.wf(),
        ensures
            packages_view(r@) == self@.packages,
    {
        let mut r: Vec<Package> = Vec::new();
        let mut i: usize = 0;
        while i < self.packages.len()
            invariant
                i <= self.packages.len(),
                r.len() == i,
                forall|k: int| 0 <= k < i ==> #[trigger] r@[k]@ == self.packages@[k]@,
            decreases self.packages.len() - i,
        {
            r.push(self.packages[i].duplicate());
            i = i + 1;
        }
        assert(packages_view(r@) =~= self@.packages);
        r
    }

    /// Writes the row over the stored row with the same id, as
    /// `changeset_row` says; answers the stored row.
    pub fn update_package(&mut self, package: &Package) -> (r: Result<Package, StoreError>)
        requires
            old(self).wf(),
        ensures
            final(self).wf(),
            old(self)@.has_package(package@.id) ==> {
                &&& r is Ok
                &&& r->Ok_0@ == changeset_row(old(self)@.lookup(package@.id).unwrap(), package@)
                &&& final(self)@ == old(self)@.update(package@)
            },
            !old(self)@.has_package(package@.id) ==> r == Err::<Package, StoreError>(StoreError::NotFound) && final(self)@ == old(self)@,
    {
        match self.find_package(package.id) {
            None => Err(StoreError::NotFound),
            Some(i) => {
                let ghost old_view = self@;
                let merged = Package::changeset_applied(&self.packages[i], package);
                self.packages[i] = merged.duplicate();
                proof {
                    assert forall|k: int| 0 <= k < old_view.packages.len() implies
                        #[trigger] self@.packages[k] == row_update(old_view.packages[k], package@) by {
                        if k != i {
                            assert(old_view.packages[k].id != package@.id) by {
                                if k < i {
                                    assert(old_view.packages[k].id < old_view.packages[i as int].id);
                                } else {
                                    assert(old_view.packages[i as int].id < old_view.packages[k].id);
                                }
                            }
                        }
                    }
                    assert(self@.packages =~= old_view.packages.map_values(|q: PackageView| row_update(q, package@)));
                    assert(old_view.has_package(package@.id));
                    let w = old_view.package_index(package@.id);
                    assert(old_view.packages[w].id == package@.id);
                    assert(w == i) by {
                        if w < i {
                            assert(old_view.packages[w].id < old_view.packages[i as int].id);
                        } else if w > i {
                            assert(old_view.packages[i as int].id < old_view.packages[w].id);
                        }
                    }
                }
                Ok(merged)
            },
        }
    }

    /// Sets the status of the package with the id, if there is one.
    pub fn update_package_status(&mut self, id: i32, status: PackageStatus) -> (r: Result<(), StoreError>)
        requires
            old(self).wf(),
        ensures
            r is Ok,
            final(self).wf(),
            final(self)@ == old(self)@.set_status(id, status_code(status) as i16),
    {
        let code = status.code() as i16;
        let ghost old_view = self@;
        let mut i: usize = 0;
        while i < self.packages.len()
            invariant
                old_view.wf(),
                i <= self.packages.len(),
                self.packages.len() == old_view.packages.len(),
                self.next_package_id == old_view.next_package_id,
                patches_view(self.patches@) == old_view.patches,
                self.next_patch_id == old_view.next_patch_id,
                forall|k: int| 0 <= k < i ==> #[trigger] self.packages@[k]@ == status_update(old_view.packages[k], id, code),
                forall|k: int| i <= k < self.packages.len() ==> #[trigger] self.packages@[k]@ == old_view.packages[k],
            decreases self.packages.len() - i,
        {
            if self.packages[i].id == id {
                let mut p = self.packages[i].duplicate();
                p.status = code;
                self.packages[i] = p;
            }
            i = i + 1;
        }
        assert(self@.packages =~= old_view.packages.map_values(|q: PackageView| status_update(q, id, code)));
        Ok(())
    }
    /// Puts the selected packages (all of them when no list is given) back
    /// in the queue; without `force` a package being built keeps its status,
    /// with `force` every selected package also forgets its built version.
    pub fn set_packages_pending(&mut self, package_ids: Option<Vec<i32>>, force: bool) -> (r: Result<(), StoreError>)
        requires
            old(self).wf(),
        ensures
            r is Ok,
            final(self).wf(),
            final(self)@ == old(self)@.set_pending(ids_of(package_ids), force),
    {
        let ghost ids = ids_of(package_ids);
        let ghost old_view = self@;
        let mut i: usize = 0;
        while i < self.packages.len()
            invariant
                old_view.wf(),
                ids == ids_of(package_ids),
                i <= self.packages.len(),
                self.packages.len() == old_view.packages.len(),
                self.next_package_id == old_view.next_package_id,
                patches_view(self.patches@) == old_view.patches,
                self.next_patch_id == old_view.next_patch_id,
                forall|k: int| 0 <= k < i ==> #[trigger] self.packages@[k]@ == pending_update(old_view.packages[k], ids, force),
                forall|k: int| i <= k < self.packages.len() ==> #[trigger] self.packages@[k]@ == old_view.packages[k],
            decreases self.packages.len() - i,
        {
            let id = self.packages[i].id;
            let is_selected = match &package_ids {
                Some(v) => contains_id(v, id),
                None => true,
            };
            if is_selected {
                if force {
                    let mut p = self.packages[i].duplicate();
                    p.status = 1;
                    p.last_built_version = None;
                    self.packages[i] = p;
                } else if self.packages[i].status != 2 {
                    let mut p = self.packages[i].duplicate();
                    p.status = 1;
                    self.packages[i] = p;
                }
            }
            i = i + 1;
        }
        assert(self@.packages =~= old_view.packages.map_values(|q: PackageView| pending_update(q, ids, force)));
        Ok(())
    }

    /// Puts back in the queue every built or failed package last built
    /// before the cutoff (a Unix timestamp); returns how many it changed.
    pub fn set_packages_rebuild_before(&mut self, cutoff: i64) -> (r: usize)
        requires
            old(self).wf(),
        ensures
            final(self).wf(),
            final(self)@ == old(self)@.rebuild(cutoff),
            r == count_rebuild_due(old(self)@.packages, cutoff),
    {
        let ghost old_view = self@;
        let mut count: usize = 0;
        let mut i: usize = 0;
        while i < self.packages.len()
            invariant
                old_view.wf(),
                i <= self.packages.len(),
                self.packages.len() == old_view.packages.len(),
                self.next_package_id == old_view.next_package_id,
                patches_view(self.patches@) == old_view.patches,
                self.next_patch_id == old_view.next_patch_id,
                count == count_rebuild_due(old_view.packages.subrange(0, i as int), cutoff),
                count <= i,
                forall|k: int| 0 <= k < i ==> #[trigger] self.packages@[k]@ == rebuild_update(old_view.packages[k], cutoff),
                forall|k: int| i <= k < self.packages.len() ==> #[trigger] self.packages@[k]@ == old_view.packages[k],
            decreases self.packages.len() - i,
        {
            assert(old_view.packages.subrange(0, i as int + 1).drop_last() =~= old_view.packages.subrange(0, i as int));
            let due = match self.packages[i].last_built {
                Some(t) => t < cutoff && (self.packages[i].status == 3 || self.packages[i].status == 4),
                None => false,
            };
            proof {
                let s = old_view.packages.subrange(0, i as int + 1);
                assert(s.last() == old_view.packages[i as int]);
                assert(self.packages@[i as int]@ == old_view.packages[i as int]);
                assert(due == rebuild_due(old_view.packages[i as int], cutoff));
                assert(count_rebuild_due(s, cutoff) == count_rebuild_due(s.drop_last(), cutoff)
                    + (if rebuild_due(s.last(), cutoff) { 1nat } else { 0nat }));
            }
            if due {
                let mut p = self.packages[i].duplicate();
                p.status = 1;
                self.packages[i] = p;
                count = count + 1;
            }
            i = i + 1;
        }
        assert(old_view.packages.subrange(0, i as int) =~= old_view.packages);
        assert(self@.packages =~= old_view.packages.map_values(|q: PackageView| rebuild_update(q, cutoff)));
        count
    }

    /// Deletes the package with the id, if there is one.
    pub fn delete_package(&mut self, id: i32) -> (r: Result<(), StoreError>)
        requires
            old(self).wf(),
        ensures
            r is Ok,
            final(self).wf(),
            final(self)@ == old(self)@.delete(id),
    {
        match self.find_package(id) {
            None => {},
            Some(i) => {
                let ghost old_view = self@;
                self.packages.remove(i);
                assert(self@.packages =~= old_view.packages.remove(i as int));
            },
        }
        Ok(())
    }

    /// The first package, in id order, with the name.
    pub fn get_package_by_name(&self, name: &str) -> (r: Option<Package>)
        requires
            self.wf(),
        ensures
            match r {
                Some(p) => self@.lookup_by_name(name@) == Some(p@) && self@.has_package(p@.id),
                None => self@.lookup_by_name(name@) is None,
            },
    {
        let mut i: usize = 0;
        while i < self.packages.len()
            invariant
                i <= self.packages.len(),
                forall|k: int| 0 <= k < i ==> self@.packages[k].name != name@,
            decreases self.packages.len() - i,
        {
            if str_eq(self.packages[i].name.as_str(), name) {
                proof {
                    let v = self@;
                    assert(v.packages[i as int].name == name@);
                    assert(v.has_name(name@));
                    let w = choose|w: int| 0 <= w < v.packages.len() && v.packages[w].name == name@
                        && forall|j: int| 0 <= j < w ==> v.packages[j].name != name@;
                    assert(0 <= w < v.packages.len() && v.packages[w].name == name@
                        && forall|j: int| 0 <= j < w ==> v.packages[j].name != name@);
                    assert(w == i);
                }
                return Some(self.packages[i].duplicate());
            }
            i = i + 1;
        }
        None
    }

    /// The pending package with the smallest id.
    pub fn get_next_pending_package(&self) -> (r: Option<Package>)
        requires
            self.wf(),
        ensures
            match r {
                Some(p) => self@.next_pending() == Some(p@),
                None => self@.next_pending() is None,
            },
    {
        let mut i: usize = 0;
        while i < self.packages.len()
            invariant
                i <= self.packages.len(),
                forall|k: int| 0 <= k < i ==> self@.packages[k].status != 1,
            decreases self.packages.len() - i,
        {
            if self.packages[i].status == 1 {
                proof {
                    let v = self@;
                    assert(v.packages[i as int].status == 1);
                    assert(v.has_pending());
                    let w = choose|w: int| 0 <= w < v.packages.len() && v.packages[w].status == 1
                        && forall|j: int| 0 <= j < w ==> v.packages[j].status != 1;
                    assert(0 <= w < v.packages.len() && v.packages[w].status == 1
                        && forall|j: int| 0 <= j < w ==> v.packages[j].status != 1);
                    assert(w == i);
                }
                return Some(self.packages[i].duplicate());
            }
            i = i + 1;
        }
        None
    }
    /// The packages whose name contains the query, as SQL `LIKE '%query%'`
    /// finds them, in id order.
    pub fn search_packages_by_name(&self, search: String) -> (r: Vec<Package>)
        requires
            self.wf(),
        ensures
            packages_view(r@) == packages_matching(self@.packages, search_pattern(search@)),
    {
        let pattern = search_pattern_of(search.as_str());
        let ghost pat = search_pattern(search@);
        let mut r: Vec<Package> = Vec::new();
        let mut i: usize = 0;
        while i < self.packages.len()
            invariant
                pattern@ == pat,
                i <= self.packages.len(),
                packages_view(r@) == packages_matching(self@.packages.subrange(0, i as int), pat),
            decreases self.packages.len() - i,
        {
            let ghost before = packages_view(r@);
            let name = chars_of(self.packages[i].name.as_str());
            let ghost sub = self@.packages.subrange(0, i as int + 1);
            assert(sub.drop_last() =~= self@.packages.subrange(0, i as int));
            assert(sub.last() == self.packages@[i as int]@);
            if like_match(&pattern, &name) {
                r.push(self.packages[i].duplicate());
                assert(packages_view(r@) =~= before.push(self.packages@[i as int]@));
            }
            i = i + 1;
        }
        assert(self@.packages.subrange(0, i as int) =~= self@.packages);
        r
    }

    /// Puts back in the queue every built or failed package last built more
    /// than `rebuild_interval` seconds before the time `now`, that is before
    /// the cutoff `now - rebuild_interval`; returns how many it changed.
    /// When the cutoff does not fit a timestamp nothing changes and the
    /// answer is `TimeOutOfRange`.
    pub fn set_packages_rebuild_at(&mut self, now: i64, rebuild_interval: i64) -> (r: Result<usize, StoreError>)
        requires
            old(self).wf(),
            -(i64::MAX / 1000) <= rebuild_interval <= i64::MAX / 1000,
        ensures
            final(self).wf(),
            cutoff_fits(now, rebuild_interval) ==> {
                &&& final(self)@ == old(self)@.rebuild((now - rebuild_interval) as i64)
                &&& r is Ok
                &&& r->Ok_0 == count_rebuild_due(old(self)@.packages, (now - rebuild_interval) as i64)
            },
            !cutoff_fits(now, rebuild_interval) ==> r == Err::<usize, StoreError>(StoreError::TimeOutOfRange)
                && final(self)@ == old(self)@,
    {
        match now.checked_sub(rebuild_interval) {
            Some(cutoff) => Ok(self.set_packages_rebuild_before(cutoff)),
            None => Err(StoreError::TimeOutOfRange),
        }
    }

    /// Puts back in the queue every built or failed package last built more
    /// than `rebuild_interval` seconds before now; see
    /// `set_packages_rebuild_at`. When the clock cannot be read nothing
    /// changes and the answer is `ClockUnavailable`.
    pub fn set_packages_rebuild(&mut self, rebuild_interval: i64) -> (r: Result<usize, StoreError>)
        requires
            old(self).wf(),
            -(i64::MAX / 1000) <= rebuild_interval <= i64::MAX / 1000,
        ensures
            final(self).wf(),
            match r {
                Ok(n) => exists|now: i64| {
                    &&& now >= 0
                    &&& cutoff_fits(now, rebuild_interval)
                    &&& final(self)@ == #[trigger] old(self)@.rebuild((now - rebuild_interval) as i64)
                    &&& n == count_rebuild_due(old(self)@.packages, (now - rebuild_interval) as i64)
                },
                Err(e) => final(self)@ == old(self)@ && (e == StoreError::ClockUnavailable
                    || (e == StoreError::TimeOutOfRange && exists|now: i64| now >= 0 && !#[trigger] cutoff_fits(now, rebuild_interval))),
            },
    {
        match current_timestamp() {
            Some(now) => {
                let r = self.set_packages_rebuild_at(now, rebuild_interval);
                proof {
                    if cutoff_fits(now, rebuild_interval) {
                        assert(final(self)@ == old(self)@.rebuild((now - rebuild_interval) as i64));
                    } else {
                        assert(!cutoff_fits(now, rebuild_interval));
                    }
                }
                r
            },
            None => Err(StoreError::ClockUnavailable),
        }
    }

    /// Inserts a patch under the next patch id.
    pub fn create_patch(&mut self, patch: PackagePatchInsert) -> (r: Result<PackagePatch, StoreError>)
        requires
            old(self).wf(),
        ensures
            final(self).wf(),
            old(self)@.next_patch_id <= max_id() ==> {
                &&& r is Ok
                &&& r->Ok_0@ == (PatchView { id: old(self)@.next_patch_id as i32, package_id: patch.package_id,
                    url: patch.url@, sha_512: patch.sha_512.deep_view() })
                &&& final(self)@ == old(self)@.create_patch(patch.package_id, patch.url@, patch.sha_512.deep_view())
            },
            old(self)@.next_patch_id > max_id() ==> r == Err::<PackagePatch, StoreError>(StoreError::IdsExhausted) && final(self)@ == old(self)@,
    {
        if self.next_patch_id > i32::MAX as i64 {
            return Err(StoreError::IdsExhausted);
        }
        let id = self.next_patch_id as i32;
        let row = PackagePatch { id, package_id: patch.package_id, url: patch.url, sha_512: patch.sha_512 };
        let copy = row.duplicate();
        let ghost old_view = self@;
        self.patches.push(row);
        self.next_patch_id = self.next_patch_id + 1;
        assert(self@.patches =~= old_view.patches.push(copy@));
        Ok(copy)
    }

    /// Position of the patch with the id, if one has it.
    fn find_patch(&self, id: i32) -> (r: Option<usize>)
        requires
            self.wf(),
        ensures
            match r {
                Some(i) => i < self@.patches.len() && self@.patches[i as int].id == id
                    && self@.has_patch(id) && self@.patch_index(id) == i,
                None => !self@.has_patch(id),
            },
    {
        let mut i: usize = 0;
        while i < self.patches.len()
            invariant
                self.wf(),
                i <= self.patches.len(),
                forall|k: int| 0 <= k < i ==> self@.patches[k].id != id,
            decreases self.patches.len() - i,
        {
            if self.patches[i].id == id {
                proof {
                    let w = self@.patch_index(id);
                    assert(self@.patches[i as int].id == id);
                    assert(self@.has_patch(id));
                    assert(w == i) by {
                        if w < i {
                        } else if w > i {
                            assert(self@.patches[i as int].id < self@.patches[w].id);
                        }
                    }
                }
                return Some(i);
            }
            i = i + 1;
        }
        None
    }

    /// Writes the patch over the stored patch with the same id; a patch
    /// without a checksum keeps the stored one. Answers the stored patch.
    pub fn update_patch(&mut self, patch: &PackagePatch) -> (r: Result<PackagePatch, StoreError>)
        requires
            old(self).wf(),
        ensures
            final(self).wf(),
            old(self)@.has_patch(patch@.id) ==> {
                &&& r is Ok
                &&& r->Ok_0@ == patch_row_update(old(self)@.lookup_patch(patch@.id).unwrap(), patch@)
                &&& final(self)@ == old(self)@.update_patch(patch@)
            },
            !old(self)@.has_patch(patch@.id) ==> r == Err::<PackagePatch, StoreError>(StoreError::NotFound) && final(self)@ == old(self)@,
    {
        match self.find_patch(patch.id) {
            None => Err(StoreError::NotFound),
            Some(i) => {
                let ghost old_view = self@;
                let sha_512 = match &patch.sha_512 {
                    Some(h) => Some(h.clone()),
                    None => clone_opt_string(&self.patches[i].sha_512),
                };
                let merged = PackagePatch { id: patch.id, package_id: patch.package_id, url: patch.url.clone(), sha_512 };
                self.patches[i] = merged.duplicate();
                proof {
                    assert forall|k: int| 0 <= k < old_view.patches.len() implies
                        #[trigger] self@.patches[k] == patch_row_update(old_view.patches[k], patch@) by {
                        if k != i {
                            assert(old_view.patches[k].id != patch@.id) by {
                                if k < i {
                                    assert(old_view.patches[k].id < old_view.patches[i as int].id);
                                } else {
                                    assert(old_view.patches[i as int].id < old_view.patches[k].id);
                                }
                            }
                        }
                    }
                    assert(self@.patches =~= old_view.patches.map_values(|q: PatchView| patch_row_update(q, patch@)));
                    assert(old_view.has_patch(patch@.id));
                    let w = old_view.patch_index(patch@.id);
                    assert(old_view.patches[w].id == patch@.id);
                    assert(w == i) by {
                        if w < i {
                            assert(old_view.patches[w].id < old_view.patches[i as int].id);
                        } else if w > i {
                            assert(old_view.patches[i as int].id < old_view.patches[w].id);
                        }
                    }
                }
                Ok(merged)
            },
        }
    }

    /// Deletes the patch with the id, if there is one.
    pub fn delete_patch(&mut self, id: i32) -> (r: Result<(), StoreError>)
        requires
            old(self).wf(),
        ensures
            r is Ok,
            final(self).wf(),
            final(self)@ == old(self)@.delete_patch(id),
    {
        match self.find_patch(id) {
            None => {},
            Some(i) => {
                let ghost old_view = self@;
                self.patches.remove(i);
                assert(self@.patches =~= old_view.patches.remove(i as int));
            },
        }
        Ok(())
    }

    /// The patches of a package, in id order.
    pub fn get_patches_for_package(&self, package_id: i32) -> (r: Vec<PackagePatch>)
        requires
            self.wf(),
        ensures
            patches_view(r@) == patches_of(self@.patches, package_id),
    {
        let mut r: Vec<PackagePatch> = Vec::new();
        let mut i: usize = 0;
        while i < self.patches.len()
            invariant
                i <= self.patches.len(),
                patches_view(r@) == patches_of(self@.patches.subrange(0, i as int), package_id),
            decreases self.patches.len() - i,
        {
            let ghost before = patches_view(r@);
            let ghost sub = self@.patches.subrange(0, i as int + 1);
            assert(sub.drop_last() =~= self@.patches.subrange(0, i as int));
            assert(sub.last() == self.patches@[i as int]@);
            if self.patches[i].package_id == package_id {
                r.push(self.patches[i].duplicate());
                assert(patches_view(r@) =~= before.push(self.patches@[i as int]@));
            }
            i = i + 1;
        }
        assert(self@.patches.subrange(0, i as int) =~= self@.patches);
        r
    }
    /// A store holding the given rows, when their ids are positive and in
    /// strictly increasing order; the next ids follow the last ones.
    pub fn from_rows(packages: Vec<Package>, patches: Vec<PackagePatch>) -> (r: Option<PackageStore>)
        ensures
            (package_rows_ok(packages_view(packages@)) && patch_rows_ok(patches_view(patches@))) <==> r is Some,
            r is Some ==> {
                &&& r->0.wf()
                &&& r->0@.packages == packages_view(packages@)
                &&& r->0@.patches == patches_view(patches@)
                &&& r->0@.next_package_id == if packages.len() == 0 { 1 } else { packages_view(packages@).last().id + 1 }
                &&& r->0@.next_patch_id == if patches.len() == 0 { 1 } else { patches_view(patches@).last().id + 1 }
            },
    {
        let ghost v = packages_view(packages@);
        let mut i: usize = 0;
        let mut last: i64 = 0;
        while i < packages.len()
            invariant
                v == packages_view(packages@),
                i <= packages.len(),
                0 <= last <= i32::MAX,
                i == 0 ==> last == 0,
                i > 0 ==> last == v[i - 1].id,
                forall|a: int| 0 <= a < i ==> 1 <= #[trigger] v[a].id <= last,
                forall|a: int, b: int| 0 <= a < b < i ==> v[a].id < v[b].id,
            decreases packages.len() - i,
        {
            let id = packages[i].id as i64;
            if id <= last {
                proof {
                    assert(v[i as int].id == id);
                    if i > 0 {
                        assert(v[i - 1].id >= v[i as int].id);
                        assert(!package_rows_ok(v));
                    } else {
                        assert(v[0].id < 1);
                    }
                }
                return None;
            }
            last = id;
            i = i + 1;
        }
        let ghost w = patches_view(patches@);
        let mut j: usize = 0;
        let mut last_patch: i64 = 0;
        while j < patches.len()
            invariant
                w == patches_view(patches@),
                package_rows_ok(v),
                j <= patches.len(),
                0 <= last_patch <= i32::MAX,
                j == 0 ==> last_patch == 0,
                j > 0 ==> last_patch == w[j - 1].id,
                forall|a: int| 0 <= a < j ==> 1 <= #[trigger] w[a].id <= last_patch,
                forall|a: int, b: int| 0 <= a < b < j ==> w[a].id < w[b].id,
            decreases patches.len() - j,
        {
            let id = patches[j].id as i64;
            if id <= last_patch {
                proof {
                    assert(w[j as int].id == id);
                    if j > 0 {
                        assert(w[j - 1].id >= w[j as int].id);
                        assert(!patch_rows_ok(w));
                    } else {
                        assert(w[0].id < 1);
                    }
                }
                return None;
            }
            last_patch = id;
            j = j + 1;
        }
        let s = PackageStore { packages, patches, next_package_id: last + 1, next_patch_id: last_patch + 1 };
        Some(s)
    }

    /// All patches, in id order.
    pub fn get_all_patches(&self) -> (r: Vec<PackagePatch>)
        ensures
            patches_view(r@) == self@.patches,
    {
        let mut r: Vec<PackagePatch> = Vec::new();
        let mut i: usize = 0;
        while i < self.patches.len()
            invariant
                i <= self.patches.len(),
                r.len() == i,
                forall|k: int| 0 <= k < i ==> #[trigger] r@[k]@ == self.patches@[k]@,
            decreases self.patches.len() - i,
        {
            r.push(self.patches[i].duplicate());
            i = i + 1;
        }
        assert(patches_view(r@) =~= self@.patches);
        r
    }

    /// How many more packages can be created.
    pub fn package_ids_left(&self) -> (n: u64)
        requires
            self.wf(),
        ensures
            n == max_id() + 1 - self@.next_package_id,
    {
        (i32::MAX as i64 + 1 - self.next_package_id) as u64
    }
}

} // verus!
