use vstd::prelude::*;
use crate::server::like::{law_search_finds_substring, like, search_pattern};
use crate::server::package_store::{changeset_row, expected_job, packages_matching, patches_of, PatchView,
     max_id, new_package_row, rebuild_due, row_update, selected, status_update, PackageView, StoreView};

verus! {

/// A package created in the store is found under the id it was given, is
/// pending with no build data, and no row held that id before.
pub proof fn law_create_then_lookup(s: StoreView, name: Seq<char>, run_before: Option<Seq<char>>)
    requires
        s.wf(),
        s.next_package_id <= max_id(),
    ensures
        !s.has_package(s.next_package_id as i32),
        s.create(name, run_before).wf(),
        s.create(name, run_before).lookup(s.next_package_id as i32)
            == Some(new_package_row(s.next_package_id as i32, name, run_before)),
        forall|id: i32| id != s.next_package_id ==> #[trigger] s.create(name, run_before).lookup(id) == s.lookup(id),
{
    let t = s.create(name, run_before);
    let nid = s.next_package_id as i32;
    let n = s.packages.len() as int;
    assert(t.packages[n].id == nid);
    assert(t.has_package(nid));
    let w = t.package_index(nid);
    assert(w == n) by {
        if w < n {
            assert(t.packages[w] == s.packages[w]);
        }
    }
    assert forall|id: i32| id != s.next_package_id implies #[trigger] t.lookup(id) == s.lookup(id) by {
        if s.has_package(id) {
            let i = s.package_index(id);
            assert(t.packages[i] == s.packages[i]);
            assert(t.has_package(id));
            let j = t.package_index(id);
            assert(j < n);
            assert(j == i) by {
                if j < i {
                    assert(s.packages[j].id < s.packages[i].id);
                } else if j > i {
                    assert(s.packages[i].id < s.packages[j].id);
                }
            }
        } else {
            if t.has_package(id) {
                let j = t.package_index(id);
                assert(j < n);
                assert(s.packages[j].id == id);
            }
        }
    }
}

/// After a row is written over the stored row with its id, reading that id
/// gives the row written, except that an optional column the written row
/// leaves empty keeps its stored value; every other id reads as before.
pub proof fn law_update_then_lookup(s: StoreView, p: PackageView)
    requires
        s.wf(),
        s.has_package(p.id),
    ensures
        s.update(p).wf(),
        s.update(p).lookup(p.id) == Some(changeset_row(s.lookup(p.id).unwrap(), p)),
        s.update(p).lookup(p.id).unwrap().name == p.name,
        s.update(p).lookup(p.id).unwrap().status == p.status,
        s.update(p).lookup(p.id).unwrap().files == p.files,
        p.run_before is Some ==> s.update(p).lookup(p.id).unwrap().run_before == p.run_before,
        p.last_built is Some ==> s.update(p).lookup(p.id).unwrap().last_built == p.last_built,
        p.last_built_version is Some ==> s.update(p).lookup(p.id).unwrap().last_built_version == p.last_built_version,
        p.last_error is Some ==> s.update(p).lookup(p.id).unwrap().last_error == p.last_error,
        forall|id: i32| id != p.id ==> #[trigger] s.update(p).lookup(id) == s.lookup(id),
{
    let t = s.update(p);
    let i = s.package_index(p.id);
    assert(t.packages[i] == changeset_row(s.packages[i], p));
    assert(t.has_package(p.id));
    let j = t.package_index(p.id);
    assert(j == i) by {
        if j != i {
            assert(t.packages[j] == row_update(s.packages[j], p));
            if s.packages[j].id == p.id {
                if j < i {
                    assert(s.packages[j].id < s.packages[i].id);
                } else {
                    assert(s.packages[i].id < s.packages[j].id);
                }
            }
        }
    }
    assert forall|id: i32| id != p.id implies #[trigger] t.lookup(id) == s.lookup(id) by {
        if s.has_package(id) {
            let a = s.package_index(id);
            assert(t.packages[a] == s.packages[a]);
            assert(t.has_package(id));
            let b = t.package_index(id);
            assert(t.packages[b] == row_update(s.packages[b], p));
            assert(s.packages[b].id == id);
            assert(b == a) by {
                if b < a {
                    assert(s.packages[b].id < s.packages[a].id);
                } else if b > a {
                    assert(s.packages[a].id < s.packages[b].id);
                }
            }
        } else if t.has_package(id) {
            let b = t.package_index(id);
            assert(t.packages[b] == row_update(s.packages[b], p));
            assert(s.packages[b].id == id);
        }
    }
}

/// After the status of a package is set, reading the package gives the new
/// status and otherwise the same row.
pub proof fn law_set_status_then_lookup(s: StoreView, id: i32, code: i16)
    requires
        s.wf(),
        s.has_package(id),
    ensures
        s.set_status(id, code).wf(),
        s.set_status(id, code).lookup(id) == Some(PackageView { status: code, ..s.lookup(id).unwrap() }),
{
    let t = s.set_status(id, code);
    let i = s.package_index(id);
    assert(t.packages[i] == status_update(s.packages[i], id, code));
    assert(t.has_package(id));
    let j = t.package_index(id);
    assert(t.packages[j] == status_update(s.packages[j], id, code));
    assert(j == i) by {
        if j < i {
            assert(s.packages[j].id < s.packages[i].id);
        } else if j > i {
            assert(s.packages[i].id < s.packages[j].id);
        }
    }
}

/// A rebuild request without `force` leaves every package that is being
/// built exactly as it was; every other selected package becomes pending.
pub proof fn law_pending_spares_building(s: StoreView, ids: Option<Seq<i32>>)
    requires
        s.wf(),
    ensures
        s.set_pending(ids, false).wf(),
        forall|i: int| 0 <= i < s.packages.len() && s.packages[i].status == 2
            ==> #[trigger] s.set_pending(ids, false).packages[i] == s.packages[i],
        forall|i: int| 0 <= i < s.packages.len() && s.packages[i].status != 2 && selected(ids, s.packages[i].id)
            ==> (#[trigger] s.set_pending(ids, false).packages[i]).status == 1,
{
}

/// A forced rebuild request makes every selected package pending and
/// forgets its built version, whatever its status was.
pub proof fn law_forced_pending(s: StoreView, ids: Option<Seq<i32>>)
    requires
        s.wf(),
    ensures
        s.set_pending(ids, true).wf(),
        forall|i: int| 0 <= i < s.packages.len() && selected(ids, s.packages[i].id) ==> {
            &&& (#[trigger] s.set_pending(ids, true).packages[i]).status == 1
            &&& s.set_pending(ids, true).packages[i].last_built_version is None
        },
        forall|i: int| 0 <= i < s.packages.len() && !selected(ids, s.packages[i].id)
            ==> #[trigger] s.set_pending(ids, true).packages[i] == s.packages[i],
{
}

/// A periodic rebuild pass only ever turns built or failed packages last
/// built before the cutoff into pending ones; every other row is unchanged.
pub proof fn law_rebuild_only_due(s: StoreView, cutoff: i64)
    requires
        s.wf(),
    ensures
        s.rebuild(cutoff).wf(),
        forall|i: int| 0 <= i < s.packages.len() && !rebuild_due(s.packages[i], cutoff)
            ==> #[trigger] s.rebuild(cutoff).packages[i] == s.packages[i],
        forall|i: int| 0 <= i < s.packages.len() && rebuild_due(s.packages[i], cutoff)
            ==> (#[trigger] s.rebuild(cutoff).packages[i]).status == 1,
{
}

/// After a package is deleted no row has its id, and every other id reads
/// as before.
pub proof fn law_delete_then_lookup(s: StoreView, id: i32)
    requires
        s.wf(),
    ensures
        s.delete(id).wf(),
        s.delete(id).lookup(id) is None,
        forall|other: i32| other != id ==> #[trigger] s.delete(id).lookup(other) == s.lookup(other),
{
    let t = s.delete(id);
    if s.has_package(id) {
        let i = s.package_index(id);
        assert(!t.has_package(id)) by {
            if t.has_package(id) {
                let j = t.package_index(id);
                if j < i {
                    assert(t.packages[j] == s.packages[j]);
                    assert(s.packages[j].id < s.packages[i].id);
                } else {
                    assert(t.packages[j] == s.packages[j + 1]);
                    assert(s.packages[i].id < s.packages[j + 1].id);
                }
            }
        }
        assert forall|other: i32| other != id implies #[trigger] t.lookup(other) == s.lookup(other) by {
            if s.has_package(other) {
                let a = s.package_index(other);
                assert(a != i);
                let b = if a < i { a } else { a - 1 };
                assert(t.packages[b] == s.packages[a]);
                assert(t.has_package(other));
                let c = t.package_index(other);
                let c0 = if c < i { c } else { c + 1 };
                assert(t.packages[c] == s.packages[c0]);
                assert(c0 == a) by {
                    if c0 < a {
                        assert(s.packages[c0].id < s.packages[a].id);
                    } else if c0 > a {
                        assert(s.packages[a].id < s.packages[c0].id);
                    }
                }
            } else if t.has_package(other) {
                let c = t.package_index(other);
                let c0 = if c < i { c } else { c + 1 };
                assert(t.packages[c] == s.packages[c0]);
            }
        }
    }
}

/// Below any pending row there is a first pending row.
proof fn lemma_first_pending_exists(p: Seq<PackageView>, k: int)
    requires
        0 <= k < p.len(),
        p[k].status == 1,
    ensures
        exists|w: int| 0 <= w < p.len() && p[w].status == 1 && forall|j: int| 0 <= j < w ==> p[j].status != 1,
    decreases k,
{
    if exists|j: int| 0 <= j < k && p[j].status == 1 {
        let j = choose|j: int| 0 <= j < k && p[j].status == 1;
        lemma_first_pending_exists(p, j);
    } else {
        assert(forall|j: int| 0 <= j < k ==> p[j].status != 1);
    }
}

/// The package that the dispatcher takes next is pending, and no pending
/// package has a smaller id.
pub proof fn law_next_pending_is_first(s: StoreView)
    requires
        s.wf(),
    ensures
        s.next_pending() is Some <==> s.has_pending(),
        s.next_pending() is Some ==> {
            &&& s.next_pending()->0.status == 1
            &&& forall|i: int| 0 <= i < s.packages.len() && (#[trigger] s.packages[i]).status == 1
                ==> s.next_pending()->0.id <= s.packages[i].id
        },
{
    if s.has_pending() {
        let k = choose|k: int| 0 <= k < s.packages.len() && s.packages[k].status == 1;
        lemma_first_pending_exists(s.packages, k);
        let w = choose|w: int| 0 <= w < s.packages.len() && s.packages[w].status == 1
            && forall|j: int| 0 <= j < w ==> s.packages[j].status != 1;
        assert(0 <= w < s.packages.len() && s.packages[w].status == 1
            && forall|j: int| 0 <= j < w ==> s.packages[j].status != 1);
        assert(s.next_pending() == Some(s.packages[w]));
        assert forall|i: int| 0 <= i < s.packages.len() && (#[trigger] s.packages[i]).status == 1
            implies s.packages[w].id <= s.packages[i].id by {
            if i > w {
                assert(s.packages[w].id < s.packages[i].id);
            }
        }
    }
}

/// A rebuild request touches exactly the packages it names (every package
/// when it names none): a package whose id is not in the list is left as
/// it was, with or without `force`. A named package becomes pending unless,
/// without `force`, it is being built; with `force` it also forgets its
/// built version. Nothing else of a named package changes, and no package
/// is added or removed.
pub proof fn law_rebuild_request_selects_by_id(s: StoreView, ids: Option<Seq<i32>>, force: bool)
    requires
        s.wf(),
    ensures
        s.set_pending(ids, force).packages.len() == s.packages.len(),
        forall|i: int| #![trigger s.set_pending(ids, force).packages[i]]
            0 <= i < s.packages.len() && ids is Some && !ids->0.contains(s.packages[i].id)
            ==> s.set_pending(ids, force).packages[i] == s.packages[i],
        forall|i: int| #![trigger s.set_pending(ids, force).packages[i]]
            0 <= i < s.packages.len() && (ids is None || ids->0.contains(s.packages[i].id)) ==> {
                let q = s.packages[i];
                let r = s.set_pending(ids, force).packages[i];
                &&& r.id == q.id && r.name == q.name && r.run_before == q.run_before
                &&& r.last_built == q.last_built && r.files == q.files && r.last_error == q.last_error
                &&& (force || q.status != 2) ==> r.status == 1
                &&& (!force && q.status == 2) ==> r == q
                &&& force ==> r.last_built_version is None
                &&& !force ==> r.last_built_version == q.last_built_version
            },
{
}

proof fn lemma_patches_of_filter(s: Seq<PatchView>, package_id: i32)
    ensures
        patches_of(s, package_id) == s.filter(|q: PatchView| q.package_id == package_id),
    decreases s.len(),
{
    reveal(Seq::filter);
    if s.len() > 0 {
        lemma_patches_of_filter(s.drop_last(), package_id);
    }
}

/// The patches listed for a package are the patches whose package is that
/// one, in their stored order: each listed patch is a stored patch of that
/// package, and each stored patch of that package is listed.
pub proof fn law_patches_of_package(s: Seq<PatchView>, package_id: i32)
    ensures
        patches_of(s, package_id) == s.filter(|q: PatchView| q.package_id == package_id),
        forall|k: int| 0 <= k < patches_of(s, package_id).len() ==> {
            &&& (#[trigger] patches_of(s, package_id)[k]).package_id == package_id
            &&& s.contains(patches_of(s, package_id)[k])
        },
        forall|j: int| 0 <= j < s.len() && s[j].package_id == package_id
            ==> #[trigger] patches_of(s, package_id).contains(s[j]),
        patches_of(s, package_id).len() <= s.len(),
{
    lemma_patches_of_filter(s, package_id);
    lemma_patches_of_members(s, package_id);
}

proof fn lemma_patches_of_members(s: Seq<PatchView>, package_id: i32)
    ensures
        forall|k: int| 0 <= k < patches_of(s, package_id).len() ==> {
            &&& (#[trigger] patches_of(s, package_id)[k]).package_id == package_id
            &&& s.contains(patches_of(s, package_id)[k])
        },
        forall|j: int| 0 <= j < s.len() && s[j].package_id == package_id
            ==> #[trigger] patches_of(s, package_id).contains(s[j]),
        patches_of(s, package_id).len() <= s.len(),
    decreases s.len(),
{
    if s.len() > 0 {
        let init = s.drop_last();
        lemma_patches_of_members(init, package_id);
        let r0 = patches_of(init, package_id);
        let r = patches_of(s, package_id);
        assert forall|k: int| 0 <= k < r.len() implies {
            &&& (#[trigger] r[k]).package_id == package_id
            &&& s.contains(r[k])
        } by {
            if k < r0.len() {
                assert(r[k] == r0[k]);
                let w = choose|w: int| 0 <= w < init.len() && init[w] == r0[k];
                assert(s[w] == init[w]);
            } else {
                assert(r[k] == s.last());
                assert(s[s.len() - 1] == s.last());
            }
        }
        assert forall|j: int| 0 <= j < s.len() && s[j].package_id == package_id implies #[trigger] r.contains(s[j]) by {
            if j < s.len() - 1 {
                assert(init[j] == s[j]);
                assert(r0.contains(init[j]));
                let w = choose|w: int| 0 <= w < r0.len() && r0[w] == init[j];
                assert(r[w] == r0[w]);
            } else {
                assert(r[r.len() - 1] == s.last());
            }
        }
    }
}

/// The job built for a package carries that package's id, name, pre-build
/// command and last built version, and the given patches' urls and
/// checksums in their order.
pub proof fn law_job_carries_package(p: PackageView, patches: Seq<PatchView>)
    ensures
        expected_job(p, patches).package_id == p.id,
        expected_job(p, patches).name == p.name,
        expected_job(p, patches).run_before == p.run_before,
        expected_job(p, patches).last_built_version == p.last_built_version,
        expected_job(p, patches).patches is Some,
        expected_job(p, patches).patches->0.len() == patches.len(),
        forall|k: int| 0 <= k < patches.len() ==>
            #[trigger] expected_job(p, patches).patches->0[k] == (patches[k].url, patches[k].sha_512),
{
}

proof fn lemma_matching_members(s: Seq<PackageView>, pattern: Seq<char>)
    ensures
        packages_matching(s, pattern) == s.filter(|q: PackageView| like(pattern, q.name)),
        forall|k: int| 0 <= k < packages_matching(s, pattern).len() ==> {
            &&& like(pattern, (#[trigger] packages_matching(s, pattern)[k]).name)
            &&& s.contains(packages_matching(s, pattern)[k])
        },
        forall|j: int| 0 <= j < s.len() && like(pattern, s[j].name)
            ==> #[trigger] packages_matching(s, pattern).contains(s[j]),
    decreases s.len(),
{
    reveal(Seq::filter);
    if s.len() > 0 {
        let init = s.drop_last();
        lemma_matching_members(init, pattern);
        let r0 = packages_matching(init, pattern);
        let r = packages_matching(s, pattern);
        assert forall|k: int| 0 <= k < r.len() implies {
            &&& like(pattern, (#[trigger] r[k]).name)
            &&& s.contains(r[k])
        } by {
            if k < r0.len() {
                assert(r[k] == r0[k]);
                let w = choose|w: int| 0 <= w < init.len() && init[w] == r0[k];
                assert(s[w] == init[w]);
            } else {
                assert(r[k] == s.last());
                assert(s[s.len() - 1] == s.last());
            }
        }
        assert forall|j: int| 0 <= j < s.len() && like(pattern, s[j].name) implies #[trigger] r.contains(s[j]) by {
            if j < s.len() - 1 {
                assert(init[j] == s[j]);
                assert(r0.contains(init[j]));
                let w = choose|w: int| 0 <= w < r0.len() && r0[w] == init[j];
                assert(r[w] == r0[w]);
            } else {
                assert(r[r.len() - 1] == s.last());
            }
        }
    }
}

/// A name search lists, in stored order, exactly the packages whose name
/// matches the search pattern; so every package whose name contains the
/// query is listed, and every listed package is a stored one.
pub proof fn law_search_lists_names_containing(s: Seq<PackageView>, query: Seq<char>)
    ensures
        packages_matching(s, search_pattern(query)) == s.filter(|q: PackageView| like(search_pattern(query), q.name)),
        forall|k: int| 0 <= k < packages_matching(s, search_pattern(query)).len()
            ==> s.contains(#[trigger] packages_matching(s, search_pattern(query))[k]),
        forall|j: int, before: Seq<char>, after: Seq<char>|
            #![trigger packages_matching(s, search_pattern(query)).contains(s[j]), before + query + after]
            0 <= j < s.len() && s[j].name == before + query + after
            ==> packages_matching(s, search_pattern(query)).contains(s[j]),
{
    lemma_matching_members(s, search_pattern(query));
    assert forall|j: int, before: Seq<char>, after: Seq<char>|
        #![trigger packages_matching(s, search_pattern(query)).contains(s[j]), before + query + after]
        0 <= j < s.len() && s[j].name == before + query + after
        implies packages_matching(s, search_pattern(query)).contains(s[j]) by {
        law_search_finds_substring(query, before, after);
    }
}

} // verus!
