use vstd::prelude::*;
use crate::common::payloads::PackageRebuildPayload;
use crate::common::responses::PackageResponse;

verus! {

/// Why a package name did not single out one package.
pub enum PackageLookupError {
    /// Several packages match; their names, in the order found.
    Ambiguous { names: Vec<String> },
    /// No package matches.
    NotFound,
}

/// The one package a name search found: refused when it found several or none.
pub fn select_single_package(found: Vec<PackageResponse>) -> (r: Result<PackageResponse, PackageLookupError>)
    ensures
        found.len() == 1 ==> r is Ok && r->Ok_0 == found@[0],
        found.len() == 0 ==> r matches Err(PackageLookupError::NotFound),
        found.len() > 1 ==> (r matches Err(PackageLookupError::Ambiguous { names })
            && names.len() == found.len()
            && forall|k: int| 0 <= k < found.len() ==> (#[trigger] names@[k])@ == found@[k].name@),
{
    let mut found = found;
    if found.len() > 1 {
        let mut names: Vec<String> = Vec::new();
        let mut i: usize = 0;
        while i < found.len()
            invariant
                i <= found.len(),
                names.len() == i,
                forall|k: int| 0 <= k < i ==> (#[trigger] names@[k])@ == found@[k].name@,
            decreases found.len() - i,
        {
            names.push(found[i].name.clone());
            i = i + 1;
        }
        return Err(PackageLookupError::Ambiguous { names });
    } else if found.len() == 0 {
        return Err(PackageLookupError::NotFound);
    }
    Ok(found.remove(0))
}

/// One step of resolving the names of packages to rebuild: the search for
/// a name found what is given; when it singles out one package its id is
/// added after those already resolved, else the ids stay and the refusal
/// comes back (the client then stops, rebuilding nothing).
pub fn push_rebuild_target(ids: &mut Vec<i32>, found: Vec<PackageResponse>) -> (r: Result<(), PackageLookupError>)
    ensures
        found.len() == 1 ==> r is Ok && final(ids)@ == old(ids)@.push(found@[0].id),
        found.len() == 0 ==> (r matches Err(PackageLookupError::NotFound)) && final(ids)@ == old(ids)@,
        found.len() > 1 ==> (r matches Err(PackageLookupError::Ambiguous { names })
            && names.len() == found.len()
            && forall|k: int| 0 <= k < found.len() ==> (#[trigger] names@[k])@ == found@[k].name@)
            && final(ids)@ == old(ids)@,
{
    match select_single_package(found) {
        Ok(p) => {
            ids.push(p.id);
            Ok(())
        },
        Err(e) => Err(e),
    }
}

/// The body of a rebuild request: an empty list asks for every package.
pub fn rebuild_payload(packages: Vec<i32>, force: bool) -> (p: PackageRebuildPayload)
    ensures
        packages.len() == 0 ==> p.packages is None,
        packages.len() > 0 ==> p.packages == Some(packages),
        p.force == Some(force),
{
    let packages = if packages.len() == 0 { None } else { Some(packages) };
    PackageRebuildPayload { packages, force: Some(force) }
}

/// The texts joined with the separator between each two.
pub open spec fn joined(texts: Seq<Seq<char>>, sep: Seq<char>) -> Seq<char>
    decreases texts.len(),
{
    if texts.len() == 0 {
        Seq::empty()
    } else if texts.len() == 1 {
        texts[0]
    } else {
        joined(texts.drop_last(), sep) + sep + texts.last()
    }
}

/// Joins the texts with the separator; see `joined`.
pub fn join_strings(texts: &Vec<String>, sep: &str) -> (r: String)
    ensures
        r@ == joined(texts.deep_view(), sep@),
{
    let ghost t = texts.deep_view();
    if texts.len() == 0 {
        return String::new();
    }
    let mut r = texts[0].clone();
    let mut i: usize = 1;
    assert(t.subrange(0, 1) =~= seq![t[0]]);
    while i < texts.len()
        invariant
            t == texts.deep_view(),
            1 <= i <= texts.len(),
            r@ == joined(t.subrange(0, i as int), sep@),
        decreases texts.len() - i,
    {
        assert(t.subrange(0, i as int + 1).drop_last() =~= t.subrange(0, i as int));
        r = r.concat(sep).concat(texts[i].as_str());
        i = i + 1;
    }
    assert(t.subrange(0, i as int) =~= t);
    r
}

/// The message shown when a name does not single out one package.
pub open spec fn lookup_error_text(e: PackageLookupError, package_name: Seq<char>) -> Seq<char> {
    match e {
        PackageLookupError::Ambiguous { names } =>
            "Package "@ + package_name + " is not clear, found: "@ + joined(names.deep_view(), ", "@),
        PackageLookupError::NotFound => "Package "@ + package_name + " not found"@,
    }
}

impl PackageLookupError {
    /// The message for the name searched; see `lookup_error_text`.
    pub fn message(&self, package_name: &str) -> (r: String)
        ensures
            r@ == lookup_error_text(*self, package_name@),
    {
        match self {
            PackageLookupError::Ambiguous { names } => {
                let list = join_strings(names, ", ");
                String::from_str("Package ").concat(package_name).concat(" is not clear, found: ").concat(list.as_str())
            },
            PackageLookupError::NotFound => {
                String::from_str("Package ").concat(package_name).concat(" not found")
            },
        }
    }
}

} // verus!
