use vstd::prelude::*;
use crate::server::config::Config;
use crate::server::text::{chars_of, str_eq};

verus! {

/// Whether the text ends with the suffix.
pub open spec fn ends_with(s: Seq<char>, suffix: Seq<char>) -> bool {
    s.len() >= suffix.len() && s.subrange(s.len() - suffix.len(), s.len() as int) == suffix
}

/// Whether the text ends with the suffix.
pub fn str_ends_with(s: &str, suffix: &str) -> (r: bool)
    ensures
        r == ends_with(s@, suffix@),
{
    let a = chars_of(s);
    let b = chars_of(suffix);
    if a.len() < b.len() {
        return false;
    }
    let off = a.len() - b.len();
    let mut i: usize = 0;
    while i < b.len()
        invariant
            a@ == s@,
            b@ == suffix@,
            off == a.len() - b.len(),
            i <= b.len(),
            forall|k: int| 0 <= k < i ==> a@[off + k] == b@[k],
        decreases b.len() - i,
    {
        if a[off + i] != b[i] {
            assert(s@.subrange(s@.len() - suffix@.len(), s@.len() as int)[i as int] != suffix@[i as int]);
            return false;
        }
        i = i + 1;
    }
    assert(s@.subrange(s@.len() - suffix@.len(), s@.len() as int) =~= suffix@);
    true
}

/// Whether a file name is that of a built package.
pub open spec fn is_package_file(name: Seq<char>) -> bool {
    ends_with(name, ".pkg.tar.zst"@)
}

/// Whether a file name is that of a detached signature.
pub open spec fn is_signature_file(name: Seq<char>) -> bool {
    ends_with(name, ".sig"@)
}

/// The package files among the names of a directory's entries, in order.
pub open spec fn package_files_of(names: Seq<Seq<char>>) -> Seq<Seq<char>>
    decreases names.len(),
{
    if names.len() == 0 {
        Seq::empty()
    } else {
        let r = package_files_of(names.drop_last());
        if is_package_file(names.last()) {
            r.push(names.last())
        } else {
            r
        }
    }
}

/// Keeps, in order, the names that are package files.
pub fn filter_package_files(names: &Vec<String>) -> (r: Vec<String>)
    ensures
        r.deep_view() == package_files_of(names.deep_view()),
{
    let mut r: Vec<String> = Vec::new();
    let mut i: usize = 0;
    while i < names.len()
        invariant
            i <= names.len(),
            r.deep_view() == package_files_of(names.deep_view().subrange(0, i as int)),
        decreases names.len() - i,
    {
        let ghost before = r.deep_view();
        let ghost sub = names.deep_view().subrange(0, i as int + 1);
        assert(sub.drop_last() =~= names.deep_view().subrange(0, i as int));
        assert(sub.last() == names@[i as int]@);
        if str_ends_with(names[i].as_str(), ".pkg.tar.zst") {
            proof { reveal_strlit(".pkg.tar.zst"); }
            r.push(names[i].clone());
            assert(r.deep_view() =~= before.push(names@[i as int]@));
        } else {
            proof { reveal_strlit(".pkg.tar.zst"); }
        }
        i = i + 1;
    }
    assert(names.deep_view().subrange(0, i as int) =~= names.deep_view());
    r
}

/// Whether a directory entry goes when the repository is set to the listed
/// packages: every signature does, and every package file not listed.
pub open spec fn should_clean(name: Seq<char>, packages: Seq<Seq<char>>) -> bool {
    is_signature_file(name) || (is_package_file(name) && !packages.contains(name))
}

/// Whether the listed names hold the name.
fn contains_name(names: &Vec<String>, name: &str) -> (r: bool)
    ensures
        r == names.deep_view().contains(name@),
{
    let mut i: usize = 0;
    while i < names.len()
        invariant
            i <= names.len(),
            forall|k: int| 0 <= k < i ==> names@[k]@ != name@,
        decreases names.len() - i,
    {
        if str_eq(names[i].as_str(), name) {
            assert(names.deep_view()[i as int] == name@);
            return true;
        }
        i = i + 1;
    }
    assert forall|k: int| 0 <= k < names.deep_view().len() implies names.deep_view()[k] != name@ by {
        assert(names.deep_view()[k] == names@[k]@);
    }
    false
}

/// Decides whether a directory entry goes; see `should_clean`.
pub fn clean_entry(file_name: &str, packages: &Vec<String>) -> (r: bool)
    ensures
        r == should_clean(file_name@, packages.deep_view()),
{
    proof {
        reveal_strlit(".sig");
        reveal_strlit(".pkg.tar.zst");
    }
    if str_ends_with(file_name, ".sig") {
        return true;
    }
    str_ends_with(file_name, ".pkg.tar.zst") && !contains_name(packages, file_name)
}

/// The arguments of `repo-add` for the files: remove old versions, verify
/// and sign the database when a key is set, then the database name and the
/// files.
pub open spec fn repo_add_arguments(repo_name: Seq<char>, sign_key: Option<Seq<char>>, files: Seq<Seq<char>>) -> Seq<Seq<char>> {
    let head = match sign_key {
        Some(k) => seq!["--remove"@, "--verify"@, "--sign"@, "--key"@, k],
        None => seq!["--remove"@],
    };
    head + seq![repo_name + ".db.tar.gz"@] + files
}

/// Builds the arguments of `repo-add`; see `repo_add_arguments`.
pub fn repo_add_args(repo_name: &str, sign_key: &Option<String>, package_files: &Vec<String>) -> (r: Vec<String>)
    ensures
        r.deep_view() == repo_add_arguments(repo_name@, sign_key.deep_view(), package_files.deep_view()),
{
    let mut r: Vec<String> = Vec::new();
    r.push(String::from_str("--remove"));
    match sign_key {
        Some(k) => {
            r.push(String::from_str("--verify"));
            r.push(String::from_str("--sign"));
            r.push(String::from_str("--key"));
            r.push(k.clone());
        },
        None => {},
    }
    r.push(String::from_str(repo_name).concat(".db.tar.gz"));
    let ghost head = r.deep_view();
    let mut i: usize = 0;
    while i < package_files.len()
        invariant
            i <= package_files.len(),
            r.deep_view() == head + package_files.deep_view().subrange(0, i as int),
        decreases package_files.len() - i,
    {
        let ghost before = r.deep_view();
        r.push(package_files[i].clone());
        assert(r.deep_view() =~= before.push(package_files@[i as int]@));
        assert(package_files.deep_view().subrange(0, i as int + 1)
            =~= package_files.deep_view().subrange(0, i as int).push(package_files@[i as int]@));
        i = i + 1;
        assert(r.deep_view() =~= head + package_files.deep_view().subrange(0, i as int));
    }
    assert(package_files.deep_view().subrange(0, i as int) =~= package_files.deep_view());
    assert(r.deep_view() =~= repo_add_arguments(repo_name@, sign_key.deep_view(), package_files.deep_view()));
    r
}

/// The name of the detached signature of a file.
pub fn signature_file_name(file: &str) -> (r: String)
    ensures
        r@ == file@ + ".sig"@,
{
    String::from_str(file).concat(".sig")
}

/// The path of a file in a directory, joined as `Path::join` does on Unix:
/// an absolute file path stands alone; otherwise a `/` goes between the two
/// unless the directory is empty or already ends with one.
pub open spec fn path_in(dir: Seq<char>, file: Seq<char>) -> Seq<char> {
    if file.len() > 0 && file[0] == '/' {
        file
    } else if dir.len() > 0 && dir.last() != '/' {
        dir + "/"@ + file
    } else {
        dir + file
    }
}

/// Builds the path of a file in a directory; see `path_in`.
pub fn join_path(dir: &str, file: &str) -> (r: String)
    ensures
        r@ == path_in(dir@, file@),
{
    let file_len = file.unicode_len();
    let dir_len = dir.unicode_len();
    if file_len > 0 && file.get_char(0) == '/' {
        String::from_str(file)
    } else if dir_len > 0 && dir.get_char(dir_len - 1) != '/' {
        String::from_str(dir).concat("/").concat(file)
    } else {
        String::from_str(dir).concat(file)
    }
}

/// The arguments of `gpg` that write the detached signature of a file in
/// the directory with the key.
pub open spec fn gpg_arguments(key: Seq<char>, dir: Seq<char>, file: Seq<char>) -> Seq<Seq<char>> {
    seq!["--default-key"@, key, "--yes"@, "--output"@, path_in(dir, file + ".sig"@), "--detach-sig"@, path_in(dir, file)]
}

/// Builds the arguments of `gpg` that sign a file; see `gpg_arguments`.
pub fn gpg_sign_args(key: &str, dir: &str, file: &str) -> (r: Vec<String>)
    ensures
        r.deep_view() == gpg_arguments(key@, dir@, file@),
{
    let sig = signature_file_name(file);
    let mut r: Vec<String> = Vec::new();
    r.push(String::from_str("--default-key"));
    r.push(String::from_str(key));
    r.push(String::from_str("--yes"));
    r.push(String::from_str("--output"));
    r.push(join_path(dir, sig.as_str()));
    r.push(String::from_str("--detach-sig"));
    r.push(join_path(dir, file));
    assert(r.deep_view() =~= gpg_arguments(key@, dir@, file@));
    r
}

/// What happens to one package file before it is added to the repository:
/// it is signed by running `gpg` with the arguments, or its old signature,
/// at the path, is deleted if there is one.
pub enum SignStep {
    Sign(Vec<String>),
    DropSignature(String),
}

/// A signing step as plain values.
pub enum SignStepView {
    Sign(Seq<Seq<char>>),
    DropSignature(Seq<char>),
}

/// The plain values of a signing step.
pub open spec fn sign_step_view(s: SignStep) -> SignStepView {
    match s {
        SignStep::Sign(args) => SignStepView::Sign(args.deep_view()),
        SignStep::DropSignature(path) => SignStepView::DropSignature(path@),
    }
}

/// With a key a file is signed; without one its stale signature is dropped.
pub open spec fn sign_step_for(sign_key: Option<Seq<char>>, dir: Seq<char>, file: Seq<char>) -> SignStepView {
    match sign_key {
        Some(k) => SignStepView::Sign(gpg_arguments(k, dir, file)),
        None => SignStepView::DropSignature(path_in(dir, file + ".sig"@)),
    }
}

/// The repository that `repo-add` maintains in a directory.
pub struct RepositoryManager {
    pub repo_name: String,
    pub sign_key: Option<String>,
    pub path: String,
}

impl RepositoryManager {
    pub fn new(repo_name: String, sign_key: Option<String>, path: String) -> (m: RepositoryManager)
        ensures
            m.repo_name == repo_name,
            m.sign_key == sign_key,
            m.path == path,
    {
        RepositoryManager { repo_name, sign_key, path }
    }

    pub fn from_config(config: &Config) -> (m: RepositoryManager)
        ensures
            m.repo_name@ == config.repo_name@,
            m.sign_key.deep_view() == config.sign_key.deep_view(),
            m.path@ == config.serve_path@,
    {
        RepositoryManager {
            repo_name: config.repo_name.clone(),
            sign_key: crate::server::text::clone_opt_string(&config.sign_key),
            path: config.serve_path.clone(),
        }
    }

    /// For each file, in order, what to do about its signature before the
    /// files are added: sign it with the key, or, without a key, drop the
    /// signature a former key left; see `sign_step_for`.
    pub fn signing_steps(&self, package_files: &Vec<String>) -> (r: Vec<SignStep>)
        ensures
            r.len() == package_files.len(),
            forall|i: int| 0 <= i < r.len() ==> sign_step_view(#[trigger] r@[i])
                == sign_step_for(self.sign_key.deep_view(), self.path@, package_files@[i]@),
    {
        let mut r: Vec<SignStep> = Vec::new();
        let mut i: usize = 0;
        while i < package_files.len()
            invariant
                i <= package_files.len(),
                r.len() == i,
                forall|k: int| 0 <= k < i ==> sign_step_view(#[trigger] r@[k])
                    == sign_step_for(self.sign_key.deep_view(), self.path@, package_files@[k]@),
            decreases package_files.len() - i,
        {
            let file = package_files[i].as_str();
            let step = match &self.sign_key {
                Some(key) => SignStep::Sign(gpg_sign_args(key.as_str(), self.path.as_str(), file)),
                None => {
                    let sig = signature_file_name(file);
                    SignStep::DropSignature(join_path(self.path.as_str(), sig.as_str()))
                },
            };
            r.push(step);
            i = i + 1;
        }
        r
    }

    /// The `repo-add` arguments for the files, or nothing to run when there
    /// are no files.
    pub fn repo_add_command(&self, package_files: &Vec<String>) -> (r: Option<Vec<String>>)
        ensures
            package_files.len() == 0 ==> r is None,
            package_files.len() > 0 ==> r is Some && r->0.deep_view()
                == repo_add_arguments(self.repo_name@, self.sign_key.deep_view(), package_files.deep_view()),
    {
        if package_files.len() == 0 {
            return None;
        }
        Some(repo_add_args(self.repo_name.as_str(), &self.sign_key, package_files))
    }
}

/// The served repository, set up from the configuration.
pub struct Repo {
    pub repo_name: String,
    pub sign_key: Option<String>,
    pub path: String,
}

impl Repo {
    pub fn new(repo_name: String, sign_key: Option<String>, path: String) -> (r: Repo)
        ensures
            r.repo_name == repo_name,
            r.sign_key == sign_key,
            r.path == path,
    {
        Repo { repo_name, sign_key, path }
    }

    pub fn from_config(config: &Config) -> (r: Repo)
        ensures
            r.repo_name@ == config.repo_name@,
            r.sign_key.deep_view() == config.sign_key.deep_view(),
            r.path@ == config.serve_path@,
    {
        Repo::new(config.repo_name.clone(), crate::server::text::clone_opt_string(&config.sign_key), config.serve_path.clone())
    }

    /// The `repo-add` arguments: the given files, or, when none are given,
    /// the package files found in the repository's directory.
    pub fn build_repo_args(&self, package_files: Vec<String>, directory_entries: &Vec<String>) -> (r: Vec<String>)
        ensures
            package_files.len() > 0 ==> r.deep_view()
                == repo_add_arguments(self.repo_name@, self.sign_key.deep_view(), package_files.deep_view()),
            package_files.len() == 0 ==> r.deep_view()
                == repo_add_arguments(self.repo_name@, self.sign_key.deep_view(), package_files_of(directory_entries.deep_view())),
    {
        let files = if package_files.len() == 0 { filter_package_files(directory_entries) } else { package_files };
        repo_add_args(self.repo_name.as_str(), &self.sign_key, &files)
    }
}

} // verus!
