use vstd::prelude::*;
use crate::server::package_store::{Package, PackageStore, PackageView, StoreView};
use crate::server::repo::{join_path, path_in};
use crate::server::text::{chars_of, str_eq};

verus! {

/// Answer of a request that only succeeds or fails.
pub struct SuccessResponse {
    pub success: bool,
}

impl SuccessResponse {
    pub fn from(success: bool) -> (r: SuccessResponse)
        ensures
            r.success == success,
    {
        SuccessResponse { success }
    }
}

/// Body of an error answer.
pub struct ErrorResponse {
    pub message: String,
}

/// An error answer: its message and its HTTP status code.
#[derive(Debug)]
pub struct HttpError {
    pub message: String,
    pub status_code: u16,
}

impl HttpError {
    pub fn new(message: String, status_code: u16) -> (e: HttpError)
        ensures
            e.message == message,
            e.status_code == status_code,
    {
        HttpError { message, status_code }
    }

    /// The answer for a missing resource: "Not Found", code 404.
    pub fn not_found() -> (e: HttpError)
        ensures
            e.message@ == "Not Found"@,
            e.status_code == 404,
    {
        HttpError { message: String::from_str("Not Found"), status_code: 404 }
    }

    /// The answer for a rejected request: "Bad request", code 400.
    pub fn bad_request() -> (e: HttpError)
        ensures
            e.message@ == "Bad request"@,
            e.status_code == 400,
    {
        HttpError { message: String::from_str("Bad request"), status_code: 400 }
    }

    /// The answer for an internal failure with its message, code 500.
    pub fn internal(message: String) -> (e: HttpError)
        ensures
            e.message == message,
            e.status_code == 500,
    {
        HttpError { message, status_code: 500 }
    }

    /// The body of the answer.
    pub fn error_response(&self) -> (r: ErrorResponse)
        ensures
            r.message@ == self.message@,
    {
        ErrorResponse { message: self.message.clone() }
    }
}

/// Checks the API key that clients present in the `Authorization` header.
pub struct Auth {
    api_key: String,
}

impl Auth {
    pub fn new(api_key: String) -> (a: Auth)
        ensures
            a.key()@ == api_key@,
    {
        Auth { api_key }
    }

    pub closed spec fn key(&self) -> String {
        self.api_key
    }

    /// The check as it runs in front of the routes.
    pub fn new_transform(&self) -> (m: AuthMiddleware)
        ensures
            m.key()@ == self.key()@,
    {
        AuthMiddleware { api_key: self.api_key.clone() }
    }

    /// Whether a request with this `Authorization` header (its bytes) may
    /// pass: only a header equal to the API key does.
    pub fn is_authorized(&self, header: Option<&[u8]>) -> (r: bool)
        ensures
            r == match header {
                Some(h) => h@ == utf8_bytes(self.key()@),
                None => false,
            },
    {
        match header {
            None => false,
            Some(h) => {
                let key = self.api_key.as_str().as_bytes();
                bytes_eq(h, key)
            },
        }
    }
}

/// The API key check in front of the routes: a request passes only with an
/// `Authorization` header equal to the key, and is answered `Unauthorized`
/// otherwise.
pub struct AuthMiddleware {
    api_key: String,
}

impl AuthMiddleware {
    pub closed spec fn key(&self) -> String {
        self.api_key
    }

    /// Whether the request with this `Authorization` header goes through.
    pub fn call(&self, header: Option<&[u8]>) -> (r: bool)
        ensures
            r == match header {
                Some(h) => h@ == utf8_bytes(self.key()@),
                None => false,
            },
    {
        match header {
            None => false,
            Some(h) => bytes_eq(h, self.api_key.as_str().as_bytes()),
        }
    }
}

/// The UTF-8 bytes of a string.
pub open spec fn utf8_bytes(s: Seq<char>) -> Seq<u8> {
    vstd::utf8::encode_utf8(s)
}

/// Whether two byte strings are equal.
pub fn bytes_eq(a: &[u8], b: &[u8]) -> (r: bool)
    ensures
        r == (a@ == b@),
{
    if a.len() != b.len() {
        return false;
    }
    let mut i: usize = 0;
    while i < a.len()
        invariant
            a@.len() == b@.len(),
            i <= a.len(),
            forall|k: int| 0 <= k < i ==> a@[k] == b@[k],
        decreases a.len() - i,
    {
        if a[i] != b[i] {
            return false;
        }
        i = i + 1;
    }
    assert(a@ =~= b@);
    true
}

/// Whether a `..` component starts at position `i` of a `/`-separated path.
pub open spec fn parent_at(p: Seq<char>, i: int) -> bool {
    &&& 0 <= i
    &&& i + 1 < p.len()
    &&& (i == 0 || p[i - 1] == '/')
    &&& p[i] == '.'
    &&& p[i + 1] == '.'
    &&& (i + 2 == p.len() || p[i + 2] == '/')
}

/// Whether a `/`-separated path has a `..` part, that is a component that
/// climbs to the parent directory.
pub open spec fn has_parent_component(p: Seq<char>) -> bool {
    exists|i: int| #[trigger] parent_at(p, i)
}

/// Whether the path has a component that climbs to the parent directory;
/// such a path to a log file is refused.
pub fn has_parent_dir(path: &str) -> (r: bool)
    ensures
        r == has_parent_component(path@),
{
    let p = chars_of(path);
    let n = p.len();
    let mut i: usize = 0;
    while i < n
        invariant
            p@ == path@,
            n == p.len(),
            i <= n,
            forall|k: int| 0 <= k < i ==> !#[trigger] parent_at(path@, k),
        decreases n - i,
    {
        if i + 1 < n && (i == 0 || p[i - 1] == '/') && p[i] == '.' && p[i + 1] == '.' && (i + 2 == n || p[i + 2] == '/') {
            assert(parent_at(path@, i as int));
            return true;
        }
        i = i + 1;
    }
    assert forall|k: int| !#[trigger] parent_at(path@, k) by {
        if 0 <= k < n {
        }
    }
    false
}

/// The name of a package's build log: the package name and `.log`.
pub fn log_file_name(package_name: &str) -> (r: String)
    ensures
        r@ == package_name@ + ".log"@,
{
    let s = String::from_str(package_name);
    s.concat(".log")
}

/// Where the build log of the package with the name is read: in the logs
/// directory, under the package name and `.log`. Without such a package the
/// answer is `Not Found` (404); a path that climbs to a parent directory is
/// refused with `Bad request` (400) and no file is read.
pub fn package_log_path(package_name: Option<&String>, logs_dir: &str) -> (r: Result<String, HttpError>)
    ensures
        package_name is None ==> r is Err && r->Err_0.status_code == 404 && r->Err_0.message@ == "Not Found"@,
        package_name matches Some(n) ==> {
            let path = path_in(logs_dir@, n@ + ".log"@);
            if has_parent_component(path) {
                r is Err && r->Err_0.status_code == 400 && r->Err_0.message@ == "Bad request"@
            } else {
                r is Ok && r->Ok_0@ == path
            }
        },
{
    match package_name {
        None => Err(HttpError::not_found()),
        Some(name) => {
            let file = log_file_name(name.as_str());
            let path = join_path(logs_dir, file.as_str());
            if has_parent_dir(path.as_str()) {
                Err(HttpError::bad_request())
            } else {
                Ok(path)
            }
        },
    }
}

/// The version a worker reports: an empty one means none was built.
pub fn parse_built_version(version: String) -> (r: Option<String>)
    ensures
        version@.len() == 0 ==> r is None,
        version@.len() > 0 ==> r is Some && r->0 == version,
{
    if version.as_str().unicode_len() == 0 {
        None
    } else {
        Some(version)
    }
}

/// Changes the command run before building the package with the id;
/// answers the updated package, or `Not Found` when no package has the id.
pub fn patch_package(store: &mut PackageStore, id: i32, run_before: Option<String>) -> (r: Result<Package, HttpError>)
    requires
        old(store).wf(),
    ensures
        final(store).wf(),
        match old(store)@.lookup(id) {
            Some(p) => {
                let row = PackageView { run_before: run_before.deep_view(), ..p };
                &&& r is Ok
                &&& r->Ok_0@ == row
                &&& final(store)@ == old(store)@.update(row)
            },
            None => r is Err && r->Err_0.status_code == 404 && final(store)@ == old(store)@,
        },
{
    match store.get_package(id) {
        Some(mut package) => {
            proof {
                let v = old(store)@;
                let w = v.package_index(id);
                assert(v.packages[w].id == id);
            }
            package.set_run_before(run_before);
            let _ = store.update_package(&package);
            Ok(package)
        },
        None => Err(HttpError::not_found()),
    }
}

} // verus!
