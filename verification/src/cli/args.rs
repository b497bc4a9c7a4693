use vstd::prelude::*;
use crate::cli::profile::{profile_named, ProfileConfig, ProfileView};

verus! {

/// The client's command line.
pub struct Args {
    pub base_url: Option<String>,
    pub api_key: Option<String>,
    pub profile: Option<String>,
    pub command: Commands,
}

/// The client's commands.
#[allow(inconsistent_fields)]
pub enum Commands {
    Workers { command: WorkerCommands },
    Packages { command: PackageCommands },
    Patches { command: PatchCommands },
    Logs { package: String },
    Webhooks { command: WebhookCommands },
    Profiles { command: ProfileCommands },
}

pub enum WorkerCommands {
    List {},
    Evict { id: usize },
}

#[allow(inconsistent_fields)]
pub enum PackageCommands {
    List { compact: bool },
    Get { name: String },
    Add { name: Option<String>, run_before: Option<String> },
    Remove { name: String },
    Rebuild { packages: Vec<String>, force: bool },
}

#[allow(inconsistent_fields)]
pub enum PatchCommands {
    List { package_name: String },
    Add { package_name: String, url: String, sha_512: Option<String> },
    Remove { package_name: String, id: i32 },
}

pub enum WebhookCommands {
    Trigger {},
}

pub enum ProfileCommands {
    List {},
    Create {},
    Delete { name: String },
    SetDefault { name: String },
}

/// Where and how the client connects.
pub struct Connection {
    pub base_url: String,
    pub api_key: String,
    /// The profile used, when the command line did not give both the URL and the key.
    pub profile_name: Option<String>,
}

/// Why no connection could be chosen.
pub enum ConnectionError {
    /// The named profile does not exist.
    ProfileNotFound { name: String },
    /// No profile is the default one.
    NoDefaultProfile,
}

/// The connection the client uses: the URL and key given on the command
/// line when both are; else the named profile, or the default profile when
/// none is named.
pub open spec fn chosen_profile(
    base_url: Option<Seq<char>>,
    api_key: Option<Seq<char>>,
    profile: Option<Seq<char>>,
    profiles: Seq<ProfileView>,
    default: Seq<char>,
) -> Option<ProfileView> {
    match profile {
        Some(name) => profile_named(profiles, name),
        None => profile_named(profiles, default),
    }
}

/// Chooses where the client connects; see `chosen_profile`.
pub fn choose_connection(args: &Args, config: &ProfileConfig) -> (r: Result<Connection, ConnectionError>)
    ensures
        args.base_url is Some && args.api_key is Some ==> r is Ok && r->Ok_0.base_url@ == args.base_url->0@
            && r->Ok_0.api_key@ == args.api_key->0@ && r->Ok_0.profile_name is None,
        !(args.base_url is Some && args.api_key is Some) ==> match chosen_profile(args.base_url.deep_view(),
            args.api_key.deep_view(), args.profile.deep_view(), config@.profiles, config@.default) {
            Some(p) => r is Ok && r->Ok_0.base_url@ == p.base_url && r->Ok_0.api_key@ == p.api_key
                && r->Ok_0.profile_name is Some && r->Ok_0.profile_name->0@ == p.name,
            None => r is Err && match args.profile {
                Some(n) => r->Err_0 matches ConnectionError::ProfileNotFound { name } && name@ == n@,
                None => r->Err_0 matches ConnectionError::NoDefaultProfile,
            },
        },
{
    match (&args.base_url, &args.api_key) {
        (Some(url), Some(key)) => {
            return Ok(Connection { base_url: url.clone(), api_key: key.clone(), profile_name: None });
        },
        _ => {},
    }
    let profile = match &args.profile {
        Some(name) => match config.get_profile_by_name(name) {
            Some(p) => p,
            None => return Err(ConnectionError::ProfileNotFound { name: name.clone() }),
        },
        None => match config.get_default_profile() {
            Some(p) => p,
            None => return Err(ConnectionError::NoDefaultProfile),
        },
    };
    Ok(Connection {
        base_url: profile.base_url.clone(),
        api_key: profile.api_key.clone(),
        profile_name: Some(profile.name.clone()),
    })
}

} // verus!
