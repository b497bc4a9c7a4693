use vstd::prelude::*;
use crate::server::text::str_eq;

verus! {

/// A server the client can talk to.
pub struct Profile {
    pub name: String,
    pub base_url: String,
    pub api_key: String,
}

/// A profile as plain values.
pub struct ProfileView {
    pub name: Seq<char>,
    pub base_url: Seq<char>,
    pub api_key: Seq<char>,
}

impl View for Profile {
    type V = ProfileView;

    open spec fn view(&self) -> ProfileView {
        ProfileView { name: self.name@, base_url: self.base_url@, api_key: self.api_key@ }
    }
}

/// Why a change to the profiles was refused.
#[derive(PartialEq, Eq, Structural, Clone, Copy, Debug)]
pub enum ProfileError {
    /// The profile to make the default does not exist.
    DoesNotExist,
    /// A profile with the name already exists.
    AlreadyExists,
    /// The profile to remove does not exist.
    NoSuchProfile,
}

/// The text of a refusal.
pub open spec fn profile_error_message(e: ProfileError) -> Seq<char> {
    match e {
        ProfileError::DoesNotExist => "Profile does not exist"@,
        ProfileError::AlreadyExists => "Profile already exists with this name"@,
        ProfileError::NoSuchProfile => "No profile exist with that name"@,
    }
}

impl ProfileError {
    pub fn message(&self) -> (m: &'static str)
        ensures
            m@ == profile_error_message(*self),
    {
        match self {
            ProfileError::DoesNotExist => {
                proof { reveal_strlit("Profile does not exist"); }
                "Profile does not exist"
            },
            ProfileError::AlreadyExists => {
                proof { reveal_strlit("Profile already exists with this name"); }
                "Profile already exists with this name"
            },
            ProfileError::NoSuchProfile => {
                proof { reveal_strlit("No profile exist with that name"); }
                "No profile exist with that name"
            },
        }
    }
}

/// The profiles of the client and the name of its default one.
pub struct ProfileConfig {
    default: String,
    profiles: Vec<Profile>,
}

/// The profiles as plain values.
pub struct ProfileConfigView {
    pub default: Seq<char>,
    pub profiles: Seq<ProfileView>,
}

/// The profiles' plain values.
pub open spec fn profiles_view(v: Seq<Profile>) -> Seq<ProfileView> {
    v.map_values(|p: Profile| p@)
}

impl View for ProfileConfig {
    type V = ProfileConfigView;

    closed spec fn view(&self) -> ProfileConfigView {
        ProfileConfigView { default: self.default@, profiles: profiles_view(self.profiles@) }
    }
}

/// The position of the first profile with the name.
pub open spec fn profile_index(ps: Seq<ProfileView>, name: Seq<char>) -> Option<int> {
    if exists|i: int| 0 <= i < ps.len() && ps[i].name == name {
        Some(choose|i: int| 0 <= i < ps.len() && ps[i].name == name && forall|j: int| 0 <= j < i ==> ps[j].name != name)
    } else {
        None
    }
}

/// The first profile with the name.
pub open spec fn profile_named(ps: Seq<ProfileView>, name: Seq<char>) -> Option<ProfileView> {
    match profile_index(ps, name) {
        Some(i) => Some(ps[i]),
        None => None,
    }
}

/// The profiles whose name differs from the given one, in order.
pub open spec fn without_name(ps: Seq<ProfileView>, name: Seq<char>) -> Seq<ProfileView>
    decreases ps.len(),
{
    if ps.len() == 0 {
        Seq::empty()
    } else {
        let r = without_name(ps.drop_last(), name);
        if ps.last().name == name {
            r
        } else {
            r.push(ps.last())
        }
    }
}

impl ProfileConfig {
    /// No profiles, and an empty default name.
    pub fn new() -> (c: ProfileConfig)
        ensures
            c@.default.len() == 0,
            c@.profiles.len() == 0,
    {
        let c = ProfileConfig { default: String::new(), profiles: Vec::new() };
        assert(c@.profiles =~= Seq::<ProfileView>::empty());
        c
    }

    /// Rebuilds the profiles from their parts (as the profile file holds them).
    pub fn from_parts(default: String, profiles: Vec<Profile>) -> (c: ProfileConfig)
        ensures
            c@.default == default@,
            c@.profiles == profiles_view(profiles@),
    {
        ProfileConfig { default, profiles }
    }

    pub fn get_default_profile_name(&self) -> (n: &String)
        ensures
            n@ == self@.default,
    {
        &self.default
    }

    fn position(&self, name: &str) -> (r: Option<usize>)
        ensures
            match r {
                Some(i) => profile_index(self@.profiles, name@) == Some(i as int) && i < self@.profiles.len(),
                None => profile_index(self@.profiles, name@) is None,
            },
    {
        let mut i: usize = 0;
        while i < self.profiles.len()
            invariant
                i <= self.profiles.len(),
                forall|k: int| 0 <= k < i ==> self@.profiles[k].name != name@,
            decreases self.profiles.len() - i,
        {
            if str_eq(self.profiles[i].name.as_str(), name) {
                proof {
                    let ps = self@.profiles;
                    assert(ps[i as int].name == name@);
                    let w = choose|w: int| 0 <= w < ps.len() && ps[w].name == name@ && forall|j: int| 0 <= j < w ==> ps[j].name != name@;
                    assert(0 <= w < ps.len() && ps[w].name == name@ && forall|j: int| 0 <= j < w ==> ps[j].name != name@);
                    assert(w == i);
                }
                return Some(i);
            }
            i = i + 1;
        }
        None
    }

    /// The first profile with the name.
    pub fn get_profile_by_name(&self, name: &String) -> (r: Option<&Profile>)
        ensures
            match r {
                Some(p) => profile_named(self@.profiles, name@) == Some(p@),
                None => profile_named(self@.profiles, name@) is None,
            },
    {
        match self.position(name.as_str()) {
            Some(i) => Some(&self.profiles[i]),
            None => None,
        }
    }

    /// The profile named as the default, if it exists.
    pub fn get_default_profile(&self) -> (r: Option<&Profile>)
        ensures
            match r {
                Some(p) => profile_named(self@.profiles, self@.default) == Some(p@),
                None => profile_named(self@.profiles, self@.default) is None,
            },
    {
        self.get_profile_by_name(&self.default)
    }

    /// Makes the named profile the default; refused when it does not exist.
    pub fn set_default_profile(&mut self, name: &String) -> (r: Result<(), ProfileError>)
        ensures
            match profile_named(old(self)@.profiles, name@) {
                Some(_) => r is Ok && final(self)@ == (ProfileConfigView { default: name@, ..old(self)@ }),
                None => r == Err::<(), ProfileError>(ProfileError::DoesNotExist) && final(self)@ == old(self)@,
            },
    {
        if self.get_profile_by_name(name).is_none() {
            return Err(ProfileError::DoesNotExist);
        }
        self.default = name.clone();
        Ok(())
    }

    /// Adds a profile; the first profile added becomes the default. Refused
    /// when a profile with the same name exists.
    pub fn add_profile(&mut self, profile: Profile) -> (r: Result<(), ProfileError>)
        ensures
            final(self)@.default == if old(self)@.profiles.len() == 0 { profile@.name } else { old(self)@.default },
            match profile_named(old(self)@.profiles, profile@.name) {
                Some(_) => r == Err::<(), ProfileError>(ProfileError::AlreadyExists)
                    && final(self)@.profiles == old(self)@.profiles,
                None => r is Ok && final(self)@.profiles == old(self)@.profiles.push(profile@),
            },
    {
        if self.profiles.len() == 0 {
            self.default = profile.name.clone();
        }
        if self.get_profile_by_name(&profile.name).is_some() {
            return Err(ProfileError::AlreadyExists);
        }
        let ghost before = self@.profiles;
        self.profiles.push(profile);
        assert(self@.profiles =~= before.push(profile@));
        Ok(())
    }

    /// Removes every profile with the name; refused when there is none. The
    /// default name is left as it is.
    pub fn remove_profile(&mut self, name: &String) -> (r: Result<(), ProfileError>)
        ensures
            final(self)@.default == old(self)@.default,
            match profile_named(old(self)@.profiles, name@) {
                Some(_) => r is Ok && final(self)@.profiles == without_name(old(self)@.profiles, name@),
                None => r == Err::<(), ProfileError>(ProfileError::NoSuchProfile) && final(self)@ == old(self)@,
            },
    {
        if self.get_profile_by_name(name).is_none() {
            return Err(ProfileError::NoSuchProfile);
        }
        let ghost before = self@.profiles;
        let mut old_profiles: Vec<Profile> = Vec::new();
        std::mem::swap(&mut old_profiles, &mut self.profiles);
        assert(profiles_view(old_profiles@) == before);
        let mut kept: Vec<Profile> = Vec::new();
        let mut rest: Vec<Profile> = Vec::new();
        // Move the profiles out back to front, then put the kept ones back in order.
        while old_profiles.len() > 0
            invariant
                profiles_view(old_profiles@) + profiles_view(rest@).reverse() == before,
            decreases old_profiles.len(),
        {
            let ghost o = profiles_view(old_profiles@);
            let ghost r = profiles_view(rest@);
            let p = old_profiles.pop().unwrap();
            rest.push(p);
            assert(profiles_view(rest@) =~= r.push(p@));
            assert(profiles_view(old_profiles@) =~= o.drop_last());
            assert(r.push(p@).reverse() =~= seq![p@] + r.reverse());
            assert(o.drop_last() + (seq![p@] + r.reverse()) =~= o + r.reverse());
        }
        assert(profiles_view(old_profiles@) =~= Seq::<ProfileView>::empty());
        assert(profiles_view(rest@).reverse() =~= before);
        let ghost n = before.len();
        while rest.len() > 0
            invariant
                n == before.len(),
                profiles_view(rest@).reverse() == before.subrange(n - rest.len(), n as int),
                rest.len() <= n,
                profiles_view(kept@) == without_name(before.subrange(0, n - rest.len()), name@),
            decreases rest.len(),
        {
            let ghost r = profiles_view(rest@);
            let ghost k = (n - rest.len()) as int;
            let ghost kv = profiles_view(kept@);
            let p = rest.pop().unwrap();
            assert(r.reverse()[0] == r.last());
            assert(before.subrange(k, n as int)[0] == before[k]);
            assert(p@ == before[k]);
            assert(profiles_view(rest@) =~= r.drop_last());
            assert(r.drop_last().reverse() =~= r.reverse().subrange(1, r.len() as int));
            assert(before.subrange(k + 1, n as int) =~= before.subrange(k, n as int).subrange(1, n - k));
            assert(before.subrange(0, k + 1).drop_last() =~= before.subrange(0, k));
            assert(before.subrange(0, k + 1).last() == before[k]);
            if !str_eq(p.name.as_str(), name.as_str()) {
                kept.push(p);
                assert(profiles_view(kept@) =~= kv.push(before[k]));
            }
        }
        assert(before.subrange(0, n as int) =~= before);
        self.profiles = kept;
        Ok(())
    }

    pub fn get_profiles(&self) -> (r: &Vec<Profile>)
        ensures
            profiles_view(r@) == self@.profiles,
    {
        &self.profiles
    }
}

/// Whenever a profile has the name, the position of the name is that of the
/// first profile with it: no earlier one has the name, and it comes no later
/// than any profile with the name.
pub proof fn lemma_profile_index(ps: Seq<ProfileView>, name: Seq<char>, k: int)
    requires
        0 <= k < ps.len(),
        ps[k].name == name,
    ensures
        profile_index(ps, name) is Some,
        0 <= profile_index(ps, name)->0 <= k,
        ps[profile_index(ps, name)->0].name == name,
        forall|j: int| 0 <= j < profile_index(ps, name)->0 ==> ps[j].name != name,
    decreases k,
{
    if exists|j: int| 0 <= j < k && ps[j].name == name {
        let j = choose|j: int| 0 <= j < k && ps[j].name == name;
        lemma_profile_index(ps, name, j);
    } else {
        assert(exists|w: int| 0 <= w < ps.len() && ps[w].name == name && forall|j: int| 0 <= j < w ==> ps[j].name != name) by {
            assert(forall|j: int| 0 <= j < k ==> ps[j].name != name);
        }
    }
}

/// A profile added under a new name is found by that name afterwards.
pub proof fn law_add_then_get(ps: Seq<ProfileView>, p: ProfileView)
    requires
        profile_named(ps, p.name) is None,
    ensures
        profile_named(ps.push(p), p.name) == Some(p),
{
    let qs = ps.push(p);
    lemma_profile_index(qs, p.name, ps.len() as int);
    let i = profile_index(qs, p.name)->0;
    if i < ps.len() {
        assert(qs[i] == ps[i]);
        lemma_profile_index(ps, p.name, i);
    }
}

/// After the profiles with a name are removed, none is found by that name,
/// and every other name finds what it found before.
pub proof fn law_remove_then_get(ps: Seq<ProfileView>, name: Seq<char>)
    ensures
        profile_named(without_name(ps, name), name) is None,
        forall|i: int| 0 <= i < without_name(ps, name).len() ==> (#[trigger] without_name(ps, name)[i]).name != name,
    decreases ps.len(),
{
    if ps.len() > 0 {
        law_remove_then_get(ps.drop_last(), name);
    }
    let r = without_name(ps, name);
    if profile_index(r, name) is Some {
        let k = choose|i: int| 0 <= i < r.len() && r[i].name == name;
        assert(r[k].name != name);
    }
}

/// After a profile is made the default, it is the default profile.
pub proof fn law_set_default_then_get(c: ProfileConfigView, name: Seq<char>)
    requires
        profile_named(c.profiles, name) is Some,
    ensures
        profile_named((ProfileConfigView { default: name, ..c }).profiles, (ProfileConfigView { default: name, ..c }).default)
            == profile_named(c.profiles, name),
{
}

} // verus!
