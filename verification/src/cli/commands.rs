use vstd::prelude::*;
use crate::common::models::{status_name, PackageStatus};
use crate::common::responses::PackageResponse;

verus! {

/// How many of the listed packages are in each state.
pub struct StatusCounts {
    pub pending: usize,
    pub building: usize,
    pub built: usize,
    pub failed: usize,
}

/// How many statuses of the list equal the one given.
pub open spec fn count_status(s: Seq<PackageStatus>, status: PackageStatus) -> nat
    decreases s.len(),
{
    if s.len() == 0 {
        0
    } else {
        count_status(s.drop_last(), status) + if s.last() == status { 1nat } else { 0nat }
    }
}

proof fn lemma_count_bound(s: Seq<PackageStatus>, status: PackageStatus)
    ensures
        count_status(s, status) <= s.len(),
    decreases s.len(),
{
    if s.len() > 0 {
        lemma_count_bound(s.drop_last(), status);
    }
}

/// How many statuses of a list equal a given one is the length of the list
/// kept to that status, and a status added at the end counts for itself
/// alone: it adds one to its own count and nothing to any other.
pub proof fn law_count_status(s: Seq<PackageStatus>, status: PackageStatus, added: PackageStatus)
    ensures
        count_status(s, status) == s.filter(|x: PackageStatus| x == status).len(),
        count_status(s.push(added), status) == count_status(s, status) + if added == status { 1nat } else { 0nat },
        count_status(s, status) <= s.len(),
    decreases s.len(),
{
    reveal(Seq::filter);
    assert(s.push(added).drop_last() =~= s);
    lemma_count_bound(s, status);
    if s.len() > 0 {
        law_count_status(s.drop_last(), status, added);
    }
}

/// Counts the pending, building, built and failed packages of a listing.
pub fn count_statuses(statuses: &Vec<PackageStatus>) -> (c: StatusCounts)
    ensures
        c.pending == count_status(statuses@, PackageStatus::PENDING),
        c.building == count_status(statuses@, PackageStatus::BUILDING),
        c.built == count_status(statuses@, PackageStatus::BUILT),
        c.failed == count_status(statuses@, PackageStatus::FAILED),
{
    let mut c = StatusCounts { pending: 0, building: 0, built: 0, failed: 0 };
    let mut i: usize = 0;
    while i < statuses.len()
        invariant
            i <= statuses.len(),
            c.pending == count_status(statuses@.subrange(0, i as int), PackageStatus::PENDING),
            c.building == count_status(statuses@.subrange(0, i as int), PackageStatus::BUILDING),
            c.built == count_status(statuses@.subrange(0, i as int), PackageStatus::BUILT),
            c.failed == count_status(statuses@.subrange(0, i as int), PackageStatus::FAILED),
        decreases statuses.len() - i,
    {
        let ghost sub = statuses@.subrange(0, i as int + 1);
        assert(sub.drop_last() =~= statuses@.subrange(0, i as int));
        proof {
            lemma_count_bound(statuses@.subrange(0, i as int), PackageStatus::PENDING);
            lemma_count_bound(statuses@.subrange(0, i as int), PackageStatus::BUILDING);
            lemma_count_bound(statuses@.subrange(0, i as int), PackageStatus::BUILT);
            lemma_count_bound(statuses@.subrange(0, i as int), PackageStatus::FAILED);
        }
        match statuses[i] {
            PackageStatus::PENDING => c.pending = c.pending + 1,
            PackageStatus::BUILDING => c.building = c.building + 1,
            PackageStatus::BUILT => c.built = c.built + 1,
            PackageStatus::FAILED => c.failed = c.failed + 1,
            PackageStatus::UNKNOWN => {},
        }
        i = i + 1;
    }
    assert(statuses@.subrange(0, i as int) =~= statuses@);
    c
}

/// The texts of a package's row in a listing: its name, its status, its
/// last built version or "None", and whether its build date reads "Never"
/// (it was never built); the date itself is written in local time.
pub fn package_row(p: &PackageResponse) -> (r: (String, &'static str, String, bool))
    ensures
        r.0@ == p.name@,
        r.1@ == status_name(p.status),
        r.2@ == match p.last_built_version {
            Some(v) => v@,
            None => "None"@,
        },
        r.3 == (p.last_built is None),
{
    let version = match &p.last_built_version {
        Some(v) => v.clone(),
        None => String::from_str("None"),
    };
    (p.name.clone(), p.status.name(), version, p.last_built.is_none())
}

/// A row of the compact listing: the four texts separated by " | ".
pub open spec fn compact_text(name: Seq<char>, status: Seq<char>, version: Seq<char>, date: Seq<char>) -> Seq<char> {
    name + " | "@ + status + " | "@ + version + " | "@ + date
}

/// Builds a row of the compact listing; see `compact_text`.
pub fn compact_line(name: &str, status: &str, version: &str, date: &str) -> (r: String)
    ensures
        r@ == compact_text(name@, status@, version@, date@),
{
    String::from_str(name).concat(" | ").concat(status).concat(" | ").concat(version).concat(" | ").concat(date)
}

/// The decimal digits of a number.
pub open spec fn decimal(n: nat) -> Seq<char>
    decreases n,
{
    if n < 10 {
        seq![digit_char((n % 10) as u8)]
    } else {
        decimal(n / 10) + seq![digit_char((n % 10) as u8)]
    }
}

/// The character of a decimal digit.
pub open spec fn digit_char(d: u8) -> char {
    if d == 0 { '0' } else if d == 1 { '1' } else if d == 2 { '2' } else if d == 3 { '3' }
    else if d == 4 { '4' } else if d == 5 { '5' } else if d == 6 { '6' } else if d == 7 { '7' }
    else if d == 8 { '8' } else { '9' }
}

fn digit_str(d: u8) -> (r: &'static str)
    requires
        d < 10,
    ensures
        r@ == seq![digit_char(d)],
{
    if d == 0 { proof { reveal_strlit("0"); } "0" }
    else if d == 1 { proof { reveal_strlit("1"); } "1" }
    else if d == 2 { proof { reveal_strlit("2"); } "2" }
    else if d == 3 { proof { reveal_strlit("3"); } "3" }
    else if d == 4 { proof { reveal_strlit("4"); } "4" }
    else if d == 5 { proof { reveal_strlit("5"); } "5" }
    else if d == 6 { proof { reveal_strlit("6"); } "6" }
    else if d == 7 { proof { reveal_strlit("7"); } "7" }
    else if d == 8 { proof { reveal_strlit("8"); } "8" }
    else { proof { reveal_strlit("9"); } "9" }
}

/// Writes a number in decimal; see `decimal`.
pub fn decimal_string(n: usize) -> (r: String)
    ensures
        r@ == decimal(n as nat),
    decreases n,
{
    let last = digit_str((n % 10) as u8);
    if n < 10 {
        String::from_str(last)
    } else {
        decimal_string(n / 10).concat(last)
    }
}

/// The closing line of a listing: the counts of pending, building, built
/// and failed packages.
pub open spec fn summary_text(c: StatusCounts) -> Seq<char> {
    "Pending: "@ + decimal(c.pending as nat) + ", Building: "@ + decimal(c.building as nat)
        + ", Built: "@ + decimal(c.built as nat) + ", Failed: "@ + decimal(c.failed as nat)
}

/// Builds the closing line of a listing; see `summary_text`.
pub fn status_summary(c: &StatusCounts) -> (r: String)
    ensures
        r@ == summary_text(*c),
{
    let pending = decimal_string(c.pending);
    let building = decimal_string(c.building);
    let built = decimal_string(c.built);
    let failed = decimal_string(c.failed);
    String::from_str("Pending: ").concat(pending.as_str()).concat(", Building: ").concat(building.as_str())
        .concat(", Built: ").concat(built.as_str()).concat(", Failed: ").concat(failed.as_str())
}

} // verus!
