//! Paper's versions and jars.
use vstd::prelude::*;
use vstd::string::*;

use crate::text::{push_str, spec_signed_decimal, to_signed_decimal};

verus! {

broadcast use vstd::seq_lib::group_seq_properties;

/// What Paper lists of its project.
#[derive(Debug)]
pub struct ProjectInfo {
    pub versions: Vec<String>,
}

/// What Paper lists of a version.
#[derive(Debug)]
pub struct VersionInfo {
    pub builds: Vec<i32>,
}

/// The versions, newest first (Paper lists them oldest first).
pub fn paper_versions(info: &ProjectInfo) -> (r: Vec<String>)
    ensures
        r.deep_view() == info.versions.deep_view().reverse(),
{
    let ghost s = info.versions.deep_view();
    let mut r: Vec<String> = Vec::new();
    let mut i: usize = info.versions.len();
    while i > 0
        invariant
            s == info.versions.deep_view(),
            i <= info.versions.len(),
            r.deep_view() == s.subrange(i as int, s.len() as int).reverse(),
        decreases i,
    {
        let ghost before = r.deep_view();
        r.push(info.versions[i - 1].clone());
        assert(s.subrange(i as int - 1, s.len() as int).reverse() =~= s.subrange(
            i as int,
            s.len() as int,
        ).reverse().push(s[i as int - 1]));
        assert(r.deep_view() =~= before.push(s[i as int - 1]));
        i = i - 1;
    }
    assert(s.subrange(0, s.len() as int) =~= s);
    r
}

/// Whether `m` is the greatest of the builds.
pub open spec fn spec_is_max(builds: Seq<i32>, m: i32) -> bool {
    builds.contains(m) && forall|j: int| 0 <= j < builds.len() ==> builds[j] <= m
}

/// The address of a Paper jar.
pub open spec fn spec_paper_jar_url(version: Seq<char>, build: i32) -> Seq<char> {
    "https://papermc.io/api/v2/projects/paper/versions/"@ + version + "/builds/"@
        + spec_signed_decimal(build as int) + "/downloads/paper-"@ + version + "-"@
        + spec_signed_decimal(build as int) + ".jar"@
}

/// The address of the jar of the latest build of a version; `None` (not
/// found) when the version has no build.
pub fn paper_jar(requested_version: &str, info: &VersionInfo) -> (r: Option<String>)
    ensures
        info.builds@.len() == 0 <==> r is None,
        r is Some ==> exists|m: i32|
            spec_is_max(info.builds@, m) && r->0@ == spec_paper_jar_url(requested_version@, m),
{
    if info.builds.len() == 0 {
        return None;
    }
    let mut m: i32 = info.builds[0];
    let mut i: usize = 1;
    while i < info.builds.len()
        invariant
            1 <= i <= info.builds.len(),
            info.builds@.subrange(0, i as int).contains(m),
            forall|j: int| 0 <= j < i ==> info.builds@[j] <= m,
        decreases info.builds.len() - i,
    {
        if info.builds[i] > m {
            m = info.builds[i];
            assert(info.builds@.subrange(0, i as int + 1)[i as int] == m);
        } else {
            proof {
                let k = choose|k: int| 0 <= k < i && info.builds@.subrange(0, i as int)[k] == m;
                assert(info.builds@.subrange(0, i as int + 1)[k] == m);
            }
        }
        i = i + 1;
    }
    proof {
        assert(info.builds@.subrange(0, i as int) =~= info.builds@);
    }
    let b = to_signed_decimal(m as i64);
    let mut url = String::from_str("https://papermc.io/api/v2/projects/paper/versions/");
    push_str(&mut url, requested_version);
    push_str(&mut url, "/builds/");
    push_str(&mut url, b.as_str());
    push_str(&mut url, "/downloads/paper-");
    push_str(&mut url, requested_version);
    push_str(&mut url, "-");
    push_str(&mut url, b.as_str());
    push_str(&mut url, ".jar");
    assert(spec_is_max(info.builds@, m) && url@ == spec_paper_jar_url(requested_version@, m));
    Some(url)
}

} // verus!
