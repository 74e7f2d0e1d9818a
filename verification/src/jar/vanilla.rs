//! Vanilla versions, as Mojang's version manifest lists them.
use vstd::prelude::*;
use vstd::string::*;

use crate::text::str_eq;

verus! {

broadcast use vstd::seq_lib::group_seq_properties;

/// A version of the manifest.
#[derive(Debug)]
pub struct ServerVersion {
    pub id: String,
    pub kind: String,
    pub url: String,
    pub time: String,
    pub release_time: String,
}

/// The latest release and snapshot.
#[derive(Debug)]
pub struct LatestVersion {
    pub release: String,
    pub snapshot: String,
}

/// Mojang's version manifest.
#[derive(Debug)]
pub struct VersionManifest {
    pub versions: Vec<ServerVersion>,
    pub latest: LatestVersion,
}

/// `s` with every run of equal neighbours cut to one (std's `Vec::dedup`).
pub open spec fn spec_dedup(s: Seq<Seq<char>>) -> Seq<Seq<char>>
    decreases s.len(),
{
    if s.len() <= 1 {
        s
    } else if s[s.len() - 1] == s[s.len() - 2] {
        spec_dedup(s.drop_last())
    } else {
        spec_dedup(s.drop_last()).push(s.last())
    }
}

proof fn lemma_dedup_last(s: Seq<Seq<char>>)
    requires
        s.len() > 0,
    ensures
        spec_dedup(s).len() > 0,
        spec_dedup(s).last() == s.last(),
    decreases s.len(),
{
    if s.len() > 1 && s[s.len() - 1] == s[s.len() - 2] {
        lemma_dedup_last(s.drop_last());
    }
}

/// The versions asked for: with `latest`, the latest release and/or
/// snapshot (both when no kind is given); else every version of the kind
/// (of any kind when none is given), in the manifest's order; equal
/// neighbours are then cut to one.
pub open spec fn spec_version_list(
    ids: Seq<Seq<char>>,
    kinds: Seq<Seq<char>>,
    latest_release: Seq<char>,
    latest_snapshot: Seq<char>,
    kind: Seq<char>,
    latest: bool,
) -> Seq<Seq<char>> {
    spec_dedup(
        if latest {
            (if kind == "release"@ || kind.len() == 0 {
                seq![latest_release]
            } else {
                Seq::empty()
            }) + (if kind == "snapshot"@ || kind.len() == 0 {
                seq![latest_snapshot]
            } else {
                Seq::empty()
            })
        } else {
            spec_of_kind(ids, kinds, kind, ids.len() as int)
        },
    )
}

/// The identifiers among the first `n` whose kind is `kind` (all of them
/// when `kind` is empty).
pub open spec fn spec_of_kind(ids: Seq<Seq<char>>, kinds: Seq<Seq<char>>, kind: Seq<char>, n: int) -> Seq<
    Seq<char>,
>
    decreases n,
{
    if n <= 0 {
        Seq::empty()
    } else if kinds[n - 1] == kind || kind.len() == 0 {
        spec_of_kind(ids, kinds, kind, n - 1).push(ids[n - 1])
    } else {
        spec_of_kind(ids, kinds, kind, n - 1)
    }
}

fn dedup(v: Vec<String>) -> (r: Vec<String>)
    ensures
        r.deep_view() == spec_dedup(v.deep_view()),
{
    let ghost s = v.deep_view();
    let mut r: Vec<String> = Vec::new();
    let mut i: usize = 0;
    while i < v.len()
        invariant
            s == v.deep_view(),
            i <= v.len(),
            r.deep_view() == spec_dedup(s.take(i as int)),
        decreases v.len() - i,
    {
        let ghost t = s.take(i as int + 1);
        assert(t.drop_last() =~= s.take(i as int));
        if i > 0 {
            proof {
                lemma_dedup_last(s.take(i as int));
            }
            let last = r.len() - 1;
            if str_eq(r[last].as_str(), v[i].as_str()) {
                assert(t[t.len() - 2] == s[i as int - 1]);
            } else {
                let ghost before = r.deep_view();
                r.push(v[i].clone());
                assert(r.deep_view() =~= before.push(s[i as int]));
            }
        } else {
            let ghost before = r.deep_view();
            r.push(v[i].clone());
            assert(r.deep_view() =~= before.push(s[i as int]));
            assert(t =~= seq![s[0]]);
        }
        i = i + 1;
    }
    assert(s.take(s.len() as int) =~= s);
    r
}

pub open spec fn spec_ids(v: Seq<ServerVersion>) -> Seq<Seq<char>> {
    v.map_values(|x: ServerVersion| x.id@)
}

pub open spec fn spec_kinds(v: Seq<ServerVersion>) -> Seq<Seq<char>> {
    v.map_values(|x: ServerVersion| x.kind@)
}

/// The versions asked for (see [`spec_version_list`]).
pub fn vanilla_versions(manifest: &VersionManifest, kind: Option<String>, latest: Option<bool>) -> (r:
    Vec<String>)
    ensures
        r.deep_view() == spec_version_list(
            spec_ids(manifest.versions@),
            spec_kinds(manifest.versions@),
            manifest.latest.release@,
            manifest.latest.snapshot@,
            match kind {
                Some(k) => k@,
                None => Seq::empty(),
            },
            match latest {
                Some(l) => l,
                None => false,
            },
        ),
{
    let latest = match latest {
        Some(l) => l,
        None => false,
    };
    let kind = match kind {
        Some(k) => k,
        None => String::new(),
    };
    let empty = kind.as_str().unicode_len() == 0;
    let mut r: Vec<String> = Vec::new();
    if latest {
        if str_eq(kind.as_str(), "release") || empty {
            r.push(manifest.latest.release.clone());
        }
        if str_eq(kind.as_str(), "snapshot") || empty {
            r.push(manifest.latest.snapshot.clone());
        }
        proof {
            assert(r.deep_view() =~= (if kind@ == "release"@ || kind@.len() == 0 {
                seq![manifest.latest.release@]
            } else {
                Seq::empty()
            }) + (if kind@ == "snapshot"@ || kind@.len() == 0 {
                seq![manifest.latest.snapshot@]
            } else {
                Seq::empty()
            }));
        }
    } else {
        let ghost ids = spec_ids(manifest.versions@);
        let ghost kinds = spec_kinds(manifest.versions@);
        let mut i: usize = 0;
        while i < manifest.versions.len()
            invariant
                ids == spec_ids(manifest.versions@),
                kinds == spec_kinds(manifest.versions@),
                i <= manifest.versions.len(),
                r.deep_view() == spec_of_kind(ids, kinds, kind@, i as int),
                empty == (kind@.len() == 0),
            decreases manifest.versions.len() - i,
        {
            if str_eq(manifest.versions[i].kind.as_str(), kind.as_str()) || empty {
                let ghost before = r.deep_view();
                r.push(manifest.versions[i].id.clone());
                assert(r.deep_view() =~= before.push(ids[i as int]));
            }
            i = i + 1;
        }
    }
    dedup(r)
}

/// The manifest entry of a version, when the manifest lists it.
pub fn find_version<'a>(manifest: &'a VersionManifest, id: &str) -> (r: Option<&'a ServerVersion>)
    ensures
        match r {
            Some(v) => exists|i: int|
                0 <= i < manifest.versions@.len() && manifest.versions@[i] == *v && v.id@ == id@
                    && forall|j: int| 0 <= j < i ==> #[trigger] manifest.versions@[j].id@ != id@,
            None => forall|j: int|
                0 <= j < manifest.versions@.len() ==> #[trigger] manifest.versions@[j].id@ != id@,
        },
{
    let mut i: usize = 0;
    while i < manifest.versions.len()
        invariant
            i <= manifest.versions.len(),
            forall|j: int| 0 <= j < i ==> #[trigger] manifest.versions@[j].id@ != id@,
        decreases manifest.versions.len() - i,
    {
        if str_eq(manifest.versions[i].id.as_str(), id) {
            return Some(&manifest.versions[i]);
        }
        i = i + 1;
    }
    None
}

} // verus!
