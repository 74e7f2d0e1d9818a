//! Minecraft versions, grouped into releases, snapshots and old alphas as
//! Mojang's version manifest classifies them.
use vstd::prelude::*;
use vstd::string::*;

use crate::text::{chars_eq, str_chars, str_eq};

verus! {

broadcast use vstd::seq_lib::group_seq_properties;

/// Versions by kind.
#[derive(Debug)]
pub struct MinecraftVersions {
    pub old_alpha: Vec<String>,
    pub snapshot: Vec<String>,
    pub release: Vec<String>,
}

pub struct MinecraftVersionsView {
    pub old_alpha: Seq<Seq<char>>,
    pub snapshot: Seq<Seq<char>>,
    pub release: Seq<Seq<char>>,
}

impl View for MinecraftVersions {
    type V = MinecraftVersionsView;

    open spec fn view(&self) -> MinecraftVersionsView {
        MinecraftVersionsView {
            old_alpha: self.old_alpha.deep_view(),
            snapshot: self.snapshot.deep_view(),
            release: self.release.deep_view(),
        }
    }
}

// ---------------------------------------------------------------------------
// Classifying the manifest
// ---------------------------------------------------------------------------

/// Whether a manifest entry (identifier, kind) is of kind `kind`.
pub open spec fn spec_of_kind(kind: Seq<char>) -> spec_fn((Seq<char>, Seq<char>)) -> bool {
    |e: (Seq<char>, Seq<char>)| e.1 == kind
}

/// The identifiers of the entries of kind `kind`, in order.
pub open spec fn spec_ids_of_kind(entries: Seq<(Seq<char>, Seq<char>)>, kind: Seq<char>) -> Seq<
    Seq<char>,
> {
    entries.filter(spec_of_kind(kind)).map_values(|e: (Seq<char>, Seq<char>)| e.0)
}

fn ids_of_kind(entries: &Vec<(String, String)>, kind: &str) -> (r: Vec<String>)
    ensures
        r.deep_view() == spec_ids_of_kind(entries.deep_view(), kind@),
{
    let ghost s = entries.deep_view();
    let mut r: Vec<String> = Vec::new();
    let mut i: usize = 0;
    while i < entries.len()
        invariant
            s == entries.deep_view(),
            i <= entries.len(),
            r.deep_view() == spec_ids_of_kind(s.take(i as int), kind@),
        decreases entries.len() - i,
    {
        let ghost before = r.deep_view();
        proof {
            assert(s.take(i as int + 1) =~= s.take(i as int).push(s[i as int]));
            s.take(i as int).lemma_filter_push(s[i as int], spec_of_kind(kind@));
        }
        if str_eq(entries[i].1.as_str(), kind) {
            r.push(entries[i].0.clone());
            proof {
                let f = s.take(i as int).filter(spec_of_kind(kind@));
                assert(f.push(s[i as int]).map_values(|e: (Seq<char>, Seq<char>)| e.0) =~= f.map_values(
                    |e: (Seq<char>, Seq<char>)| e.0,
                ).push(s[i as int].0));
                assert(r.deep_view() =~= before.push(s[i as int].0));
            }
        }
        i = i + 1;
    }
    proof {
        assert(s.take(s.len() as int) =~= s);
    }
    r
}

/// The versions of Mojang's manifest by kind, given its entries as
/// (identifier, kind) pairs; entries of other kinds are left out.
pub fn classify_vanilla_versions(entries: &Vec<(String, String)>) -> (v: MinecraftVersions)
    ensures
        v@.old_alpha == spec_ids_of_kind(entries.deep_view(), "old_alpha"@),
        v@.snapshot == spec_ids_of_kind(entries.deep_view(), "snapshot"@),
        v@.release == spec_ids_of_kind(entries.deep_view(), "release"@),
{
    MinecraftVersions {
        old_alpha: ids_of_kind(entries, "old_alpha"),
        snapshot: ids_of_kind(entries, "snapshot"),
        release: ids_of_kind(entries, "release"),
    }
}

// ---------------------------------------------------------------------------
// Grouping the versions of another source
// ---------------------------------------------------------------------------

/// A version name with its underscores made hyphens.
pub open spec fn spec_normalize(s: Seq<char>) -> Seq<char> {
    s.map_values(|c: char| if c == '_' { '-' } else { c })
}

/// Whether `v` is, up to underscores and hyphens, one of `known`.
pub open spec fn spec_known(known: Seq<Seq<char>>, v: Seq<char>) -> bool {
    exists|i: int| 0 <= i < known.len() && spec_normalize(known[i]) == spec_normalize(v)
}

pub open spec fn spec_known_in(known: Seq<Seq<char>>) -> spec_fn(Seq<char>) -> bool {
    |v: Seq<char>| spec_known(known, v)
}

/// The versions of `versions` that `known` holds (up to underscores and
/// hyphens), in the order of `versions`.
pub open spec fn spec_group_of(versions: Seq<Seq<char>>, known: Seq<Seq<char>>) -> Seq<Seq<char>> {
    versions.filter(spec_known_in(known))
}

fn normalize(s: &str) -> (r: Vec<char>)
    ensures
        r@ == spec_normalize(s@),
{
    let c = str_chars(s);
    let mut r: Vec<char> = Vec::new();
    let mut i: usize = 0;
    while i < c.len()
        invariant
            c@ == s@,
            i <= c.len(),
            r@ == spec_normalize(c@.take(i as int)),
        decreases c.len() - i,
    {
        let x = if c[i] == '_' { '-' } else { c[i] };
        r.push(x);
        assert(r@ =~= spec_normalize(c@.take(i as int + 1)));
        i = i + 1;
    }
    assert(c@.take(c.len() as int) =~= c@);
    r
}

fn known(normalized_known: &Vec<Vec<char>>, v: &str, ghost_known: Ghost<Seq<Seq<char>>>) -> (b: bool)
    requires
        normalized_known@.len() == ghost_known@.len(),
        forall|i: int|
            0 <= i < ghost_known@.len() ==> #[trigger] normalized_known@[i]@ == spec_normalize(
                ghost_known@[i],
            ),
    ensures
        b == spec_known(ghost_known@, v@),
{
    let n = normalize(v);
    let mut i: usize = 0;
    while i < normalized_known.len()
        invariant
            n@ == spec_normalize(v@),
            normalized_known@.len() == ghost_known@.len(),
            forall|j: int|
                0 <= j < ghost_known@.len() ==> #[trigger] normalized_known@[j]@ == spec_normalize(
                    ghost_known@[j],
                ),
            i <= normalized_known.len(),
            forall|j: int| 0 <= j < i ==> spec_normalize(ghost_known@[j]) != spec_normalize(v@),
        decreases normalized_known.len() - i,
    {
        if chars_eq(normalized_known[i].as_slice(), n.as_slice()) {
            assert(normalized_known@[i as int]@ == spec_normalize(ghost_known@[i as int]));
            return true;
        }
        assert(normalized_known@[i as int]@ == spec_normalize(ghost_known@[i as int]));
        i = i + 1;
    }
    false
}

fn group_of(versions: &Vec<String>, known_versions: &Vec<String>) -> (r: Vec<String>)
    ensures
        r.deep_view() == spec_group_of(versions.deep_view(), known_versions.deep_view()),
{
    let ghost k = known_versions.deep_view();
    let mut normalized: Vec<Vec<char>> = Vec::new();
    let mut j: usize = 0;
    while j < known_versions.len()
        invariant
            k == known_versions.deep_view(),
            j <= known_versions.len(),
            normalized@.len() == j,
            forall|x: int| 0 <= x < j ==> #[trigger] normalized@[x]@ == spec_normalize(k[x]),
        decreases known_versions.len() - j,
    {
        normalized.push(normalize(known_versions[j].as_str()));
        j = j + 1;
    }
    let ghost s = versions.deep_view();
    let mut r: Vec<String> = Vec::new();
    let mut i: usize = 0;
    while i < versions.len()
        invariant
            s == versions.deep_view(),
            k == known_versions.deep_view(),
            normalized@.len() == k.len(),
            forall|x: int| 0 <= x < k.len() ==> #[trigger] normalized@[x]@ == spec_normalize(k[x]),
            i <= versions.len(),
            r.deep_view() == spec_group_of(s.take(i as int), k),
        decreases versions.len() - i,
    {
        let ghost before = r.deep_view();
        proof {
            assert(s.take(i as int + 1) =~= s.take(i as int).push(s[i as int]));
            s.take(i as int).lemma_filter_push(s[i as int], spec_known_in(k));
        }
        if known(&normalized, versions[i].as_str(), Ghost(k)) {
            r.push(versions[i].clone());
            assert(r.deep_view() =~= before.push(s[i as int]));
        }
        i = i + 1;
    }
    proof {
        assert(s.take(s.len() as int) =~= s);
    }
    r
}

/// The versions of another source (Fabric, Paper, Forge), grouped by the
/// kind Mojang gives them: a version goes to every group whose versions
/// hold it, underscores and hyphens counting as the same.
pub fn group_minecraft_versions(versions: &Vec<String>, vanilla: &MinecraftVersions) -> (v:
    MinecraftVersions)
    ensures
        v@.release == spec_group_of(versions.deep_view(), vanilla@.release),
        v@.snapshot == spec_group_of(versions.deep_view(), vanilla@.snapshot),
        v@.old_alpha == spec_group_of(versions.deep_view(), vanilla@.old_alpha),
{
    MinecraftVersions {
        release: group_of(versions, &vanilla.release),
        snapshot: group_of(versions, &vanilla.snapshot),
        old_alpha: group_of(versions, &vanilla.old_alpha),
    }
}

/// Grouping never adds a version: every version in a group was given, and is
/// known to that group.
pub proof fn lemma_group_members(versions: Seq<Seq<char>>, known: Seq<Seq<char>>, i: int)
    requires
        0 <= i < spec_group_of(versions, known).len(),
    ensures
        versions.contains(spec_group_of(versions, known)[i]),
        spec_known(known, spec_group_of(versions, known)[i]),
{
    broadcast use Seq::lemma_filter_contains_rev;

    let g = spec_group_of(versions, known);
    assert(g.contains(g[i]));
    versions.lemma_filter_pred(spec_known_in(known), i);
}

/// Every given version that a group knows is in that group.
pub proof fn lemma_group_complete(versions: Seq<Seq<char>>, known: Seq<Seq<char>>, i: int)
    requires
        0 <= i < versions.len(),
        spec_known(known, versions[i]),
    ensures
        spec_group_of(versions, known).contains(versions[i]),
{
    versions.lemma_filter_contains(spec_known_in(known), i);
}

} // verus!
