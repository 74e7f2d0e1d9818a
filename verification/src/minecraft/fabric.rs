//! Where a Fabric server jar is downloaded from, and which loader and
//! installer versions are taken when none was chosen: the greatest stable
//! one, versions being compared part by part as numbers.
use vstd::prelude::*;
use vstd::string::*;

use crate::minecraft::cmd_args::{spec_split, split_chars};
use crate::text::{parse_i32, push_str, spec_parse_i32, str_chars};

verus! {

broadcast use vstd::seq_lib::group_seq_properties;

// ---------------------------------------------------------------------------
// Comparing dotted versions
// ---------------------------------------------------------------------------

/// How one version stands to another.
#[derive(Debug, Clone, Copy, PartialEq, Eq, Structural)]
pub enum VersionOrder {
    Less,
    Equal,
    Greater,
}

/// How two lists of version parts compare, the first pair of parts that
/// differ as numbers deciding (1: greater, -1: less, 0: equal as far as the
/// shorter list goes); `None` when a part that is looked at is not a number.
pub open spec fn spec_order_parts(a: Seq<Seq<char>>, b: Seq<Seq<char>>) -> Option<int>
    decreases a.len(),
{
    if a.len() == 0 || b.len() == 0 {
        Some(0)
    } else {
        match (spec_parse_i32(a[0]), spec_parse_i32(b[0])) {
            (Some(x), Some(y)) => if x > y {
                Some(1)
            } else if x < y {
                Some(-1)
            } else {
                spec_order_parts(a.drop_first(), b.drop_first())
            },
            _ => None,
        }
    }
}

/// How two dotted versions compare (see [`spec_order_parts`]).
pub open spec fn spec_order_versions(a: Seq<char>, b: Seq<char>) -> Option<int> {
    spec_order_parts(spec_split(a, '.'), spec_split(b, '.'))
}

fn order_parts(a: &Vec<String>, b: &Vec<String>) -> (r: VersionOrder)
    requires
        spec_order_parts(a.deep_view(), b.deep_view()) is Some,
    ensures
        match spec_order_parts(a.deep_view(), b.deep_view()) {
            Some(c) => (c == 1 <==> r == VersionOrder::Greater) && (c == -1 <==> r == VersionOrder::Less)
                && (c == 0 <==> r == VersionOrder::Equal),
            None => false,
        },
{
    let ghost sa = a.deep_view();
    let ghost sb = b.deep_view();
    let mut i: usize = 0;
    while i < a.len() && i < b.len()
        invariant
            sa == a.deep_view(),
            sb == b.deep_view(),
            i <= a.len(),
            i <= b.len(),
            spec_order_parts(sa, sb) == spec_order_parts(sa.skip(i as int), sb.skip(i as int)),
            spec_order_parts(sa, sb) is Some,
        decreases a.len() - i,
    {
        assert(sa.skip(i as int)[0] == sa[i as int]);
        assert(sb.skip(i as int)[0] == sb[i as int]);
        assert(sa.skip(i as int).drop_first() =~= sa.skip(i as int + 1));
        assert(sb.skip(i as int).drop_first() =~= sb.skip(i as int + 1));
        let x = match parse_i32(str_chars(a[i].as_str()).as_slice()) {
            Some(x) => x,
            None => {
                return VersionOrder::Equal;
            },
        };
        let y = match parse_i32(str_chars(b[i].as_str()).as_slice()) {
            Some(y) => y,
            None => {
                return VersionOrder::Equal;
            },
        };
        if x > y {
            return VersionOrder::Greater;
        } else if x < y {
            return VersionOrder::Less;
        }
        i = i + 1;
    }
    VersionOrder::Equal
}

/// How two dotted versions compare, part by part as numbers (`1.10`
/// after `1.9`); versions equal as far as the shorter goes compare equal.
pub fn compare_versions(a: &str, b: &str) -> (r: VersionOrder)
    requires
        spec_order_versions(a@, b@) is Some,
    ensures
        match spec_order_versions(a@, b@) {
            Some(c) => (c == 1 <==> r == VersionOrder::Greater) && (c == -1 <==> r == VersionOrder::Less)
                && (c == 0 <==> r == VersionOrder::Equal),
            None => false,
        },
{
    let pa = split_chars(str_chars(a).as_slice(), '.');
    let pb = split_chars(str_chars(b).as_slice(), '.');
    order_parts(&pa, &pb)
}

// ---------------------------------------------------------------------------
// The greatest version
// ---------------------------------------------------------------------------

/// A version offered for a choice: the version compared (absent when the
/// entry lacks it), and the text chosen when the entry wins.
pub struct VersionCandidate {
    pub key: Option<String>,
    pub value: String,
}

pub struct VersionCandidateView {
    pub key: Option<Seq<char>>,
    pub value: Seq<char>,
}

impl View for VersionCandidate {
    type V = VersionCandidateView;

    open spec fn view(&self) -> VersionCandidateView {
        VersionCandidateView { key: self.key.deep_view(), value: self.value@ }
    }
}

impl DeepView for VersionCandidate {
    type V = VersionCandidateView;

    open spec fn deep_view(&self) -> VersionCandidateView {
        self@
    }
}

/// How two candidates compare by their keys (`None` when a key is absent or
/// a looked-at part is not a number).
pub open spec fn spec_order_candidates(a: VersionCandidateView, b: VersionCandidateView) -> Option<
    int,
> {
    match (a.key, b.key) {
        (Some(x), Some(y)) => spec_order_versions(x, y),
        _ => None,
    }
}

/// The index of the greatest of the first `n` candidates, keeping a later
/// one over an earlier one that compares equal (std's `Iterator::max_by`).
pub open spec fn spec_max_index(c: Seq<VersionCandidateView>, n: int) -> int
    decreases n,
{
    if n <= 1 {
        0
    } else {
        let m = spec_max_index(c, n - 1);
        if spec_order_candidates(c[m], c[n - 1]) == Some(1int) {
            m
        } else {
            n - 1
        }
    }
}

/// Whether every comparison that finding the greatest of the first `n`
/// candidates makes can be made.
pub open spec fn spec_max_defined(c: Seq<VersionCandidateView>, n: int) -> bool
    decreases n,
{
    n <= 1 || (spec_max_defined(c, n - 1) && spec_order_candidates(
        c[spec_max_index(c, n - 1)],
        c[n - 1],
    ) is Some)
}

proof fn lemma_max_index_bound(c: Seq<VersionCandidateView>, n: int)
    requires
        1 <= n,
    ensures
        0 <= spec_max_index(c, n) < n,
    decreases n,
{
    if n > 1 {
        lemma_max_index_bound(c, n - 1);
    }
}

/// The value of the greatest candidate, when there is one.
pub open spec fn spec_latest(c: Seq<VersionCandidateView>) -> Option<Seq<char>> {
    if c.len() == 0 {
        None
    } else {
        Some(c[spec_max_index(c, c.len() as int)].value)
    }
}

fn order_candidates(a: &VersionCandidate, b: &VersionCandidate) -> (r: VersionOrder)
    requires
        spec_order_candidates(a@, b@) is Some,
    ensures
        (spec_order_candidates(a@, b@) == Some(1int)) <==> r == VersionOrder::Greater,
{
    match (&a.key, &b.key) {
        (Some(x), Some(y)) => compare_versions(x.as_str(), y.as_str()),
        _ => VersionOrder::Equal,
    }
}

/// The value of the greatest candidate (the last of equal greatest ones),
/// or `None` when there is no candidate.
pub fn latest_by_version(c: &Vec<VersionCandidate>) -> (r: Option<String>)
    requires
        spec_max_defined(c.deep_view(), c.deep_view().len() as int),
    ensures
        r.deep_view() == spec_latest(c.deep_view()),
{
    let ghost s = c.deep_view();
    if c.len() == 0 {
        return None;
    }
    let mut m: usize = 0;
    let mut i: usize = 1;
    while i < c.len()
        invariant
            s == c.deep_view(),
            1 <= i <= c.len(),
            m == spec_max_index(s, i as int),
            spec_max_defined(s, s.len() as int),
        decreases c.len() - i,
    {
        proof {
            lemma_max_index_bound(s, i as int);
            lemma_max_defined_prefix(s, s.len() as int, i as int + 1);
        }
        let o = order_candidates(&c[m], &c[i]);
        let greater = match o {
            VersionOrder::Greater => true,
            _ => false,
        };
        if !greater {
            m = i;
        }
        i = i + 1;
    }
    proof {
        lemma_max_index_bound(s, s.len() as int);
    }
    Some(c[m].value.clone())
}

proof fn lemma_max_defined_prefix(c: Seq<VersionCandidateView>, n: int, k: int)
    requires
        spec_max_defined(c, n),
        k <= n,
    ensures
        spec_max_defined(c, k),
    decreases n - k,
{
    if k < n {
        lemma_max_defined_prefix(c, n - 1, k);
    }
}

// ---------------------------------------------------------------------------
// Loaders, installers and the jar
// ---------------------------------------------------------------------------

/// A loader of Fabric's list for a Minecraft version.
pub struct FabricLoaderEntry {
    pub loader_version: String,
    pub loader_stable: bool,
    pub intermediary_stable: bool,
}

/// An installer of Fabric's list. `loader_version` is the loader version an
/// entry states, which installer entries leave out: the greatest stable
/// installer is chosen by it all the same.
pub struct FabricInstallerEntry {
    pub version: String,
    pub stable: bool,
    pub loader_version: Option<String>,
}

pub open spec fn spec_loader_candidates(e: Seq<(Seq<char>, bool, bool)>) -> Seq<
    VersionCandidateView,
> {
    e.filter(|x: (Seq<char>, bool, bool)| x.1 && x.2).map_values(
        |x: (Seq<char>, bool, bool)| VersionCandidateView { key: Some(x.0), value: x.0 },
    )
}

pub open spec fn spec_loader_entries(e: Seq<FabricLoaderEntry>) -> Seq<(Seq<char>, bool, bool)> {
    e.map_values(
        |x: FabricLoaderEntry| (x.loader_version@, x.loader_stable, x.intermediary_stable),
    )
}

pub open spec fn spec_installer_candidates(e: Seq<FabricInstallerEntry>) -> Seq<
    VersionCandidateView,
> {
    e.filter(|x: FabricInstallerEntry| x.stable).map_values(
        |x: FabricInstallerEntry| VersionCandidateView {
            key: x.loader_version.deep_view(),
            value: x.version@,
        },
    )
}

/// The stable loaders (loader and intermediary both stable), as candidates.
pub fn loader_candidates(entries: &Vec<FabricLoaderEntry>) -> (r: Vec<VersionCandidate>)
    ensures
        r.deep_view() == spec_loader_candidates(spec_loader_entries(entries@)),
{
    let ghost s = spec_loader_entries(entries@);
    let ghost p = |x: (Seq<char>, bool, bool)| x.1 && x.2;
    let ghost f = |x: (Seq<char>, bool, bool)| VersionCandidateView { key: Some(x.0), value: x.0 };
    let mut r: Vec<VersionCandidate> = Vec::new();
    let mut i: usize = 0;
    while i < entries.len()
        invariant
            s == spec_loader_entries(entries@),
            p == (|x: (Seq<char>, bool, bool)| x.1 && x.2),
            f == (|x: (Seq<char>, bool, bool)| VersionCandidateView { key: Some(x.0), value: x.0 }),
            i <= entries.len(),
            r.deep_view() == s.take(i as int).filter(p).map_values(f),
        decreases entries.len() - i,
    {
        let ghost before = r.deep_view();
        proof {
            assert(s.take(i as int + 1) =~= s.take(i as int).push(s[i as int]));
            s.take(i as int).lemma_filter_push(s[i as int], p);
        }
        if entries[i].loader_stable && entries[i].intermediary_stable {
            let v = entries[i].loader_version.clone();
            r.push(VersionCandidate { key: Some(v.clone()), value: v });
            proof {
                let g = s.take(i as int).filter(p);
                assert(g.push(s[i as int]).map_values(f) =~= g.map_values(f).push(f(s[i as int])));
                assert(r.deep_view() =~= before.push(f(s[i as int])));
            }
        }
        i = i + 1;
    }
    proof {
        assert(s.take(s.len() as int) =~= s);
    }
    r
}

/// The stable installers, as candidates.
pub fn installer_candidates(entries: &Vec<FabricInstallerEntry>) -> (r: Vec<VersionCandidate>)
    ensures
        r.deep_view() == spec_installer_candidates(entries@),
{
    let ghost s = entries@;
    let ghost p = |x: FabricInstallerEntry| x.stable;
    let ghost f = |x: FabricInstallerEntry|
        VersionCandidateView { key: x.loader_version.deep_view(), value: x.version@ };
    let mut r: Vec<VersionCandidate> = Vec::new();
    let mut i: usize = 0;
    while i < entries.len()
        invariant
            s == entries@,
            p == (|x: FabricInstallerEntry| x.stable),
            f == (|x: FabricInstallerEntry|
                VersionCandidateView { key: x.loader_version.deep_view(), value: x.version@ }),
            i <= entries.len(),
            r.deep_view() == s.take(i as int).filter(p).map_values(f),
        decreases entries.len() - i,
    {
        let ghost before = r.deep_view();
        proof {
            assert(s.take(i as int + 1) =~= s.take(i as int).push(s[i as int]));
            s.take(i as int).lemma_filter_push(s[i as int], p);
        }
        if entries[i].stable {
            let key = match &entries[i].loader_version {
                Some(k) => Some(k.clone()),
                None => None,
            };
            r.push(VersionCandidate { key, value: entries[i].version.clone() });
            proof {
                let g = s.take(i as int).filter(p);
                assert(g.push(s[i as int]).map_values(f) =~= g.map_values(f).push(f(s[i as int])));
                assert(r.deep_view() =~= before.push(f(s[i as int])));
            }
        }
        i = i + 1;
    }
    proof {
        assert(s.take(s.len() as int) =~= s);
    }
    r
}

/// The address of a Fabric server jar.
pub open spec fn spec_fabric_jar_url(version: Seq<char>, loader: Seq<char>, installer: Seq<char>) -> Seq<
    char,
> {
    "https://meta.fabricmc.net/v2/versions/loader/"@ + version + "/"@ + loader + "/"@ + installer
        + "/server/jar"@
}

/// The address of a Fabric server jar.
pub fn fabric_jar_url(version: &str, loader: &str, installer: &str) -> (s: String)
    ensures
        s@ == spec_fabric_jar_url(version@, loader@, installer@),
{
    let mut s = String::from_str("https://meta.fabricmc.net/v2/versions/loader/");
    push_str(&mut s, version);
    push_str(&mut s, "/");
    push_str(&mut s, loader);
    push_str(&mut s, "/");
    push_str(&mut s, installer);
    push_str(&mut s, "/server/jar");
    s
}

/// The address of the Fabric server jar for a Minecraft version, given the
/// loader and installer versions that were chosen and, for those that were
/// not, Fabric's lists (`None` when a list could not be had): with both
/// chosen, those; else each one not chosen is the greatest stable one of its
/// list, and a chosen one stands for itself only when both were chosen (it
/// is left empty otherwise). `None` when a list that is needed is missing or
/// has no stable entry.
pub open spec fn spec_fabric_url_from(
    version: Seq<char>,
    loader: Option<Seq<char>>,
    installer: Option<Seq<char>>,
    loaders: Option<Seq<VersionCandidateView>>,
    installers: Option<Seq<VersionCandidateView>>,
) -> Option<Seq<char>> {
    if loader is Some && installer is Some {
        Some(spec_fabric_jar_url(version, loader->0, installer->0))
    } else {
        let l = if loader is None {
            match loaders {
                Some(c) => spec_latest(c),
                None => None,
            }
        } else {
            Some(Seq::empty())
        };
        let i = if installer is None {
            match installers {
                Some(c) => spec_latest(c),
                None => None,
            }
        } else {
            Some(Seq::empty())
        };
        match (l, i) {
            (Some(lv), Some(iv)) => Some(spec_fabric_jar_url(version, lv, iv)),
            _ => None,
        }
    }
}

/// Whether the choices that [`spec_fabric_url_from`] makes can be made:
/// when a list is used and the one before it was found, every comparison of
/// its greatest-entry search can be made.
pub open spec fn spec_fabric_url_defined(
    loader: Option<Seq<char>>,
    installer: Option<Seq<char>>,
    loaders: Option<Seq<VersionCandidateView>>,
    installers: Option<Seq<VersionCandidateView>>,
) -> bool {
    !(loader is Some && installer is Some) ==> {
        &&& (loader is None && loaders is Some) ==> spec_max_defined(
            loaders->0,
            loaders->0.len() as int,
        )
        &&& (installer is None && installers is Some && !(loader is None && (loaders is None
            || spec_latest(loaders->0) is None))) ==> spec_max_defined(
            installers->0,
            installers->0.len() as int,
        )
    }
}

/// The address of the Fabric server jar (see [`spec_fabric_url_from`]).
pub fn fabric_url_from(
    version: &str,
    loader: Option<&str>,
    installer: Option<&str>,
    loaders: Option<Vec<VersionCandidate>>,
    installers: Option<Vec<VersionCandidate>>,
) -> (r: Option<String>)
    requires
        spec_fabric_url_defined(
            loader.deep_view(),
            installer.deep_view(),
            loaders.deep_view(),
            installers.deep_view(),
        ),
    ensures
        r.deep_view() == spec_fabric_url_from(
            version@,
            loader.deep_view(),
            installer.deep_view(),
            loaders.deep_view(),
            installers.deep_view(),
        ),
{
    if let (Some(l), Some(i)) = (loader, installer) {
        return Some(fabric_jar_url(version, l, i));
    }
    let loader_version = match loader {
        None => match &loaders {
            Some(c) => match latest_by_version(c) {
                Some(v) => v,
                None => {
                    return None;
                },
            },
            None => {
                return None;
            },
        },
        Some(_) => String::new(),
    };
    let installer_version = match installer {
        None => match &installers {
            Some(c) => match latest_by_version(c) {
                Some(v) => v,
                None => {
                    return None;
                },
            },
            None => {
                return None;
            },
        },
        Some(_) => String::new(),
    };
    Some(fabric_jar_url(version, loader_version.as_str(), installer_version.as_str()))
}

fn order_parts_defined(a: &Vec<String>, b: &Vec<String>) -> (d: bool)
    ensures
        d == spec_order_parts(a.deep_view(), b.deep_view()) is Some,
{
    let ghost sa = a.deep_view();
    let ghost sb = b.deep_view();
    let mut i: usize = 0;
    while i < a.len() && i < b.len()
        invariant
            sa == a.deep_view(),
            sb == b.deep_view(),
            i <= a.len(),
            i <= b.len(),
            spec_order_parts(sa, sb) == spec_order_parts(sa.skip(i as int), sb.skip(i as int)),
        decreases a.len() - i,
    {
        assert(sa.skip(i as int)[0] == sa[i as int]);
        assert(sb.skip(i as int)[0] == sb[i as int]);
        assert(sa.skip(i as int).drop_first() =~= sa.skip(i as int + 1));
        assert(sb.skip(i as int).drop_first() =~= sb.skip(i as int + 1));
        let x = match parse_i32(str_chars(a[i].as_str()).as_slice()) {
            Some(x) => x,
            None => {
                return false;
            },
        };
        let y = match parse_i32(str_chars(b[i].as_str()).as_slice()) {
            Some(y) => y,
            None => {
                return false;
            },
        };
        if x != y {
            return true;
        }
        i = i + 1;
    }
    true
}

fn order_candidates_defined(a: &VersionCandidate, b: &VersionCandidate) -> (d: bool)
    ensures
        d == spec_order_candidates(a@, b@) is Some,
{
    match (&a.key, &b.key) {
        (Some(x), Some(y)) => {
            let pa = split_chars(str_chars(x.as_str()).as_slice(), '.');
            let pb = split_chars(str_chars(y.as_str()).as_slice(), '.');
            order_parts_defined(&pa, &pb)
        },
        _ => false,
    }
}

/// Whether every comparison that choosing the greatest candidate makes can
/// be made.
pub fn max_defined(c: &Vec<VersionCandidate>) -> (d: bool)
    ensures
        d == spec_max_defined(c.deep_view(), c.deep_view().len() as int),
{
    let ghost s = c.deep_view();
    if c.len() <= 1 {
        return true;
    }
    let mut m: usize = 0;
    let mut i: usize = 1;
    while i < c.len()
        invariant
            s == c.deep_view(),
            1 <= i <= c.len(),
            m == spec_max_index(s, i as int),
            spec_max_defined(s, i as int),
        decreases c.len() - i,
    {
        proof {
            lemma_max_index_bound(s, i as int);
        }
        if !order_candidates_defined(&c[m], &c[i]) {
            proof {
                lemma_max_defined_prefix_neg(s, s.len() as int, i as int + 1);
            }
            return false;
        }
        let o = order_candidates(&c[m], &c[i]);
        let greater = match o {
            VersionOrder::Greater => true,
            _ => false,
        };
        if !greater {
            m = i;
        }
        i = i + 1;
    }
    true
}

proof fn lemma_max_defined_prefix_neg(c: Seq<VersionCandidateView>, n: int, k: int)
    requires
        !spec_max_defined(c, k),
        k <= n,
    ensures
        !spec_max_defined(c, n),
{
    if spec_max_defined(c, n) {
        lemma_max_defined_prefix(c, n, k);
    }
}

/// Whether the choices of [`fabric_url_from`] can be made (see
/// [`spec_fabric_url_defined`]).
pub fn fabric_url_defined(
    loader: Option<&str>,
    installer: Option<&str>,
    loaders: &Option<Vec<VersionCandidate>>,
    installers: &Option<Vec<VersionCandidate>>,
) -> (d: bool)
    ensures
        d == spec_fabric_url_defined(
            loader.deep_view(),
            installer.deep_view(),
            loaders.deep_view(),
            installers.deep_view(),
        ),
{
    if loader.is_some() && installer.is_some() {
        return true;
    }
    let mut loader_found = true;
    if loader.is_none() {
        match loaders {
            Some(c) => {
                if !max_defined(c) {
                    return false;
                }
                loader_found = c.len() > 0;
            },
            None => {
                loader_found = false;
            },
        }
    }
    if installer.is_none() && loader_found {
        match installers {
            Some(c) => {
                return max_defined(c);
            },
            None => {},
        }
    }
    true
}

// ---------------------------------------------------------------------------
// The Java runtime
// ---------------------------------------------------------------------------

/// The architecture name Adoptium uses: `x64` for `x86_64`, else the name
/// itself.
pub open spec fn spec_adoptium_arch(arch: Seq<char>) -> Seq<char> {
    if arch == "x86_64"@ {
        "x64"@
    } else {
        arch
    }
}

/// Where the latest Java runtime of a major version is downloaded from, for
/// an operating system and an architecture (as Rust names them), with that
/// major version.
pub fn jre_url(major_java_version: u64, os: &str, arch: &str) -> (r: (String, u64))
    ensures
        r.0@ == "https://api.adoptium.net/v3/binary/latest/"@ + crate::text::spec_decimal(
            major_java_version as nat,
        ) + "/ga/"@ + os@ + "/"@ + spec_adoptium_arch(arch@) + "/jre/hotspot/normal/eclipse"@,
        r.1 == major_java_version,
{
    let mut s = String::from_str("https://api.adoptium.net/v3/binary/latest/");
    push_str(&mut s, crate::text::to_decimal(major_java_version).as_str());
    push_str(&mut s, "/ga/");
    push_str(&mut s, os);
    push_str(&mut s, "/");
    if crate::text::str_eq(arch, "x86_64") {
        push_str(&mut s, "x64");
    } else {
        push_str(&mut s, arch);
    }
    push_str(&mut s, "/jre/hotspot/normal/eclipse");
    (s, major_java_version)
}

} // verus!
