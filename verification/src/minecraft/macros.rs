//! Which file runs a macro: `<name>.ts`, else `<name>.js`, else, for a
//! folder `<name>`, its `index.ts` or else its `index.js`; and the list of
//! the macros of an instance, by name.
use vstd::prelude::*;
use vstd::string::*;

use crate::text::{str_chars, str_eq};

verus! {

/// The file that runs a macro.
#[derive(Debug, Clone, Copy, PartialEq, Eq, Structural)]
pub enum MacroFile {
    /// `<name>.ts` in the macro directory.
    Ts,
    /// `<name>.js` in the macro directory.
    Js,
    /// `index.ts` in the folder `<name>`.
    IndexTs,
    /// `index.js` in the folder `<name>`.
    IndexJs,
}

/// What was found in the macro directory for a macro's name.
#[derive(Debug, Clone, Copy)]
pub struct MacroProbe {
    /// `<name>.ts` is a file.
    pub ts_is_file: bool,
    /// `<name>.js` is a file.
    pub js_is_file: bool,
    /// `<name>` is a folder.
    pub folder_is_dir: bool,
    /// `<name>/index.ts` exists.
    pub index_ts_exists: bool,
    /// `<name>/index.js` exists.
    pub index_js_exists: bool,
}

/// The file that runs a macro, given what the macro directory holds:
/// `<name>.ts` first, then `<name>.js`, then, for a folder, its `index.ts`
/// and then its `index.js`; `None` when there is none.
pub fn resolve_macro_invocation(probe: &MacroProbe) -> (r: Option<MacroFile>)
    ensures
        r == if probe.ts_is_file {
            Some(MacroFile::Ts)
        } else if probe.js_is_file {
            Some(MacroFile::Js)
        } else if probe.folder_is_dir && probe.index_ts_exists {
            Some(MacroFile::IndexTs)
        } else if probe.folder_is_dir && probe.index_js_exists {
            Some(MacroFile::IndexJs)
        } else {
            None
        },
{
    if probe.ts_is_file {
        Some(MacroFile::Ts)
    } else if probe.js_is_file {
        Some(MacroFile::Js)
    } else if probe.folder_is_dir {
        if probe.index_ts_exists {
            Some(MacroFile::IndexTs)
        } else if probe.index_js_exists {
            Some(MacroFile::IndexJs)
        } else {
            None
        }
    } else {
        None
    }
}

// ---------------------------------------------------------------------------
// The order of names
// ---------------------------------------------------------------------------

/// Whether a text comes strictly before another in the order of std's
/// `String` (character by character, by code point; a proper prefix comes
/// first).
pub open spec fn spec_name_lt(a: Seq<char>, b: Seq<char>) -> bool
    decreases a.len(),
{
    if b.len() == 0 {
        false
    } else if a.len() == 0 {
        true
    } else if a[0] < b[0] {
        true
    } else if a[0] == b[0] {
        spec_name_lt(a.drop_first(), b.drop_first())
    } else {
        false
    }
}

/// No text comes before itself.
pub proof fn lemma_name_lt_irreflexive(a: Seq<char>)
    ensures
        !spec_name_lt(a, a),
    decreases a.len(),
{
    if a.len() > 0 {
        lemma_name_lt_irreflexive(a.drop_first());
    }
}

/// The order of texts is transitive.
pub proof fn lemma_name_lt_transitive(a: Seq<char>, b: Seq<char>, c: Seq<char>)
    requires
        spec_name_lt(a, b),
        spec_name_lt(b, c),
    ensures
        spec_name_lt(a, c),
    decreases a.len(),
{
    if a.len() > 0 && b.len() > 0 && c.len() > 0 && a[0] == b[0] && b[0] == c[0] {
        lemma_name_lt_transitive(a.drop_first(), b.drop_first(), c.drop_first());
    }
}

/// Two different texts come one before the other.
pub proof fn lemma_name_lt_total(a: Seq<char>, b: Seq<char>)
    ensures
        a == b || spec_name_lt(a, b) || spec_name_lt(b, a),
    decreases a.len(),
{
    if a.len() > 0 && b.len() > 0 {
        if a[0] == b[0] {
            lemma_name_lt_total(a.drop_first(), b.drop_first());
            if a.drop_first() == b.drop_first() {
                assert(a =~= seq![a[0]] + a.drop_first());
                assert(b =~= seq![b[0]] + b.drop_first());
            }
        }
    } else if a.len() == 0 && b.len() == 0 {
        assert(a =~= b);
    }
}

/// Whether `a` comes strictly before `b`.
pub fn name_lt(a: &str, b: &str) -> (r: bool)
    ensures
        r == spec_name_lt(a@, b@),
{
    let x = str_chars(a);
    let y = str_chars(b);
    let mut i: usize = 0;
    assert(a@.skip(0) =~= a@ && b@.skip(0) =~= b@);
    while i < x.len() && i < y.len() && x[i] == y[i]
        invariant
            i <= x.len(),
            i <= y.len(),
            x@ == a@,
            y@ == b@,
            spec_name_lt(a@, b@) == spec_name_lt(a@.skip(i as int), b@.skip(i as int)),
        decreases x.len() - i,
    {
        assert(a@.skip(i as int).drop_first() =~= a@.skip(i as int + 1));
        assert(b@.skip(i as int).drop_first() =~= b@.skip(i as int + 1));
        i = i + 1;
    }
    if i == y.len() {
        false
    } else if i == x.len() {
        true
    } else {
        x[i] < y[i]
    }
}

// ---------------------------------------------------------------------------
// The macro list
// ---------------------------------------------------------------------------

/// An entry of an instance's macro directory, as the file system shows it.
#[derive(Debug)]
pub struct MacroDirEntry {
    /// The entry's file name.
    pub name: String,
    pub is_file: bool,
    pub is_dir: bool,
    /// The extension of a file's name.
    pub extension: Option<String>,
    /// The entry, a folder, holds `index.ts`.
    pub has_index_ts: bool,
    /// The entry, a folder, holds `index.js`.
    pub has_index_js: bool,
}

/// Whether an entry of the macro directory is a macro: a `.ts` or `.js`
/// file, or a folder with an `index.ts` or `index.js`.
pub open spec fn spec_is_macro(e: MacroDirEntry) -> bool {
    if e.is_file {
        e.extension matches Some(x) && (x@ == "ts"@ || x@ == "js"@)
    } else if e.is_dir {
        e.has_index_ts || e.has_index_js
    } else {
        false
    }
}

/// A macro of an instance: its name, and when it was last run (seconds
/// since the Unix epoch), if it was.
#[derive(Debug, PartialEq, Eq)]
pub struct MacroEntry {
    pub name: String,
    pub last_run: Option<i64>,
}

/// When a macro was last run, from the runs recorded in order: the time of
/// the last run of that name.
pub open spec fn spec_last_run(runs: Seq<(String, i64)>, name: Seq<char>) -> Option<i64>
    decreases runs.len(),
{
    if runs.len() == 0 {
        None
    } else if runs.last().0@ == name {
        Some(runs.last().1)
    } else {
        spec_last_run(runs.drop_last(), name)
    }
}

/// The macros among the entries of the macro directory, in the order of the
/// directory, each with when it was last run.
pub open spec fn spec_macros(entries: Seq<MacroDirEntry>, runs: Seq<(String, i64)>) -> Seq<
    (Seq<char>, Option<i64>),
> {
    entries.filter(spec_macro_pred()).map_values(
        |e: MacroDirEntry| (e.name@, spec_last_run(runs, e.name@)),
    )
}

pub open spec fn spec_entry_view(e: MacroEntry) -> (Seq<char>, Option<i64>) {
    (e.name@, e.last_run)
}

/// The macros by name and time of their last run.
pub open spec fn spec_entries_view(s: Seq<MacroEntry>) -> Seq<(Seq<char>, Option<i64>)> {
    s.map_values(|e: MacroEntry| spec_entry_view(e))
}

pub open spec fn spec_macro_pred() -> spec_fn(MacroDirEntry) -> bool {
    |e: MacroDirEntry| spec_is_macro(e)
}

/// Whether a macro has the given name.
pub open spec fn spec_named(n: Seq<char>) -> spec_fn((Seq<char>, Option<i64>)) -> bool {
    |m: (Seq<char>, Option<i64>)| m.0 == n
}

/// Which entries of the macro directory are listed: every `.ts` or `.js`
/// file and every folder holding an `index.ts` or an `index.js` is listed,
/// under its name and with its last run; and whatever is listed is such a
/// file or folder of the directory.
pub proof fn lemma_listed_macros(entries: Seq<MacroDirEntry>, runs: Seq<(String, i64)>, k: int)
    requires
        0 <= k < entries.len(),
    ensures
        entries[k].is_file && (entries[k].extension matches Some(x) && (x@ == "ts"@ || x@ == "js"@))
            ==> spec_macros(entries, runs).contains(
            (entries[k].name@, spec_last_run(runs, entries[k].name@)),
        ),
        !entries[k].is_file && entries[k].is_dir && (entries[k].has_index_ts
            || entries[k].has_index_js) ==> spec_macros(entries, runs).contains(
            (entries[k].name@, spec_last_run(runs, entries[k].name@)),
        ),
        forall|m: (Seq<char>, Option<i64>)|
            #[trigger] spec_macros(entries, runs).contains(m) ==> exists|j: int|
                0 <= j < entries.len() && entries[j].name@ == m.0 && m.1 == spec_last_run(
                    runs,
                    m.0,
                ) && ((entries[j].is_file && (entries[j].extension matches Some(x) && (x@
                    == "ts"@ || x@ == "js"@))) || (!entries[j].is_file && entries[j].is_dir && (
                entries[j].has_index_ts || entries[j].has_index_js))),
{
    let f = spec_macro_pred();
    let g = |e: MacroDirEntry| (e.name@, spec_last_run(runs, e.name@));
    let fl = entries.filter(f);
    if f(entries[k]) {
        entries.lemma_filter_contains(f, k);
        let j = choose|j: int| 0 <= j < fl.len() && fl[j] == entries[k];
        assert(fl.map_values(g)[j] == g(entries[k]));
    }
    assert forall|m: (Seq<char>, Option<i64>)| #[trigger] spec_macros(entries, runs).contains(m) implies exists|j: int|
                0 <= j < entries.len() && entries[j].name@ == m.0 && m.1 == spec_last_run(
                    runs,
                    m.0,
                ) && ((entries[j].is_file && (entries[j].extension matches Some(x) && (x@
                    == "ts"@ || x@ == "js"@))) || (!entries[j].is_file && entries[j].is_dir && (
                entries[j].has_index_ts || entries[j].has_index_js))) by {
        let i = choose|i: int| 0 <= i < fl.map_values(g).len() && fl.map_values(g)[i] == m;
        let e = fl[i];
        entries.lemma_filter_pred(f, i);
        assert(fl.contains(e));
        entries.lemma_filter_contains_rev(f, e);
        let j = choose|j: int| 0 <= j < entries.len() && entries[j] == e;
        assert(f(entries[j]));
    }
}

fn is_macro(e: &MacroDirEntry) -> (b: bool)
    ensures
        b == spec_is_macro(*e),
{
    if e.is_file {
        match &e.extension {
            Some(x) => str_eq(x.as_str(), "ts") || str_eq(x.as_str(), "js"),
            None => false,
        }
    } else if e.is_dir {
        e.has_index_ts || e.has_index_js
    } else {
        false
    }
}

fn last_run(runs: &Vec<(String, i64)>, name: &str) -> (r: Option<i64>)
    ensures
        r == spec_last_run(runs@, name@),
{
    let mut i: usize = runs.len();
    assert(runs@.take(runs.len() as int) =~= runs@);
    while i > 0
        invariant
            i <= runs.len(),
            spec_last_run(runs@, name@) == spec_last_run(runs@.take(i as int), name@),
        decreases i,
    {
        assert(runs@.take(i as int).drop_last() =~= runs@.take(i as int - 1));
        if str_eq(runs[i - 1].0.as_str(), name) {
            return Some(runs[i - 1].1);
        }
        i = i - 1;
    }
    None
}

/// Inserting a macro after every one whose name does not come after its
/// own, and before the others, keeps the list in order of names and puts
/// it last among those of its name.
proof fn lemma_insert_by_name(
    r: Seq<(Seq<char>, Option<i64>)>,
    pos: int,
    x: (Seq<char>, Option<i64>),
)
    requires
        forall|i: int, j: int| 0 <= i < j < r.len() ==> !spec_name_lt(r[j].0, r[i].0),
        0 <= pos <= r.len(),
        forall|j: int| 0 <= j < pos ==> !spec_name_lt(x.0, r[j].0),
        pos < r.len() ==> spec_name_lt(x.0, r[pos].0),
    ensures
        forall|i: int, j: int|
            0 <= i < j < r.insert(pos, x).len() ==> !spec_name_lt(
                r.insert(pos, x)[j].0,
                r.insert(pos, x)[i].0,
            ),
        forall|n: Seq<char>| #[trigger] r.insert(pos, x).filter(spec_named(n)) == if n == x.0 {
            r.filter(spec_named(n)).push(x)
        } else {
            r.filter(spec_named(n))
        },
{
    let s = r.insert(pos, x);
    assert forall|j: int| pos <= j < r.len() implies spec_name_lt(x.0, r[j].0) by {
        if j > pos {
            lemma_name_lt_total(r[pos].0, r[j].0);
            if r[pos].0 != r[j].0 {
                lemma_name_lt_transitive(x.0, r[pos].0, r[j].0);
            }
        }
    }
    assert forall|i: int, j: int| 0 <= i < j < s.len() implies !spec_name_lt(s[j].0, s[i].0) by {
        if i == pos {
            if spec_name_lt(s[j].0, x.0) {
                lemma_name_lt_transitive(x.0, s[j].0, x.0);
                lemma_name_lt_irreflexive(x.0);
            }
        } else if j == pos {
        } else if i < pos && j > pos {
            assert(s[i] == r[i] && s[j] == r[j - 1]);
        } else if j < pos {
            assert(s[i] == r[i] && s[j] == r[j]);
        } else {
            assert(s[i] == r[i - 1] && s[j] == r[j - 1]);
        }
    }
    let a = r.take(pos);
    let b = r.skip(pos);
    assert(s =~= a + seq![x] + b);
    assert(r =~= a + b);
    assert forall|n: Seq<char>| #[trigger] s.filter(spec_named(n)) == if n == x.0 {
        r.filter(spec_named(n)).push(x)
    } else {
        r.filter(spec_named(n))
    } by {
        let p = spec_named(n);
        Seq::filter_distributes_over_add(a + seq![x], b, p);
        Seq::filter_distributes_over_add(a, seq![x], p);
        Seq::filter_distributes_over_add(a, b, p);
        reveal_with_fuel(Seq::filter, 2);
        assert(seq![x].drop_last() =~= Seq::<(Seq<char>, Option<i64>)>::empty());
        if n == x.0 {
            assert forall|j: int| 0 <= j < b.len() implies b[j].0 != n by {
                lemma_name_lt_irreflexive(x.0);
            }
            lemma_filter_unnamed(b, n);
            assert(a.filter(p) + seq![x] + Seq::<(Seq<char>, Option<i64>)>::empty() =~= (a.filter(p)
                + Seq::<(Seq<char>, Option<i64>)>::empty()).push(x));
        } else {
            assert(a.filter(p) + Seq::<(Seq<char>, Option<i64>)>::empty() + b.filter(p) =~= a.filter(
                p,
            ) + b.filter(p));
        }
    }
}

proof fn lemma_filter_unnamed(s: Seq<(Seq<char>, Option<i64>)>, n: Seq<char>)
    requires
        forall|j: int| 0 <= j < s.len() ==> s[j].0 != n,
    ensures
        s.filter(spec_named(n)) == Seq::<(Seq<char>, Option<i64>)>::empty(),
    decreases s.len(),
{
    reveal(Seq::filter);
    if s.len() > 0 {
        lemma_filter_unnamed(s.drop_last(), n);
    }
}

/// The macros of an instance, in the order of their names (macros of one
/// name keep the order of the directory), each with when it was last run:
/// the entries of the macro directory that are `.ts` or `.js` files or
/// folders with an `index.ts` or `index.js`.
pub fn macro_list(entries: Vec<MacroDirEntry>, runs: &Vec<(String, i64)>) -> (r: Vec<MacroEntry>)
    ensures
        forall|i: int, j: int|
            0 <= i < j < r@.len() ==> !spec_name_lt(r@[j].name@, r@[i].name@),
        forall|n: Seq<char>| #[trigger] spec_entries_view(r@).filter(
            spec_named(n),
        ) == spec_macros(entries@, runs@).filter(spec_named(n)),
{
    let ghost orig = entries@;
    let mut rest = entries;
    let mut r: Vec<MacroEntry> = Vec::new();
    let ghost mut done: int = 0;
    while rest.len() > 0
        invariant
            0 <= done <= orig.len(),
            rest@ == orig.skip(done),
            forall|i: int, j: int|
                0 <= i < j < r@.len() ==> !spec_name_lt(r@[j].name@, r@[i].name@),
            forall|n: Seq<char>| #[trigger] spec_entries_view(r@).filter(
                spec_named(n),
            ) == spec_macros(orig.take(done), runs@).filter(spec_named(n)),
        decreases rest.len(),
    {
        let e = rest.remove(0);
        proof {
            assert(e == orig[done]);
            assert(rest@ =~= orig.skip(done + 1));
            assert(orig.take(done + 1) =~= orig.take(done).push(e));
            orig.take(done).lemma_filter_push(e, spec_macro_pred());
        }
        if is_macro(&e) {
            let lr = last_run(runs, e.name.as_str());
            let ghost xv = (e.name@, lr);
            let ghost before = spec_entries_view(r@);
            let mut pos: usize = 0;
            while pos < r.len() && !name_lt(e.name.as_str(), r[pos].name.as_str())
                invariant
                    pos <= r.len(),
                    forall|j: int| 0 <= j < pos ==> !spec_name_lt(e.name@, r@[j].name@),
                decreases r.len() - pos,
            {
                pos = pos + 1;
            }
            proof {
                assert forall|i: int, j: int| 0 <= i < j < before.len() implies !spec_name_lt(
                    before[j].0,
                    before[i].0,
                ) by {
                    assert(before[i] == spec_entry_view(r@[i]));
                    assert(before[j] == spec_entry_view(r@[j]));
                }
                assert forall|j: int| 0 <= j < pos implies !spec_name_lt(xv.0, before[j].0) by {
                    assert(before[j] == spec_entry_view(r@[j]));
                }
                if pos < r.len() {
                    assert(before[pos as int] == spec_entry_view(r@[pos as int]));
                }
                lemma_insert_by_name(before, pos as int, xv);
                assert(spec_macros(orig.take(done + 1), runs@) =~= spec_macros(orig.take(done), runs@).push(xv));
                assert forall|n: Seq<char>| #[trigger] before.insert(pos as int, xv).filter(spec_named(n))
                    == spec_macros(orig.take(done + 1), runs@).filter(spec_named(n)) by {
                    spec_macros(orig.take(done), runs@).lemma_filter_push(xv, spec_named(n));
                }
            }
            r.insert(pos, MacroEntry { name: e.name, last_run: lr });
            proof {
                let after = spec_entries_view(r@);
                assert(after =~= before.insert(pos as int, xv));
                assert forall|i: int, j: int| 0 <= i < j < r@.len() implies !spec_name_lt(
                    r@[j].name@,
                    r@[i].name@,
                ) by {
                    assert(after[i] == spec_entry_view(r@[i]));
                    assert(after[j] == spec_entry_view(r@[j]));
                    assert(!spec_name_lt(
                        before.insert(pos as int, xv)[j].0,
                        before.insert(pos as int, xv)[i].0,
                    ));
                }
            }
        } else {
            proof {
                assert(spec_macros(orig.take(done + 1), runs@) =~= spec_macros(orig.take(done), runs@));
            }
        }
        proof {
            done = done + 1;
        }
    }
    proof {
        assert(orig.take(done) =~= orig);
    }
    r
}

} // verus!
