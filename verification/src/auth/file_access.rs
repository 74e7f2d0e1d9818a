//! Who may read and write the files of an instance: reading needs the right
//! to read the instance's files, writing the right to write them, and files
//! whose extension is protected (programs, scripts, the instance's own
//! configuration), or that have none, may only be written by users who may
//! write global files. Also the reading of `Bearer` authorization headers.
use vstd::prelude::*;
use vstd::string::*;

use crate::auth::user::{spec_can_perform, User, UserAction};
use crate::text::{push_str, spec_ascii_words, split_ascii_whitespace, str_chars, str_eq};
use crate::traits::{Error, ErrorInner};
use crate::types::InstanceUuid;

verus! {

/// Whether a file extension is one that may not be written without the
/// right to write global files.
pub open spec fn spec_protected_extension(ext: Seq<char>) -> bool {
    ||| ext == "jar"@
    ||| ext == "lua"@
    ||| ext == "sh"@
    ||| ext == "exe"@
    ||| ext == "bat"@
    ||| ext == "cmd"@
    ||| ext == "msi"@
    ||| ext == "lodestone_config"@
    ||| ext == "out"@
    ||| ext == "inf"@
}

/// Whether a file of the given extension (`None`: no extension) is
/// protected: a file without extension is.
pub open spec fn spec_protected(ext: Option<Seq<char>>) -> bool {
    match ext {
        Some(e) => spec_protected_extension(e),
        None => true,
    }
}

/// Whether a file of the given extension (`None`: no extension) is
/// protected.
pub fn is_extension_protected(ext: Option<&str>) -> (b: bool)
    ensures
        b == spec_protected(ext.deep_view()),
{
    match ext {
        Some(e) => str_eq(e, "jar") || str_eq(e, "lua") || str_eq(e, "sh") || str_eq(e, "exe")
            || str_eq(e, "bat") || str_eq(e, "cmd") || str_eq(e, "msi") || str_eq(
            e,
            "lodestone_config",
        ) || str_eq(e, "out") || str_eq(e, "inf"),
        None => true,
    }
}

/// Whether a path is one bare file name on every platform: no `/`, backslash
/// or `:` in it, and not `..`.
pub open spec fn spec_bare_name(path: Seq<char>) -> bool {
    !path.contains('/') && !path.contains('\\') && !path.contains(':') && path != ".."@
}

/// The extension of the file a path names (std's `Path::extension`, as
/// text). For a bare file name it is what follows the last `.` that is not
/// the name's first character, as std's documentation describes; for other
/// paths nothing is stated, since how a path splits into components depends
/// on the platform's separators.
#[verifier::external_body]
fn path_extension(path: &str) -> (ext: Option<String>)
    ensures
        spec_bare_name(path@) ==> ext.deep_view() == spec_name_extension(path@),
{
    std::path::Path::new(path).extension().map(|e| e.to_string_lossy().into_owned())
}

/// The extension of the file a path names, and whether that file is
/// protected.
pub fn file_protection(path: &str) -> (r: (Option<String>, bool))
    ensures
        r.1 == spec_protected(r.0.deep_view()),
        spec_bare_name(path@) ==> r.0.deep_view() == spec_name_extension(path@),
{
    let ext = path_extension(path);
    let protected = match &ext {
        Some(e) => is_extension_protected(Some(e.as_str())),
        None => is_extension_protected(None),
    };
    (ext, protected)
}

/// Whether the file a path names is protected (its extension is protected,
/// or it has none).
pub fn is_file_protected(path: &str) -> (b: bool)
    ensures
        spec_bare_name(path@) ==> b == spec_protected(spec_name_extension(path@)),
{
    let r = file_protection(path);
    r.1
}

/// Whether a user may reach the files of an instance: to read them, the
/// right to read instance files; to write them, the right to write them.
pub open spec fn spec_may_access_files(
    u: crate::auth::user::UserView,
    instance: InstanceUuid,
    write: bool,
) -> bool {
    if write {
        spec_can_perform(u, UserAction::WriteInstanceFile(instance))
    } else {
        spec_can_perform(u, UserAction::ReadInstanceFile(instance))
    }
}

/// Refuses, as a denied permission, a user who may not reach the files of
/// an instance.
pub fn check_instance_file_access(user: &User, instance: &InstanceUuid, write: bool) -> (r: Result<
    (),
    Error,
>)
    ensures
        r is Ok <==> spec_may_access_files(user@, *instance, write),
        r is Err ==> r->Err_0.inner == ErrorInner::PermissionDenied,
{
    let action = if write {
        UserAction::WriteInstanceFile(instance.clone())
    } else {
        UserAction::ReadInstanceFile(instance.clone())
    };
    if user.can_perform_action(&action) {
        Ok(())
    } else {
        Err(Error::new(ErrorInner::PermissionDenied, "Not authorized to access instance files"))
    }
}

/// Whether a user may write a file of the given extension: the right to
/// write global files allows any; else the file must not be protected.
pub open spec fn spec_may_write_extension(u: crate::auth::user::UserView, ext: Option<Seq<char>>) -> bool {
    spec_can_perform(u, UserAction::WriteGlobalFile) || !spec_protected(ext)
}

/// Refuses, as a denied permission naming the extension (`none` for a file
/// without one), the writing of a protected file by a user who may not write
/// global files.
pub fn check_protected(user: &User, ext: Option<&str>) -> (r: Result<(), Error>)
    ensures
        r is Ok <==> spec_may_write_extension(user@, ext.deep_view()),
        r is Err ==> r->Err_0.inner == ErrorInner::PermissionDenied && r->Err_0.detail@
            == "File extension "@ + match ext {
            Some(e) => e@,
            None => "none"@,
        } + " is protected"@,
{
    if !user.can_perform_action(&UserAction::WriteGlobalFile) && is_extension_protected(ext) {
        let mut detail = String::from_str("File extension ");
        match ext {
            Some(e) => push_str(&mut detail, e),
            None => push_str(&mut detail, "none"),
        }
        push_str(&mut detail, " is protected");
        Err(Error { inner: ErrorInner::PermissionDenied, detail })
    } else {
        Ok(())
    }
}

/// The first of a directory's files (given by their extensions) that a user
/// may not write, when a directory is removed: none for a user who may write
/// global files.
pub fn first_protected(user: &User, exts: &Vec<Option<String>>) -> (r: Option<usize>)
    ensures
        match r {
            Some(i) => i < exts@.len() && !spec_may_write_extension(user@, exts@[i as int].deep_view())
                && forall|j: int|
                0 <= j < i ==> spec_may_write_extension(user@, #[trigger] exts@[j].deep_view()),
            None => forall|j: int|
                0 <= j < exts@.len() ==> spec_may_write_extension(user@, #[trigger] exts@[j].deep_view()),
        },
{
    if user.can_perform_action(&UserAction::WriteGlobalFile) {
        return None;
    }
    let mut i: usize = 0;
    while i < exts.len()
        invariant
            i <= exts.len(),
            !spec_can_perform(user@, UserAction::WriteGlobalFile),
            forall|j: int| 0 <= j < i ==> spec_may_write_extension(user@, #[trigger] exts@[j].deep_view()),
        decreases exts.len() - i,
    {
        let protected = match &exts[i] {
            Some(e) => is_extension_protected(Some(e.as_str())),
            None => is_extension_protected(None),
        };
        if protected {
            return Some(i);
        }
        i = i + 1;
    }
    None
}

/// Writing a protected file is for users who may write global files: for a
/// user without that right, a file of a protected extension, or without
/// extension, is refused.
pub proof fn lemma_protected_needs_global_write(u: crate::auth::user::UserView, ext: Option<Seq<char>>)
    requires
        spec_protected(ext),
        !spec_can_perform(u, UserAction::WriteGlobalFile),
    ensures
        !spec_may_write_extension(u, ext),
{
}

// ---------------------------------------------------------------------------
// Uploaded files
// ---------------------------------------------------------------------------

/// Whether a character may not stand in a file name: a path separator, one
/// of `?<>:*|"`, or a control character.
pub open spec fn spec_illegal_in_name(c: char) -> bool {
    ||| c == '/' || c == '?' || c == '<' || c == '>' || c == '\\' || c == ':' || c == '*'
    ||| c == '|' || c == '"'
    ||| ('\u{0}' <= c && c <= '\u{1f}')
    ||| ('\u{80}' <= c && c <= '\u{9f}')
}

/// What sanitize_filename's `sanitize` makes of a name, with the options
/// it takes by default on the platform the library is built for.
pub uninterp spec fn spec_sanitized(name: Seq<char>) -> Seq<char>;

/// A name made safe to use as a file name (sanitize_filename's `sanitize`):
/// the characters above are taken out, a name of dots alone becomes empty,
/// and the name is cut to 255 bytes; on Windows reserved device names and
/// trailing dots and spaces go too. The contract names the result, which
/// depends on the name alone, and states what holds of it on every
/// platform: no character of it is one of those taken out.
#[verifier::external_body]
fn sanitize_file_name(name: &str) -> (r: String)
    ensures
        r@ == spec_sanitized(name@),
        forall|i: int| 0 <= i < r@.len() ==> !spec_illegal_in_name(#[trigger] r@[i]),
{
    sanitize_filename::sanitize(name)
}

/// The extension of a file name without separators (std's
/// `Path::extension` on such a name): what follows its last `.`, when that
/// `.` is not its first character.
pub open spec fn spec_name_extension(n: Seq<char>) -> Option<Seq<char>> {
    match spec_rfind(n, '.') {
        Some(k) => if k > 0 {
            Some(n.skip(k + 1))
        } else {
            None
        },
        None => None,
    }
}

/// The index of the last occurrence of `c` in `s`.
pub open spec fn spec_rfind(s: Seq<char>, c: char) -> Option<int>
    decreases s.len(),
{
    if s.len() == 0 {
        None
    } else if s.last() == c {
        Some(s.len() - 1)
    } else {
        spec_rfind(s.drop_last(), c)
    }
}

proof fn lemma_rfind_bound(s: Seq<char>, c: char)
    ensures
        match spec_rfind(s, c) {
            Some(k) => 0 <= k < s.len() && s[k] == c,
            None => true,
        },
    decreases s.len(),
{
    if s.len() > 0 && s.last() != c {
        lemma_rfind_bound(s.drop_last(), c);
    }
}

fn rfind(s: &[char], c: char) -> (r: Option<usize>)
    ensures
        match r {
            Some(k) => spec_rfind(s@, c) == Some(k as int),
            None => spec_rfind(s@, c) is None,
        },
{
    let mut i: usize = s.len();
    assert(s@.take(i as int) =~= s@);
    while i > 0
        invariant
            i <= s.len(),
            spec_rfind(s@, c) == spec_rfind(s@.take(i as int), c),
        decreases i,
    {
        assert(s@.take(i as int).drop_last() =~= s@.take(i as int - 1));
        if s[i - 1] == c {
            return Some(i - 1);
        }
        i = i - 1;
    }
    None
}

/// The extension of a file name without separators.
pub fn name_extension(n: &str) -> (r: Option<String>)
    ensures
        r.deep_view() == spec_name_extension(n@),
{
    let c = str_chars(n);
    proof {
        lemma_rfind_bound(c@, '.');
    }
    match rfind(c.as_slice(), '.') {
        Some(k) => {
            assert(spec_rfind(c@, '.') == Some(k as int));
            assert(k < c.len());
            if k > 0 {
                let e = crate::text::chars_range(c.as_slice(), k + 1, c.len());
                assert(e@ =~= c@.skip(k + 1));
                Some(crate::text::string_from_chars(e.as_slice()))
            } else {
                None
            }
        },
        None => None,
    }
}

/// The stem of a file name without separators (std's `Path::file_stem` on
/// such a name): what comes before its last `.`, when that `.` is not its
/// first character; else the whole name.
pub open spec fn spec_name_stem(n: Seq<char>) -> Seq<char> {
    match spec_rfind(n, '.') {
        Some(k) => if k > 0 {
            n.take(k)
        } else {
            n
        },
        None => n,
    }
}

/// The stem of a file name without separators.
pub fn name_stem(n: &str) -> (r: String)
    ensures
        r@ == spec_name_stem(n@),
{
    let c = str_chars(n);
    proof {
        lemma_rfind_bound(c@, '.');
    }
    match rfind(c.as_slice(), '.') {
        Some(k) => {
            if k > 0 {
                let e = crate::text::chars_range(c.as_slice(), 0, k);
                assert(e@ =~= c@.take(k as int));
                crate::text::string_from_chars(e.as_slice())
            } else {
                String::from_str(n)
            }
        },
        None => String::from_str(n),
    }
}

/// The name an uploaded file is stored under: its given name made safe; a
/// user who may not write global files may not upload a file of a protected
/// extension, or without one.
pub fn check_upload_name(user: &User, name: &str) -> (r: Result<String, Error>)
    ensures
        r is Ok <==> spec_may_write_extension(user@, spec_name_extension(spec_sanitized(name@))),
        match r {
            Ok(stored) => stored@ == spec_sanitized(name@) && (forall|i: int|
                0 <= i < stored@.len() ==> !spec_illegal_in_name(#[trigger] stored@[i])),
            Err(e) => e.inner == ErrorInner::PermissionDenied && e.detail@ == "File extension "@
                + match spec_name_extension(spec_sanitized(name@)) {
                Some(x) => x,
                None => "none"@,
            } + " is protected"@,
        },
{
    let stored = sanitize_file_name(name);
    let ext = name_extension(stored.as_str());
    let checked = match &ext {
        Some(e) => check_protected(user, Some(e.as_str())),
        None => check_protected(user, None),
    };
    match checked {
        Ok(()) => Ok(stored),
        Err(e) => Err(e),
    }
}

/// The name given to an upload whose name is taken: `<stem>_<n>.<ext>`.
pub fn postfixed_name(stem: &str, postfix: u64, ext: &str) -> (r: String)
    ensures
        r@ == stem@ + "_"@ + crate::text::spec_decimal(postfix as nat) + "."@ + ext@,
{
    let mut r = String::from_str(stem);
    push_str(&mut r, "_");
    push_str(&mut r, crate::text::to_decimal(postfix).as_str());
    push_str(&mut r, ".");
    push_str(&mut r, ext);
    r
}

/// The name `<stem>_<n>.<ext>`.
pub open spec fn spec_postfixed(stem: Seq<char>, n: nat, ext: Seq<char>) -> Seq<char> {
    stem + "_"@ + crate::text::spec_decimal(n) + "."@ + ext
}

/// Different numbers give different postfixed names.
proof fn lemma_postfixed_injective(stem: Seq<char>, ext: Seq<char>, n1: nat, n2: nat)
    requires
        spec_postfixed(stem, n1, ext) == spec_postfixed(stem, n2, ext),
    ensures
        n1 == n2,
{
    reveal_strlit("_");
    reveal_strlit(".");
    let p = stem + "_"@;
    let d1 = crate::text::spec_decimal(n1);
    let d2 = crate::text::spec_decimal(n2);
    let x1 = spec_postfixed(stem, n1, ext);
    let x2 = spec_postfixed(stem, n2, ext);
    assert(x1.len() == p.len() + d1.len() + 1 + ext.len());
    assert(x2.len() == p.len() + d2.len() + 1 + ext.len());
    assert(x1.subrange(p.len() as int, (p.len() + d1.len()) as int) =~= d1);
    assert(x2.subrange(p.len() as int, (p.len() + d2.len()) as int) =~= d2);
    crate::text::lemma_decimal_digits(n1);
    crate::text::lemma_decimal_digits(n2);
}

/// When the names `<stem>_1.<ext>` to `<stem>_<n>.<ext>` are all taken,
/// there are at least `n` names taken.
proof fn lemma_taken_bound(stem: Seq<char>, ext: Seq<char>, taken: Seq<Seq<char>>, n: nat)
    requires
        forall|m: nat| 1 <= m <= n ==> taken.contains(#[trigger] spec_postfixed(stem, m, ext)),
    ensures
        n <= taken.len(),
{
    let f = |i: int| spec_postfixed(stem, i as nat, ext);
    let range = vstd::set_lib::set_int_range(1, n as int + 1);
    let image = range.map(f);
    vstd::set_lib::lemma_int_range(1, n as int + 1);
    assert forall|a: int, b: int| range.contains(a) && range.contains(b) && #[trigger] f(a)
        == #[trigger] f(b) implies a == b by {
        lemma_postfixed_injective(stem, ext, a as nat, b as nat);
    }
    assert(vstd::relations::injective_on(f, range));
    vstd::set_lib::lemma_map_size(range, image, f);
    assert forall|x: Seq<char>| image.contains(x) implies taken.to_set().contains(x) by {
        let i = choose|i: int| range.contains(i) && f(i) == x;
        assert(taken.contains(spec_postfixed(stem, i as nat, ext)));
    }
    taken.lemma_cardinality_of_set();
    vstd::set_lib::lemma_len_subset(image, taken.to_set());
}

/// Whether a list of names holds the given one.
fn holds_name(names: &Vec<String>, n: &String) -> (b: bool)
    ensures
        b == names.deep_view().contains(n@),
{
    let mut i: usize = 0;
    while i < names.len()
        invariant
            i <= names.len(),
            forall|j: int| 0 <= j < i ==> names.deep_view()[j] != n@,
        decreases names.len() - i,
    {
        if str_eq(names[i].as_str(), n.as_str()) {
            assert(names.deep_view()[i as int] == n@);
            return true;
        }
        i = i + 1;
    }
    assert(!names.deep_view().contains(n@)) by {
        if names.deep_view().contains(n@) {
            let k = choose|k: int| 0 <= k < names.deep_view().len() && names.deep_view()[k] == n@;
            assert(names.deep_view()[k] != n@);
        }
    }
    false
}

/// The name an upload takes when its own name is taken: the first of
/// `<stem>_1.<ext>`, `<stem>_2.<ext>`, ... that is not among the names
/// taken. (Numbers past `i32::MAX` are not reached.)
pub fn free_postfixed_name(stem: &str, ext: &str, taken: &Vec<String>) -> (r: String)
    requires
        taken@.len() < i32::MAX,
    ensures
        exists|n: nat|
            #![trigger spec_postfixed(stem@, n, ext@)]
            {
                &&& n >= 1
                &&& r@ == spec_postfixed(stem@, n, ext@)
                &&& !taken.deep_view().contains(r@)
                &&& forall|m: nat|
                    1 <= m < n ==> taken.deep_view().contains(
                        #[trigger] spec_postfixed(stem@, m, ext@),
                    )
            },
{
    let mut n: u64 = 1;
    while true
        invariant
            1 <= n <= taken@.len() + 1,
            taken@.len() < i32::MAX,
            forall|m: nat|
                1 <= m < n ==> taken.deep_view().contains(#[trigger] spec_postfixed(stem@, m, ext@)),
        decreases taken@.len() + 1 - n,
    {
        let candidate = postfixed_name(stem, n, ext);
        assert(candidate@ == spec_postfixed(stem@, n as nat, ext@));
        if !holds_name(taken, &candidate) {
            return candidate;
        }
        proof {
            lemma_taken_bound(stem@, ext@, taken.deep_view(), n as nat);
        }
        n = n + 1;
    }
    // The loop returns: a name is free among the first `taken.len() + 1`.
    String::new()
}

/// The name an upload called `name` is stored under in a directory that
/// holds the names `taken`: its own name when that is free, else the first
/// free name `<stem>_<n>.<ext>` (a taken name needs an extension).
pub fn upload_name(name: &str, taken: &Vec<String>) -> (r: String)
    requires
        taken@.len() < i32::MAX,
        taken.deep_view().contains(name@) ==> spec_name_extension(name@) is Some,
    ensures
        !taken.deep_view().contains(name@) ==> r@ == name@,
        taken.deep_view().contains(name@) ==> exists|n: nat|
            #![trigger spec_postfixed(spec_name_stem(name@), n, spec_name_extension(name@)->0)]
            {
                &&& n >= 1
                &&& r@ == spec_postfixed(spec_name_stem(name@), n, spec_name_extension(name@)->0)
                &&& !taken.deep_view().contains(r@)
                &&& forall|m: nat|
                    1 <= m < n ==> taken.deep_view().contains(
                        #[trigger] spec_postfixed(spec_name_stem(name@), m, spec_name_extension(name@)->0),
                    )
            },
{
    let own = String::from_str(name);
    if !holds_name(taken, &own) {
        return own;
    }
    match name_extension(name) {
        Some(ext) => {
            let stem = name_stem(name);
            assert(ext@ == spec_name_extension(name@)->0);
            let r = free_postfixed_name(stem.as_str(), ext.as_str(), taken);
            let ghost n = choose|n: nat|
                #![trigger spec_postfixed(stem@, n, ext@)]
                {
                    &&& n >= 1
                    &&& r@ == spec_postfixed(stem@, n, ext@)
                    &&& !taken.deep_view().contains(r@)
                    &&& forall|m: nat|
                        1 <= m < n ==> taken.deep_view().contains(
                            #[trigger] spec_postfixed(stem@, m, ext@),
                        )
                };
            assert(r@ == spec_postfixed(spec_name_stem(name@), n, spec_name_extension(name@)->0));
            r
        },
        None => own,
    }
}

// ---------------------------------------------------------------------------
// Authorization headers
// ---------------------------------------------------------------------------

/// The token of a `Bearer` authorization header: the second word when the
/// first is `Bearer` (words being separated by ASCII white space).
pub open spec fn spec_bearer_token(header: Seq<char>) -> Option<Seq<char>> {
    let words = spec_ascii_words(header);
    if words.len() == 0 || words[0] != "Bearer"@ {
        None
    } else if words.len() < 2 {
        None
    } else {
        Some(words[1])
    }
}

/// The token of a `Bearer` authorization header.
pub fn parse_bearer_token(token: &str) -> (r: Option<String>)
    ensures
        r.deep_view() == spec_bearer_token(token@),
{
    let words = split_ascii_whitespace(str_chars(token).as_slice());
    if words.len() == 0 || !str_eq(words[0].as_str(), "Bearer") {
        return None;
    }
    if words.len() < 2 {
        return None;
    }
    Some(words[1].clone())
}

} // verus!
