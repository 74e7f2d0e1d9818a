//! The users of the core, by identifier. Every change is written out by a
//! persistence step that the caller supplies; a change whose writing fails is
//! undone, and a change that was written gives the user event to broadcast.
use vstd::prelude::*;
use vstd::string::*;

use crate::auth::permission::UserPermission;
use crate::auth::jwt::{jwt_claimed_uid, jwt_verified_uid, spec_jwt_payload_uid, spec_jwt_signed_with};
use crate::auth::user::{
    check_password, hash_password, spec_password_check, HashedPassword, User, UserSecret, UserView,
};
use crate::auth::user_id::UserId;
use crate::events::{CausedBy, Event, EventInner, UserEvent, UserEventInner};
use crate::text::{chars_eq, str_chars};
use crate::traits::{Error, ErrorInner};
use crate::types::Snowflake;

verus! {

broadcast use vstd::seq_lib::group_seq_properties;

// ---------------------------------------------------------------------------
// The users, as a sequence without two users of one identifier
// ---------------------------------------------------------------------------

pub open spec fn spec_unique_uids(s: Seq<UserView>) -> bool {
    forall|i: int, j: int| 0 <= i < s.len() && 0 <= j < s.len() && i != j ==> s[i].uid != s[j].uid
}

pub open spec fn spec_has_uid(s: Seq<UserView>, uid: Seq<char>) -> bool {
    exists|i: int| 0 <= i < s.len() && s[i].uid == uid
}

/// Whether `i` is the index of the user with identifier `uid`.
pub open spec fn spec_at_uid(s: Seq<UserView>, uid: Seq<char>, i: int) -> bool {
    0 <= i < s.len() && s[i].uid == uid
}

/// Whether a user's identifier is other than `uid`.
pub open spec fn spec_other_uid(uid: Seq<char>) -> spec_fn(UserView) -> bool {
    |u: UserView| u.uid != uid
}

/// `s` without the user of identifier `uid`.
pub open spec fn spec_remove_uid(s: Seq<UserView>, uid: Seq<char>) -> Seq<UserView> {
    s.filter(spec_other_uid(uid))
}

/// `s` with `u` in place of any user of its identifier.
pub open spec fn spec_insert(s: Seq<UserView>, u: UserView) -> Seq<UserView> {
    spec_remove_uid(s, u.uid).push(u)
}

/// Whether `k` is the index of the first user of `s` named `n`.
pub open spec fn spec_first_username(s: Seq<UserView>, n: Seq<char>, k: int) -> bool {
    &&& 0 <= k < s.len()
    &&& s[k].username == n
    &&& forall|j: int| 0 <= j < k ==> s[j].username != n
}

pub open spec fn spec_has_username(s: Seq<UserView>, n: Seq<char>) -> bool {
    exists|k: int| 0 <= k < s.len() && s[k].username == n
}

/// Whether `e` is the user event `inner` about `uid`, caused by `caused_by`.
pub open spec fn spec_is_user_event(
    e: Event,
    uid: Seq<char>,
    inner: UserEventInner,
    caused_by: CausedBy,
) -> bool {
    &&& e.details@ == Seq::<char>::empty()
    &&& e.caused_by == caused_by
    &&& match e.event_inner {
        EventInner::UserEvent(ue) => ue.user_id@ == uid && ue.user_event_inner == inner,
        _ => false,
    }
}

/// Whether `e` is a user event of the given kind about `uid`, caused by
/// `caused_by` (for kinds that carry data, only the kind is compared).
pub open spec fn spec_is_user_event_kind(
    e: Event,
    uid: Seq<char>,
    kind: crate::events::UserEventKind,
    caused_by: CausedBy,
) -> bool {
    &&& e.details@ == Seq::<char>::empty()
    &&& e.caused_by == caused_by
    &&& match e.event_inner {
        EventInner::UserEvent(ue) => ue.user_id@ == uid && crate::events::spec_user_event_kind(
            ue.user_event_inner,
        ) == kind,
        _ => false,
    }
}

proof fn lemma_remove_absent(s: Seq<UserView>, uid: Seq<char>)
    requires
        !spec_has_uid(s, uid),
    ensures
        spec_remove_uid(s, uid) == s,
    decreases s.len(),
{
    reveal(Seq::filter);
    if s.len() > 0 {
        assert(!spec_has_uid(s.drop_last(), uid)) by {
            if spec_has_uid(s.drop_last(), uid) {
                let i = choose|i: int| 0 <= i < s.drop_last().len() && s.drop_last()[i].uid == uid;
                assert(s[i].uid == uid);
            }
        }
        lemma_remove_absent(s.drop_last(), uid);
        assert(s.last().uid != uid) by {
            if s.last().uid == uid {
                assert(s[s.len() - 1].uid == uid);
            }
        }
        assert(s.drop_last().push(s.last()) =~= s);
    }
}

/// The users left after a removal were there before.
proof fn lemma_removed_from(s: Seq<UserView>, uid: Seq<char>, a: int)
    requires
        0 <= a < spec_remove_uid(s, uid).len(),
    ensures
        exists|k: int| 0 <= k < s.len() && s[k] == spec_remove_uid(s, uid)[a],
        spec_remove_uid(s, uid)[a].uid != uid,
{
    broadcast use Seq::lemma_filter_contains_rev;

    let r = spec_remove_uid(s, uid);
    assert(r.contains(r[a]));
    s.lemma_filter_pred(spec_other_uid(uid), a);
}

/// Removing an identifier keeps the identifiers distinct and leaves that one
/// out.
pub proof fn lemma_remove_keeps_unique(s: Seq<UserView>, uid: Seq<char>)
    requires
        spec_unique_uids(s),
    ensures
        spec_unique_uids(spec_remove_uid(s, uid)),
        !spec_has_uid(spec_remove_uid(s, uid), uid),
    decreases s.len(),
{
    reveal(Seq::filter);
    if s.len() > 0 {
        let d = s.drop_last();
        assert forall|a: int, b: int|
            0 <= a < d.len() && 0 <= b < d.len() && a != b implies d[a].uid != d[b].uid by {
            assert(d[a] == s[a]);
            assert(d[b] == s[b]);
        }
        lemma_remove_keeps_unique(d, uid);
        let r = spec_remove_uid(d, uid);
        if s.last().uid != uid {
            let t = r.push(s.last());
            assert forall|a: int, b: int|
                0 <= a < t.len() && 0 <= b < t.len() && a != b implies t[a].uid != t[b].uid by {
                if a < r.len() && b < r.len() {
                } else if a < r.len() {
                    assert(t[a] == r[a]);
                    lemma_removed_from(d, uid, a);
                } else if b < r.len() {
                    assert(t[b] == r[b]);
                    lemma_removed_from(d, uid, b);
                }
            }
            assert forall|i: int| 0 <= i < t.len() implies t[i].uid != uid by {
                if i < r.len() {
                    lemma_removed_from(d, uid, i);
                }
            }
        }
    }
}

/// Inserting a user keeps the identifiers distinct, and the user is then
/// there.
pub proof fn lemma_insert_keeps_unique(s: Seq<UserView>, u: UserView)
    requires
        spec_unique_uids(s),
    ensures
        spec_unique_uids(spec_insert(s, u)),
        spec_has_uid(spec_insert(s, u), u.uid),
{
    lemma_remove_keeps_unique(s, u.uid);
    let r = spec_remove_uid(s, u.uid);
    let t = r.push(u);
    assert forall|a: int, b: int|
        0 <= a < t.len() && 0 <= b < t.len() && a != b implies t[a].uid != t[b].uid by {
        if a < r.len() && b < r.len() {
        } else if a < r.len() {
            assert(t[a] == r[a]);
            assert(spec_at_uid(r, r[a].uid, a));
        } else if b < r.len() {
            assert(t[b] == r[b]);
            assert(spec_at_uid(r, r[b].uid, b));
        }
    }
    assert(t[r.len() as int] == u);
}

/// Inserting a user whose identifier was not there and then removing that
/// identifier gives back the users as they were.
pub proof fn lemma_insert_then_remove(s: Seq<UserView>, u: UserView)
    requires
        !spec_has_uid(s, u.uid),
    ensures
        spec_remove_uid(spec_insert(s, u), u.uid) == s,
{
    lemma_remove_absent(s, u.uid);
    s.lemma_filter_push(u, spec_other_uid(u.uid));
    lemma_remove_absent(s, u.uid);
}

/// Whether `after` is `before` with at most the password hash and the secret
/// of the user at index `i` changed (the hash, or the secret, kept when
/// asked).
pub open spec fn spec_credentials_changed_at(
    before: Seq<UserView>,
    after: Seq<UserView>,
    i: int,
    same_hash: bool,
    same_secret: bool,
) -> bool {
    &&& 0 <= i < before.len()
    &&& after.len() == before.len()
    &&& forall|j: int| 0 <= j < before.len() && j != i ==> after[j] == before[j]
    &&& after[i].uid == before[i].uid
    &&& after[i].username == before[i].username
    &&& after[i].is_owner == before[i].is_owner
    &&& after[i].is_admin == before[i].is_admin
    &&& after[i].permissions == before[i].permissions
    &&& same_hash ==> after[i].hashed_psw == before[i].hashed_psw
    &&& same_secret ==> after[i].secret == before[i].secret
}

/// What a password change of the user at index `i` leads to, given the
/// events it gave and its outcome: no event when writing the new hash failed
/// (the users are then as they were, and the error is internal); else the
/// logged-out event, then, when the logout that follows worked, a second one
/// with the user holding a new hash and a new secret, or, when it failed,
/// the user holding the new hash alone.
pub open spec fn spec_password_change_outcome(
    before: Seq<UserView>,
    after: Seq<UserView>,
    i: int,
    events: Seq<Event>,
    r: Result<(), Error>,
    uid: Seq<char>,
    caused_by: CausedBy,
) -> bool {
    if events.len() == 0 {
        after == before && r is Err && r->Err_0.inner == ErrorInner::InternalError
    } else {
        &&& spec_is_user_event(events[0], uid, UserEventInner::UserLoggedOut, caused_by)
        &&& match r {
            Ok(_) => {
                &&& events.len() == 2
                &&& spec_is_user_event(events[1], uid, UserEventInner::UserLoggedOut, caused_by)
                &&& spec_credentials_changed_at(before, after, i, false, false)
            },
            Err(_) => {
                &&& events.len() == 1
                &&& spec_credentials_changed_at(before, after, i, false, true)
            },
        }
    }
}

/// Whether `after` is `before` with the user at index `i` holding a new
/// hash that accepts `password`, and nothing else changed.
pub open spec fn spec_new_hash_written(
    before: Seq<UserView>,
    after: Seq<UserView>,
    i: int,
    password: Seq<char>,
) -> bool {
    &&& spec_credentials_changed_at(before, after, i, false, true)
    &&& spec_password_check(password, after[i].hashed_psw) == Some(true)
}

/// The index of the first user of `s` named `n`, if any.
pub open spec fn spec_username_index(s: Seq<UserView>, n: Seq<char>) -> Option<int> {
    if spec_has_username(s, n) {
        Some(choose|k: int| spec_first_username(s, n, k))
    } else {
        None
    }
}

/// The outcome of a login: refused as unauthorized when no user has the
/// name or the password does not match the stored hash of the first user of
/// that name, else that user.
pub open spec fn spec_login(s: Seq<UserView>, username: Seq<char>, password: Seq<char>) -> Result<
    UserView,
    ErrorInner,
> {
    match spec_username_index(s, username) {
        None => Err(ErrorInner::Unauthorized),
        Some(k) => if spec_password_check(password, s[k].hashed_psw) == Some(true) {
            Ok(s[k])
        } else {
            Err(ErrorInner::Unauthorized)
        },
    }
}

/// Whether a login can be checked: the stored hash of the first user of the
/// name is one argon2 can read.
pub open spec fn spec_login_defined(s: Seq<UserView>, username: Seq<char>, password: Seq<char>) -> bool {
    match spec_username_index(s, username) {
        None => true,
        Some(k) => spec_password_check(password, s[k].hashed_psw) is Some,
    }
}

/// There is one first index of a name.
proof fn lemma_first_username_unique(s: Seq<UserView>, n: Seq<char>, k: int)
    requires
        spec_first_username(s, n, k),
    ensures
        spec_has_username(s, n),
        spec_username_index(s, n) == Some(k),
{
    assert(s[k].username == n);
    let c = choose|c: int| spec_first_username(s, n, c);
    if c < k {
        assert(s[c].username != n);
    } else if k < c {
        assert(s[k].username != n);
    }
}

/// A user that is added under a name no other user has can log in with its
/// password: the login finds it and its stored hash accepts the password.
pub proof fn lemma_added_user_logs_in(s: Seq<UserView>, u: UserView, password: Seq<char>)
    requires
        !spec_has_username(s, u.username),
        spec_password_check(password, u.hashed_psw) == Some(true),
    ensures
        spec_login(spec_insert(s, u), u.username, password) == Ok::<UserView, ErrorInner>(u),
        spec_login_defined(spec_insert(s, u), u.username, password),
{
    let r = spec_remove_uid(s, u.uid);
    let t = r.push(u);
    assert forall|j: int| 0 <= j < r.len() implies r[j].username != u.username by {
        lemma_removed_from(s, u.uid, j);
        let k = choose|k: int| 0 <= k < s.len() && s[k] == r[j];
        assert(s[k].username != u.username);
    }
    let n = r.len() as int;
    assert(t[n] == u);
    assert(spec_first_username(t, u.username, n));
    lemma_first_username_unique(t, u.username, n);
}

fn user_event(uid: &UserId, inner: UserEventInner, caused_by: CausedBy) -> (e: Event)
    ensures
        e.details@ == Seq::<char>::empty(),
        e.caused_by == caused_by,
        e.event_inner == EventInner::UserEvent(
            UserEvent { user_id: *uid, user_event_inner: inner },
        ),
{
    Event {
        event_inner: EventInner::UserEvent(
            UserEvent { user_id: uid.clone(), user_event_inner: inner },
        ),
        details: String::new(),
        snowflake: Snowflake::default(),
        caused_by,
    }
}

// ---------------------------------------------------------------------------
// The manager
// ---------------------------------------------------------------------------

/// The users of the core.
pub struct UsersManager {
    users: Vec<User>,
}

impl View for UsersManager {
    type V = Seq<UserView>;

    closed spec fn view(&self) -> Seq<UserView> {
        self.users@.map_values(|u: User| u@)
    }
}

/// Whether a persistence step can be asked to write any state of the users.
pub open spec fn spec_persist_ready<F: Fn(&UsersManager) -> Result<(), Error>>(persist: &F) -> bool {
    forall|m: &UsersManager| persist.requires((m,))
}

/// Whether `w` is what a persistence step may give when asked to write a
/// manager holding the users `users`.
pub open spec fn spec_wrote<F: Fn(&UsersManager) -> Result<(), Error>>(
    persist: &F,
    users: Seq<UserView>,
    w: Result<(), Error>,
) -> bool {
    exists|m: UsersManager| m@ == users && #[trigger] call_ensures(*persist, (&m,), w)
}

/// Whether a persistence step may fail when asked to write a manager holding
/// the users `users`.
pub open spec fn spec_write_failed<F: Fn(&UsersManager) -> Result<(), Error>>(
    persist: &F,
    users: Seq<UserView>,
) -> bool {
    exists|x: Error| #[trigger] spec_wrote(persist, users, Err(x))
}

impl UsersManager {
    #[verifier::type_invariant]
    spec fn inv(self) -> bool {
        spec_unique_uids(self@)
    }

    /// The manager of the given users (no two of one identifier).
    pub fn new(users: Vec<User>) -> (m: UsersManager)
        requires
            spec_unique_uids(users@.map_values(|u: User| u@)),
        ensures
            m@ == users@.map_values(|u: User| u@),
    {
        UsersManager { users }
    }

    /// The users, in the order they were added.
    pub fn users(&self) -> (r: &Vec<User>)
        ensures
            r@.map_values(|u: User| u@) == self@,
            spec_unique_uids(self@),
    {
        proof {
            use_type_invariant(self);
        }
        &self.users
    }

    fn index_of_uid(&self, uid: &UserId) -> (r: Option<usize>)
        ensures
            match r {
                Some(i) => spec_at_uid(self@, uid@, i as int),
                None => !spec_has_uid(self@, uid@),
            },
    {
        let u = str_chars(uid.as_str());
        let mut i: usize = 0;
        while i < self.users.len()
            invariant
                u@ == uid@,
                i <= self.users.len(),
                forall|j: int| 0 <= j < i ==> self@[j].uid != uid@,
            decreases self.users.len() - i,
        {
            let c = str_chars(self.users[i].uid.as_str());
            if chars_eq(c.as_slice(), u.as_slice()) {
                return Some(i);
            }
            i = i + 1;
        }
        None
    }

    fn index_of_username(&self, username: &str) -> (r: Option<usize>)
        ensures
            match r {
                Some(k) => spec_first_username(self@, username@, k as int),
                None => !spec_has_username(self@, username@),
            },
    {
        let n = str_chars(username);
        let mut i: usize = 0;
        while i < self.users.len()
            invariant
                n@ == username@,
                i <= self.users.len(),
                forall|j: int| 0 <= j < i ==> self@[j].username != username@,
            decreases self.users.len() - i,
        {
            let c = str_chars(self.users[i].username.as_str());
            if chars_eq(c.as_slice(), n.as_slice()) {
                return Some(i);
            }
            i = i + 1;
        }
        None
    }

    /// The user of the given identifier.
    pub fn get_user(&self, uid: &UserId) -> (r: Option<User>)
        ensures
            match r {
                Some(u) => exists|i: int| spec_at_uid(self@, uid@, i) && u@ == self@[i],
                None => !spec_has_uid(self@, uid@),
            },
    {
        match self.index_of_uid(uid) {
            Some(i) => Some(self.users[i].clone()),
            None => None,
        }
    }

    /// The first user (in the order they were added) of the given name.
    pub fn get_user_by_username(&self, username: &str) -> (r: Option<User>)
        ensures
            match r {
                Some(u) => exists|k: int| spec_first_username(self@, username@, k) && u@ == self@[k],
                None => !spec_has_username(self@, username@),
            },
    {
        match self.index_of_username(username) {
            Some(k) => Some(self.users[k].clone()),
            None => None,
        }
    }

    fn remove_uid(&mut self, uid: &UserId) -> (r: Option<User>)
        ensures
            final(self)@ == spec_remove_uid(old(self)@, uid@),
            match r {
                Some(u) => exists|i: int| spec_at_uid(old(self)@, uid@, i) && u@ == old(self)@[i],
                None => !spec_has_uid(old(self)@, uid@),
            },
    {
        proof {
            use_type_invariant(&*self);
        }
        let ghost s = self@;
        let u = str_chars(uid.as_str());
        let mut kept: Vec<User> = Vec::new();
        let mut removed: Option<User> = None;
        let mut i: usize = 0;
        while i < self.users.len()
            invariant
                s == self@,
                spec_unique_uids(s),
                u@ == uid@,
                i <= self.users.len(),
                kept@.map_values(|x: User| x@) == spec_remove_uid(s.take(i as int), uid@),
                match removed {
                    Some(x) => exists|k: int| 0 <= k < i && spec_at_uid(s, uid@, k) && x@ == s[k],
                    None => forall|k: int| 0 <= k < i ==> s[k].uid != uid@,
                },
            decreases self.users.len() - i,
        {
            let c = str_chars(self.users[i].uid.as_str());
            let ghost before = kept@.map_values(|x: User| x@);
            proof {
                assert(s.take(i as int + 1) =~= s.take(i as int).push(s[i as int]));
                s.take(i as int).lemma_filter_push(s[i as int], spec_other_uid(uid@));
            }
            if chars_eq(c.as_slice(), u.as_slice()) {
                removed = Some(self.users[i].clone());
            } else {
                kept.push(self.users[i].clone());
                proof {
                    assert(kept@.map_values(|x: User| x@) =~= before.push(s[i as int]));
                }
            }
            i = i + 1;
        }
        proof {
            assert(s.take(s.len() as int) =~= s);
            lemma_remove_keeps_unique(s, uid@);
        }
        self.users = kept;
        removed
    }

    fn insert(&mut self, user: User)
        ensures
            final(self)@ == spec_insert(old(self)@, user@),
    {
        proof {
            use_type_invariant(&*self);
        }
        let uid = user.uid.clone();
        let _ = self.remove_uid(&uid);
        proof {
            use_type_invariant(&*self);
            lemma_insert_keeps_unique(old(self)@, user@);
        }
        let mut v: Vec<User> = Vec::new();
        std::mem::swap(&mut v, &mut self.users);
        let ghost before = v@.map_values(|x: User| x@);
        v.push(user);
        assert(v@.map_values(|x: User| x@) =~= before.push(user@));
        self.users = v;
    }

    /// Replaces the user at index `i` by `u`, of the same identifier.
    fn replace_at(&mut self, i: usize, u: User)
        requires
            i < old(self)@.len(),
            u@.uid == old(self)@[i as int].uid,
        ensures
            final(self)@ == old(self)@.update(i as int, u@),
    {
        proof {
            use_type_invariant(&*self);
        }
        let mut v: Vec<User> = Vec::new();
        std::mem::swap(&mut v, &mut self.users);
        let ghost before = v@.map_values(|x: User| x@);
        v.set(i, u);
        assert(v@.map_values(|x: User| x@) =~= before.update(i as int, u@));
        self.users = v;
    }

    /// Adds a user, refused when a user of the same name exists (the users
    /// are then left as they were and the step is not asked to write). Else
    /// the user is put in (in place of any user of its identifier) and the
    /// users are written: when that works, the user-created event is given;
    /// when it fails, the identifier is taken out again and the step's error
    /// is given.
    pub fn add_user<F: Fn(&UsersManager) -> Result<(), Error>>(
        &mut self,
        user: User,
        caused_by: CausedBy,
        persist: &F,
    ) -> (r: Result<Event, Error>)
        requires
            spec_persist_ready(persist),
        ensures
            spec_has_username(old(self)@, user@.username) ==> final(self)@ == old(self)@ && r is Err
                && r->Err_0.inner == ErrorInner::UsernameAlreadyExists,
            !spec_has_username(old(self)@, user@.username) ==> match r {
                Ok(e) => final(self)@ == spec_insert(old(self)@, user@) && spec_is_user_event(
                    e,
                    user@.uid,
                    UserEventInner::UserCreated,
                    caused_by,
                ) && spec_wrote(persist, final(self)@, Ok(())),
                Err(err) => final(self)@ == spec_remove_uid(spec_insert(old(self)@, user@), user@.uid)
                    && spec_wrote(persist, spec_insert(old(self)@, user@), Err(err)),
            },
    {
        if self.index_of_username(user.username.as_str()).is_some() {
            return Err(Error::new(ErrorInner::UsernameAlreadyExists, "User already exists"));
        }
        let uid = user.uid.clone();
        self.insert(user);
        let res = persist(&*self);
        assert(spec_wrote(persist, self@, res));
        match res {
            Ok(done) => Ok(user_event(&uid, UserEventInner::UserCreated, caused_by)),
            Err(e) => {
                let _ = self.remove_uid(&uid);
                Err(e)
            },
        }
    }

    /// Deletes a user and writes the users. When that works, gives the user
    /// that was deleted, with the user-deleted event when there was one; when
    /// it fails, the user is put back and the step's error is given.
    pub fn delete_user<F: Fn(&UsersManager) -> Result<(), Error>>(
        &mut self,
        uid: &UserId,
        caused_by: CausedBy,
        persist: &F,
    ) -> (r: Result<(Option<User>, Option<Event>), Error>)
        requires
            spec_persist_ready(persist),
        ensures
            match r {
                Ok((u, e)) => {
                    &&& final(self)@ == spec_remove_uid(old(self)@, uid@)
                    &&& match u {
                        Some(x) => exists|i: int| spec_at_uid(old(self)@, uid@, i) && x@ == old(self)@[i],
                        None => !spec_has_uid(old(self)@, uid@),
                    }
                    &&& u is Some <==> e is Some
                    &&& e is Some ==> spec_is_user_event(
                        e->0,
                        uid@,
                        UserEventInner::UserDeleted,
                        caused_by,
                    )
                    &&& spec_wrote(persist, final(self)@, Ok(()))
                },
                Err(err) => spec_wrote(persist, spec_remove_uid(old(self)@, uid@), Err(err)) && (
                spec_has_uid(old(self)@, uid@) ==> exists|i: int|
                    spec_at_uid(old(self)@, uid@, i) && final(self)@ == spec_insert(
                        spec_remove_uid(old(self)@, uid@),
                        old(self)@[i],
                    )),
            },
            r is Err && !spec_has_uid(old(self)@, uid@) ==> final(self)@ == old(self)@,
    {
        let user = self.remove_uid(uid);
        let res = persist(&*self);
        assert(spec_wrote(persist, self@, res));
        match res {
            Ok(done) => {
                let e = match &user {
                    Some(_) => Some(user_event(uid, UserEventInner::UserDeleted, caused_by)),
                    None => None,
                };
                Ok((user, e))
            },
            Err(e) => {
                match user {
                    Some(u) => {
                        self.insert(u);
                    },
                    None => {
                        proof {
                            lemma_remove_absent(old(self)@, uid@);
                        }
                    },
                }
                Err(e)
            },
        }
    }
    /// Logs a user out by giving it a fresh random secret (which voids the
    /// tokens signed with the old one) and writes the users. When that works,
    /// gives the user-logged-out event; when it fails, the old secret is put
    /// back and the step's error is given. An unknown user is refused.
    pub fn logout_user<F: Fn(&UsersManager) -> Result<(), Error>>(
        &mut self,
        uid: &UserId,
        caused_by: CausedBy,
        persist: &F,
    ) -> (r: Result<Event, Error>)
        requires
            spec_persist_ready(persist),
        ensures
            !spec_has_uid(old(self)@, uid@) ==> final(self)@ == old(self)@ && r is Err
                && r->Err_0.inner == ErrorInner::UserNotFound,
            spec_has_uid(old(self)@, uid@) ==> exists|i: int|
                #[trigger] spec_at_uid(old(self)@, uid@, i) && match r {
                    Ok(e) => spec_credentials_changed_at(old(self)@, final(self)@, i, true, false)
                        && spec_is_user_event(
                        e,
                        uid@,
                        UserEventInner::UserLoggedOut,
                        caused_by,
                    ) && spec_wrote(persist, final(self)@, Ok(())),
                    Err(err) => final(self)@ == old(self)@ && exists|s: Seq<UserView>|
                        spec_credentials_changed_at(old(self)@, s, i, true, false)
                            && #[trigger] spec_wrote(persist, s, Err(err)),
                },
    {
        let i = match self.index_of_uid(uid) {
            Some(i) => i,
            None => {
                return Err(Error::new(ErrorInner::UserNotFound, "User not found"));
            },
        };
        let old_user = self.users[i].clone();
        let mut changed = self.users[i].clone();
        changed.secret = UserSecret::default();
        self.replace_at(i, changed);
        let ghost written = self@;
        let res = persist(&*self);
        assert(spec_wrote(persist, written, res));
        match res {
            Ok(done) => Ok(user_event(uid, UserEventInner::UserLoggedOut, caused_by)),
            Err(e) => {
                self.replace_at(i, old_user);
                assert(self@ =~= old(self)@);
                Err(e)
            },
        }
    }

    /// Sets a user's password (its argon2 hash, with a fresh salt) and writes
    /// the users. When that works, the user-logged-out event is given and
    /// the user is logged out as [`Self::logout_user`] does, whose outcome is
    /// the outcome; when it fails, the old hash is put back and an internal
    /// error is given. An unknown user is refused. The events to broadcast
    /// come first, whatever the outcome.
    pub fn change_password<F: Fn(&UsersManager) -> Result<(), Error>>(
        &mut self,
        uid: &UserId,
        password: &str,
        caused_by: CausedBy,
        persist: &F,
    ) -> (r: (Vec<Event>, Result<(), Error>))
        requires
            spec_persist_ready(persist),
            password@.len() <= 0x3FFF_FFFF,
        ensures
            !spec_has_uid(old(self)@, uid@) ==> final(self)@ == old(self)@ && r.0@.len() == 0
                && r.1 is Err && r.1->Err_0.inner == ErrorInner::UserNotFound,
            spec_has_uid(old(self)@, uid@) ==> exists|i: int|
                #[trigger] spec_at_uid(old(self)@, uid@, i) && spec_password_change_outcome(
                    old(self)@,
                    final(self)@,
                    i,
                    r.0@,
                    r.1,
                    uid@,
                    caused_by,
                ),
            spec_has_uid(old(self)@, uid@) ==> exists|i: int, s: Seq<UserView>|
                spec_at_uid(old(self)@, uid@, i) && #[trigger] spec_new_hash_written(
                    old(self)@,
                    s,
                    i,
                    password@,
                ) && if r.0@.len() == 0 {
                    spec_write_failed(persist, s)
                } else {
                    spec_wrote(persist, s, Ok(())) && final(self)@[i].hashed_psw == s[i].hashed_psw
                },
    {
        let mut events: Vec<Event> = Vec::new();
        let i = match self.index_of_uid(uid) {
            Some(i) => i,
            None => {
                return (events, Err(Error::new(ErrorInner::UserNotFound, "User not found")));
            },
        };
        let old_user = self.users[i].clone();
        let mut changed = self.users[i].clone();
        changed.hashed_psw = HashedPassword(hash_password(password));
        self.replace_at(i, changed);
        let ghost written = self@;
        assert(spec_new_hash_written(old(self)@, written, i as int, password@));
        let res = persist(&*self);
        assert(spec_wrote(persist, written, res));
        match res {
            Ok(done) => {
                events.push(user_event(uid, UserEventInner::UserLoggedOut, caused_by.clone()));
                proof {
                    use_type_invariant(&*self);
                }
                let ghost mid = self@;
                assert(spec_at_uid(mid, uid@, i as int));
                assert(spec_credentials_changed_at(old(self)@, mid, i as int, false, true));
                let r = self.logout_user(uid, caused_by, persist);
                proof {
                    let k = choose|k: int| #[trigger] spec_at_uid(mid, uid@, k) && match r {
                        Ok(e) => spec_credentials_changed_at(mid, self@, k, true, false),
                        Err(_) => self@ == mid,
                    };
                    assert(k == i as int);
                }
                match r {
                    Ok(e) => {
                        events.push(e);
                        (events, Ok(()))
                    },
                    Err(e) => (events, Err(e)),
                }
            },
            Err(x) => {
                assert(spec_wrote(persist, written, Err(x)));
                self.replace_at(i, old_user);
                assert(self@ =~= old(self)@);
                assert(spec_at_uid(old(self)@, uid@, i as int));
                (events, Err(Error::new(ErrorInner::InternalError, "Failed to write to file")))
            },
        }
    }
    /// Sets a user's permissions and writes the users. When that works,
    /// gives the permission-changed event with the new permissions; when it
    /// fails, the old permissions are put back and an internal error is
    /// given. An unknown user is refused.
    pub fn update_permissions<F: Fn(&UsersManager) -> Result<(), Error>>(
        &mut self,
        uid: &UserId,
        new_permissions: UserPermission,
        caused_by: CausedBy,
        persist: &F,
    ) -> (r: Result<Event, Error>)
        requires
            spec_persist_ready(persist),
        ensures
            !spec_has_uid(old(self)@, uid@) ==> final(self)@ == old(self)@ && r is Err
                && r->Err_0.inner == ErrorInner::UserNotFound,
            spec_has_uid(old(self)@, uid@) ==> exists|i: int|
                #[trigger] spec_at_uid(old(self)@, uid@, i) && match r {
                    Ok(e) => final(self)@ == old(self)@.update(
                        i,
                        UserView { permissions: new_permissions@, ..old(self)@[i] },
                    ) && match e.event_inner {
                        EventInner::UserEvent(ue) => ue.user_id@ == uid@ && match ue.user_event_inner {
                            UserEventInner::PermissionChanged { new_permissions: p } => p@
                                == new_permissions@,
                            _ => false,
                        },
                        _ => false,
                    } && e.details@ == Seq::<char>::empty() && e.caused_by == caused_by
                        && spec_wrote(persist, final(self)@, Ok(())),
                    Err(err) => final(self)@ == old(self)@ && err.inner == ErrorInner::InternalError
                        && spec_write_failed(
                        persist,
                        old(self)@.update(
                            i,
                            UserView { permissions: new_permissions@, ..old(self)@[i] },
                        ),
                    ),
                },
    {
        let i = match self.index_of_uid(uid) {
            Some(i) => i,
            None => {
                return Err(Error::new(ErrorInner::UserNotFound, "User not found"));
            },
        };
        let old_user = self.users[i].clone();
        let mut changed = self.users[i].clone();
        changed.permissions = new_permissions.clone();
        self.replace_at(i, changed);
        let ghost written = self@;
        assert(written == old(self)@.update(
            i as int,
            UserView { permissions: new_permissions@, ..old(self)@[i as int] },
        ));
        let res = persist(&*self);
        assert(spec_wrote(persist, written, res));
        match res {
            Ok(done) => {
                let e = user_event(
                    uid,
                    UserEventInner::PermissionChanged {
                        new_permissions: Box::new(new_permissions),
                    },
                    caused_by,
                );
                Ok(e)
            },
            Err(x) => {
                assert(spec_wrote(persist, written, Err(x)));
                assert(spec_write_failed(persist, written));
                self.replace_at(i, old_user);
                assert(self@ =~= old(self)@);
                assert(spec_at_uid(old(self)@, uid@, i as int));
                Err(Error::new(ErrorInner::InternalError, "Failed to write to file"))
            },
        }
    }

    /// The user a token speaks for, given the identifier the token claims
    /// (read without checking its signature) and the identifier it holds once
    /// checked with that user's secret: the user of the claimed identifier
    /// when there is one and the checked identifier is the same.
    pub fn authorize(&self, claimed_uid: &UserId, verified_uid: Option<UserId>) -> (r: Option<User>)
        ensures
            match r {
                Some(u) => verified_uid is Some && verified_uid->0@ == claimed_uid@ && exists|i: int|
                    spec_at_uid(self@, claimed_uid@, i) && u@ == self@[i],
                None => !spec_has_uid(self@, claimed_uid@) || verified_uid is None
                    || verified_uid->0@ != claimed_uid@,
            },
    {
        let user = self.get_user(claimed_uid);
        match (user, verified_uid) {
            (Some(u), Some(v)) => {
                if v.same_as(claimed_uid) {
                    Some(u)
                } else {
                    None
                }
            },
            _ => None,
        }
    }

    /// The user a login token speaks for: the user of the identifier the
    /// token claims, when the token is signed with that user's secret and
    /// the checked token gives the same identifier. Tokens that cannot be
    /// read, or whose expiry is past, speak for nobody.
    pub fn try_auth(&self, token: &str) -> (r: Option<User>)
        ensures
            r matches Some(u) ==> (exists|i: int| spec_at_uid(self@, u@.uid, i) && self@[i] == u@)
                && spec_jwt_payload_uid(token@) == Some(u@.uid) && spec_jwt_signed_with(
                token@,
                u@.secret,
            ),
    {
        let claimed_uid = match jwt_claimed_uid(token) {
            Some(c) => UserId(c),
            None => {
                return None;
            },
        };
        let claimed = match self.get_user(&claimed_uid) {
            Some(u) => u,
            None => {
                return None;
            },
        };
        let verified = match jwt_verified_uid(token, claimed.secret.0.as_str()) {
            Some(v) => Some(UserId(v)),
            None => None,
        };
        let r = self.authorize(&claimed_uid, verified);
        proof {
            use_type_invariant(self);
            if r is Some {
                let i = choose|i: int| spec_at_uid(self@, claimed_uid@, i) && claimed@ == self@[i];
                let j = choose|j: int| spec_at_uid(self@, claimed_uid@, j) && r->0@ == self@[j];
                assert(i == j);
            }
        }
        r
    }

    /// The user that logs in with a name and a password: the first user of
    /// that name, when the password matches its stored hash (see
    /// [`spec_login`]).
    pub fn login(&self, username: &str, password: &str) -> (r: Result<User, Error>)
        requires
            spec_login_defined(self@, username@, password@),
        ensures
            match spec_login(self@, username@, password@) {
                Ok(u) => r is Ok && r->Ok_0@ == u,
                Err(kind) => r is Err && r->Err_0.inner == kind,
            },
    {
        let k = match self.index_of_username(username) {
            Some(k) => k,
            None => {
                return Err(Error::new(ErrorInner::Unauthorized, "Username not found"));
            },
        };
        proof {
            lemma_first_username_unique(self@, username@, k as int);
        }
        let user = self.users[k].clone();
        match check_password(password, user.hashed_psw.0.as_str()) {
            Some(true) => Ok(user),
            _ => Err(Error::new(ErrorInner::Unauthorized, "Wrong username or password")),
        }
    }

    /// Whether a login can be checked (see [`spec_login_defined`]).
    pub fn login_defined(&self, username: &str, password: &str) -> (b: bool)
        ensures
            b == spec_login_defined(self@, username@, password@),
    {
        match self.index_of_username(username) {
            Some(k) => {
                proof {
                    lemma_first_username_unique(self@, username@, k as int);
                }
                check_password(password, self.users[k].hashed_psw.0.as_str()).is_some()
            },
            None => true,
        }
    }

    /// The user that logs in with a name and a password, or `None` when the
    /// stored hash of the user of that name cannot be read.
    pub fn try_login(&self, username: &str, password: &str) -> (r: Option<Result<User, Error>>)
        ensures
            match r {
                Some(res) => spec_login_defined(self@, username@, password@) && match spec_login(
                    self@,
                    username@,
                    password@,
                ) {
                    Ok(u) => res is Ok && res->Ok_0@ == u,
                    Err(kind) => res is Err && res->Err_0.inner == kind,
                },
                None => !spec_login_defined(self@, username@, password@),
            },
    {
        if self.login_defined(username, password) {
            Some(self.login(username, password))
        } else {
            None
        }
    }
}

} // verus!
