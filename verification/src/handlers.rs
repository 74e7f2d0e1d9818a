//! The decisions of the HTTP interface: the one-time key that creates the
//! owner, the rights that user management needs, which buffered events a
//! user is shown, and the shapes of requests and replies.
use vstd::prelude::*;
use vstd::string::*;

use crate::auth::user::{spec_can_perform, spec_can_view_event, PublicUser, User, UserAction};
use crate::auth::user_id::UserId;
use crate::events::{spec_filter, ClientEvent, Event, EventInner, EventQuery, UserEventInner};
use crate::text::{spec_utf8_len, str_eq, utf8_len_over};
use crate::traits::{Error, ErrorInner};

verus! {

broadcast use vstd::seq_lib::group_seq_properties;

// ---------------------------------------------------------------------------
// The first-time setup key
// ---------------------------------------------------------------------------

/// What using a setup key does to the key held: the held key and whether
/// the use succeeded.
pub open spec fn spec_claim(held: Option<Seq<char>>, key: Seq<char>) -> (Option<Seq<char>>, bool) {
    match held {
        Some(k) => if k == key {
            (None, true)
        } else {
            (held, false)
        },
        None => (None, false),
    }
}

/// A setup key serves once: after a use succeeds, every later use is
/// refused, whatever key it offers.
pub proof fn lemma_setup_key_once(held: Option<Seq<char>>, key: Seq<char>, later: Seq<char>)
    requires
        spec_claim(held, key).1,
    ensures
        !spec_claim(spec_claim(held, key).0, later).1,
{
}

/// Uses the first-time setup key: when `key` is the key still held, the
/// key is spent (it can create the owner once); a spent key and a wrong key
/// are refused as denied permissions, and the held key is then left as it
/// was.
pub fn claim_setup_key(held: &mut Option<String>, key: &str) -> (r: Result<(), Error>)
    ensures
        r is Ok == spec_claim(old(held).deep_view(), key@).1,
        final(held).deep_view() == spec_claim(old(held).deep_view(), key@).0,
        match *old(held) {
            Some(k) => if k@ == key@ {
                r is Ok && *final(held) is None
            } else {
                r is Err && r->Err_0.inner == ErrorInner::PermissionDenied && r->Err_0.detail@
                    == "Invalid setup key."@ && *final(held) == *old(held)
            },
            None => r is Err && r->Err_0.inner == ErrorInner::PermissionDenied && r->Err_0.detail@
                == "Setup key already used."@ && *final(held) is None,
        },
{
    let matches = match held {
        Some(k) => Some(str_eq(k.as_str(), key)),
        None => None,
    };
    match matches {
        Some(true) => {
            *held = None;
            Ok(())
        },
        Some(false) => Err(Error::new(ErrorInner::PermissionDenied, "Invalid setup key.")),
        None => Err(Error::new(ErrorInner::PermissionDenied, "Setup key already used.")),
    }
}

// ---------------------------------------------------------------------------
// Rights
// ---------------------------------------------------------------------------

/// Refuses, as a denied permission with the given message, a user who may
/// not perform an action.
pub fn require_action(user: &User, action: &UserAction, message: &str) -> (r: Result<(), Error>)
    ensures
        r is Ok <==> spec_can_perform(user@, *action),
        r is Err ==> r->Err_0.inner == ErrorInner::PermissionDenied && r->Err_0.detail@ == message@,
{
    if user.can_perform_action(action) {
        Ok(())
    } else {
        Err(Error::new(ErrorInner::PermissionDenied, message))
    }
}

/// Refuses, as a denied permission with the given message, a request about
/// another user from someone who may not manage users (logging a user out,
/// reading a user's details).
pub fn require_self_or_manager(requester: &User, uid: &UserId, message: &str) -> (r: Result<
    (),
    Error,
>)
    ensures
        r is Ok <==> (requester.uid@ == uid@ || spec_can_perform(requester@, UserAction::ManageUser)),
        r is Err ==> r->Err_0.inner == ErrorInner::PermissionDenied && r->Err_0.detail@ == message@,
{
    if str_eq(requester.uid.as_str(), uid.as_str()) || requester.can_perform_action(
        &UserAction::ManageUser,
    ) {
        Ok(())
    } else {
        Err(Error::new(ErrorInner::PermissionDenied, message))
    }
}

/// The rule of the password change request: refused, as a denied
/// permission, exactly when the password is another user's and the
/// requester may manage users.
pub fn check_password_change(requester: &User, uid: &UserId) -> (r: Result<(), Error>)
    ensures
        r is Err <==> (requester.uid@ != uid@ && spec_can_perform(requester@, UserAction::ManageUser)),
        r is Err ==> r->Err_0.inner == ErrorInner::PermissionDenied && r->Err_0.detail@
            == "You are not authorized to change this user's password"@,
{
    if !str_eq(requester.uid.as_str(), uid.as_str()) && requester.can_perform_action(
        &UserAction::ManageUser,
    ) {
        Err(
            Error::new(
                ErrorInner::PermissionDenied,
                "You are not authorized to change this user's password",
            ),
        )
    } else {
        Ok(())
    }
}

// ---------------------------------------------------------------------------
// Global settings
// ---------------------------------------------------------------------------

/// Refuses, as a denied permission with the given message, anyone but the
/// owner.
pub fn require_owner(user: &User, message: &str) -> (r: Result<(), Error>)
    ensures
        r is Ok <==> user.is_owner,
        r is Err ==> r->Err_0.inner == ErrorInner::PermissionDenied && r->Err_0.detail@ == message@,
{
    if user.is_owner {
        Ok(())
    } else {
        Err(Error::new(ErrorInner::PermissionDenied, message))
    }
}

/// Whether the owner may rename the core to the given name, and why not:
/// only the owner may, and the name takes one to 32 bytes.
pub fn check_core_name(requester: &User, new_name: &str) -> (r: Result<(), Error>)
    ensures
        !requester.is_owner ==> (r is Err && r->Err_0.inner == ErrorInner::PermissionDenied
            && r->Err_0.detail@ == "Not authorized to change core name"@),
        requester.is_owner && spec_utf8_len(new_name@) > 32 ==> (r is Err && r->Err_0.inner
            == ErrorInner::MalformedRequest && r->Err_0.detail@ == "Name too long"@),
        requester.is_owner && spec_utf8_len(new_name@) <= 32 && new_name@.len() == 0 ==> (r is Err
            && r->Err_0.inner == ErrorInner::MalformedRequest && r->Err_0.detail@ == "Name too short"@),
        r is Ok <==> requester.is_owner && spec_utf8_len(new_name@) <= 32 && new_name@.len() > 0,
{
    require_owner(requester, "Not authorized to change core name")?;
    if utf8_len_over(new_name, 32) {
        return Err(Error::new(ErrorInner::MalformedRequest, "Name too long"));
    }
    if new_name.unicode_len() == 0 {
        return Err(Error::new(ErrorInner::MalformedRequest, "Name too short"));
    }
    Ok(())
}

/// The domain the owner sets the core to: none for an empty text; refused
/// to anyone else, and for a domain of more than 32 bytes.
pub fn core_domain(requester: &User, new_domain: String) -> (r: Result<Option<String>, Error>)
    ensures
        !requester.is_owner ==> (r is Err && r->Err_0.inner == ErrorInner::PermissionDenied
            && r->Err_0.detail@ == "Not authorized to change core domain"@),
        requester.is_owner && spec_utf8_len(new_domain@) > 32 ==> (r is Err && r->Err_0.inner
            == ErrorInner::MalformedRequest && r->Err_0.detail@ == "Domain too long"@),
        r is Ok <==> requester.is_owner && spec_utf8_len(new_domain@) <= 32,
        r matches Ok(d) ==> d == (if new_domain@.len() == 0 {
            None
        } else {
            Some(new_domain)
        }),
{
    require_owner(requester, "Not authorized to change core domain")?;
    if utf8_len_over(new_domain.as_str(), 32) {
        return Err(Error::new(ErrorInner::MalformedRequest, "Domain too long"));
    }
    if new_domain.as_str().unicode_len() == 0 {
        Ok(None)
    } else {
        Ok(Some(new_domain))
    }
}

/// Whether a user may see an event (see [`User::can_view_event`]).
pub fn can_user_view_event(event: &Event, user: &User) -> (b: bool)
    ensures
        b == spec_can_view_event(user@, event.event_inner),
{
    user.can_view_event(event)
}

/// Whether a buffered event is shown to a user: it passes the query and
/// the user may see it.
pub open spec fn spec_shown(q: EventQuery, u: crate::auth::user::UserView) -> spec_fn(ClientEvent) -> bool {
    |e: ClientEvent| spec_filter(q, e) && spec_can_view_event(u, e.event_inner)
}

/// The buffered events shown to a user, in order: those that pass the query
/// and that the user may see.
pub fn visible_events(events: Vec<ClientEvent>, query: &EventQuery, user: &User) -> (r: Vec<
    ClientEvent,
>)
    ensures
        r@ == events@.filter(spec_shown(*query, user@)),
{
    let ghost s = events@;
    let n = events.len();
    assert(s.len() == n);
    let mut r: Vec<ClientEvent> = Vec::new();
    let mut rest = events;
    let mut i: usize = 0;
    while rest.len() > 0
        invariant
            i + rest@.len() == s.len(),
            s.len() <= usize::MAX,
            rest@ == s.skip(i as int),
            r@ == s.take(i as int).filter(spec_shown(*query, user@)),
        decreases rest.len(),
    {
        let ghost before = rest@;
        let e = rest.remove(0);
        assert(e == s[i as int]) by {
            assert(before[0] == s.skip(i as int)[0]);
        }
        assert(rest@ =~= s.skip(i as int + 1));
        proof {
            assert(s.take(i as int + 1) =~= s.take(i as int).push(s[i as int]));
            s.take(i as int).lemma_filter_push(s[i as int], spec_shown(*query, user@));
        }
        let keep = query.filter(&e) && user.can_view(&e.event_inner);
        if keep {
            r.push(e);
        }
        i = i + 1;
    }
    assert(s.take(s.len() as int) =~= s);
    r
}

/// Whether an instance event is about the instance asked for (`all` asks
/// for every instance).
pub open spec fn spec_about(ie: crate::events::InstanceEvent, uuid: Seq<char>) -> bool {
    ie.instance_uuid@ == uuid || uuid == "all"@
}

/// Whether a buffered console event is shown to a user asking for an
/// instance's console: it is an event of that instance, which the user may
/// see.
pub open spec fn spec_console_shown(uuid: Seq<char>, u: crate::auth::user::UserView) -> spec_fn(
    Event,
) -> bool {
    |e: Event|
        match e.event_inner {
            EventInner::InstanceEvent(ie) => spec_about(ie, uuid) && spec_can_view_event(
                u,
                e.event_inner,
            ),
            _ => false,
        }
}

fn about(ie: &crate::events::InstanceEvent, uuid: &str) -> (b: bool)
    ensures
        b == spec_about(*ie, uuid@),
{
    str_eq(ie.instance_uuid.as_str(), uuid) || str_eq(uuid, "all")
}

/// The buffered console events shown to a user asking for an instance's
/// console, in order.
pub fn console_buffer(events: Vec<Event>, uuid: &str, user: &User) -> (r: Vec<Event>)
    ensures
        r@ == events@.filter(spec_console_shown(uuid@, user@)),
{
    let ghost s = events@;
    let mut r: Vec<Event> = Vec::new();
    let mut rest = events;
    let ghost mut i: int = 0;
    while rest.len() > 0
        invariant
            0 <= i <= s.len(),
            rest@ == s.skip(i),
            r@ == s.take(i).filter(spec_console_shown(uuid@, user@)),
        decreases rest.len(),
    {
        let e = rest.remove(0);
        proof {
            assert(e == s[i]);
            assert(rest@ =~= s.skip(i + 1));
            assert(s.take(i + 1) =~= s.take(i).push(s[i]));
            s.take(i).lemma_filter_push(s[i], spec_console_shown(uuid@, user@));
        }
        let keep = match &e.event_inner {
            EventInner::InstanceEvent(ie) => about(ie, uuid) && user.can_view(&e.event_inner),
            _ => false,
        };
        if keep {
            r.push(e);
        }
        proof {
            i = i + 1;
        }
    }
    proof {
        assert(s.take(i) =~= s);
    }
    r
}

/// What a console stream does with an event.
#[derive(Debug, Clone, Copy, PartialEq, Eq, Structural)]
pub enum StreamStep {
    /// Sends the event to the client.
    Send,
    /// Passes over it.
    Skip,
    /// Ends the stream.
    Stop,
}

/// What a console stream of an instance, opened by user `uid` (`user` when
/// that user still exists), does with an event: a console line of the
/// instance is sent when the user may see it, and ends the stream when the
/// user no longer exists; the user's logging out or deletion ends it; the
/// rest is passed over.
pub fn console_stream_step(event: &Event, uuid: &str, uid: &UserId, user: Option<&User>) -> (r:
    StreamStep)
    ensures
        r == match event.event_inner {
            EventInner::InstanceEvent(ie) => if spec_is_console_line(*event) && spec_about(ie, uuid@) {
                match user {
                    Some(u) => if spec_can_view_event(u@, event.event_inner) {
                        StreamStep::Send
                    } else {
                        StreamStep::Skip
                    },
                    None => StreamStep::Stop,
                }
            } else {
                StreamStep::Skip
            },
            EventInner::UserEvent(ue) => if (ue.user_event_inner == UserEventInner::UserLoggedOut
                || ue.user_event_inner == UserEventInner::UserDeleted) && ue.user_id@ == uid@ {
                StreamStep::Stop
            } else {
                StreamStep::Skip
            },
            _ => StreamStep::Skip,
        },
{
    match &event.event_inner {
        EventInner::InstanceEvent(ie) => {
            if event.is_event_console_message() && about(ie, uuid) {
                match user {
                    Some(u) => if u.can_view(&event.event_inner) {
                        StreamStep::Send
                    } else {
                        StreamStep::Skip
                    },
                    None => StreamStep::Stop,
                }
            } else {
                StreamStep::Skip
            }
        },
        EventInner::UserEvent(ue) => {
            let ends = match &ue.user_event_inner {
                UserEventInner::UserLoggedOut => true,
                UserEventInner::UserDeleted => true,
                _ => false,
            };
            if ends && str_eq(ue.user_id.as_str(), uid.as_str()) {
                StreamStep::Stop
            } else {
                StreamStep::Skip
            }
        },
        _ => StreamStep::Skip,
    }
}

/// Whether an event stream sends an event to its user: console lines go to
/// console streams only; the rest is sent when it passes the stream's query
/// and the user may see it.
pub fn event_stream_sends(event: &ClientEvent, query: &EventQuery, user: &User) -> (b: bool)
    ensures
        b == (!(event.event_inner matches EventInner::InstanceEvent(ie) && (
        ie.instance_event_inner is InstanceOutput || ie.instance_event_inner is PlayerMessage
            || ie.instance_event_inner is SystemMessage)) && spec_filter(*query, *event)
            && spec_can_view_event(user@, event.event_inner)),
{
    let console = match &event.event_inner {
        EventInner::InstanceEvent(ie) => match &ie.instance_event_inner {
            crate::events::InstanceEventInner::InstanceOutput { .. } => true,
            crate::events::InstanceEventInner::PlayerMessage { .. } => true,
            crate::events::InstanceEventInner::SystemMessage { .. } => true,
            _ => false,
        },
        _ => false,
    };
    !console && query.filter(event) && user.can_view(&event.event_inner)
}

/// Whether an event is a line of an instance console.
pub open spec fn spec_is_console_line(e: Event) -> bool {
    e.event_inner matches EventInner::InstanceEvent(ie) && (ie.instance_event_inner is InstanceOutput
        || ie.instance_event_inner is PlayerMessage || ie.instance_event_inner is SystemMessage)
}

// ---------------------------------------------------------------------------
// Requests and replies
// ---------------------------------------------------------------------------

/// The kind of an entry of a directory listing.
#[derive(Debug, Clone, Copy, PartialEq, Eq, Structural)]
pub enum FileType {
    File,
    Directory,
    Unknown,
}

/// The kind of an entry: a directory, else a file, else unknown.
pub fn file_type_of(is_dir: bool, is_file: bool) -> (t: FileType)
    ensures
        t == if is_dir {
            FileType::Directory
        } else if is_file {
            FileType::File
        } else {
            FileType::Unknown
        },
{
    if is_dir {
        FileType::Directory
    } else if is_file {
        FileType::File
    } else {
        FileType::Unknown
    }
}

/// An entry of a directory listing, as sent to clients (times in seconds
/// since the Unix epoch, when known).
#[derive(Debug)]
pub struct File {
    pub name: String,
    pub path: String,
    pub creation_time: Option<u64>,
    pub modification_time: Option<u64>,
    pub file_type: FileType,
}

/// The memory of the machine, in bytes.
#[derive(Debug)]
pub struct MemInfo {
    pub total: u64,
    pub free: u64,
}

/// The disk space of the machine, in bytes.
#[derive(Debug)]
pub struct DiskInfo {
    pub total: u64,
    pub free: u64,
}

/// The owner to create with the first-time setup key.
#[derive(Debug)]
pub struct OwnerSetup {
    pub username: String,
    pub password: String,
}

/// A generic instance to create: where its source is, and its filled-in
/// setup form.
#[derive(Debug)]
pub struct GenericSetupConfig {
    pub url: String,
    pub setup_value: crate::manifest::SetupValue,
}

/// A user to create.
#[derive(Debug)]
pub struct NewUserSchema {
    pub username: String,
    pub password: String,
}

/// A password to set for a user.
#[derive(Debug)]
pub struct ChangePasswordConfig {
    pub uid: UserId,
    pub password: String,
}

/// The reply to a login: the token, and the user without its secrets.
pub struct LoginReply {
    pub token: String,
    pub user: PublicUser,
}

/// An event query, as the JSON text of an HTTP query parameter.
#[derive(Debug)]
pub struct EventQueryWrapper {
    pub filter: String,
}

/// The token of a websocket connection, as an HTTP query parameter.
#[derive(Debug)]
pub struct WebsocketQuery {
    pub token: String,
}

/// Whether an instance of the given name exists, given the names of the
/// instances.
pub fn is_name_in_use(instance_names: &Vec<String>, name: &str) -> (b: bool)
    ensures
        b == instance_names.deep_view().contains(name@),
{
    let mut i: usize = 0;
    while i < instance_names.len()
        invariant
            i <= instance_names.len(),
            forall|j: int| 0 <= j < i ==> instance_names.deep_view()[j] != name@,
        decreases instance_names.len() - i,
    {
        if str_eq(instance_names[i].as_str(), name) {
            assert(instance_names.deep_view()[i as int] == name@);
            return true;
        }
        i = i + 1;
    }
    assert(!instance_names.deep_view().contains(name@)) by {
        if instance_names.deep_view().contains(name@) {
            let k = choose|k: int|
                0 <= k < instance_names.deep_view().len() && instance_names.deep_view()[k] == name@;
            assert(instance_names.deep_view()[k] != name@);
        }
    }
    false
}

// ---------------------------------------------------------------------------
// What the core tells about its machine
// ---------------------------------------------------------------------------

/// The processor name shown: the brand of the first processor, or
/// `Unknown CPU` when there is none or its brand is empty.
pub fn cpu_label(first_brand: Option<&str>) -> (s: String)
    ensures
        s@ == match first_brand {
            Some(b) => if b@.len() > 0 {
                b@
            } else {
                "Unknown CPU"@
            },
            None => "Unknown CPU"@,
        },
{
    match first_brand {
        Some(b) => if b.unicode_len() > 0 {
            String::from_str(b)
        } else {
            String::from_str("Unknown CPU")
        },
        None => String::from_str("Unknown CPU"),
    }
}

/// The host name shown: the machine's, or `Unknown Hostname` when it has
/// none.
pub fn host_label(host_name: Option<String>) -> (s: String)
    ensures
        s@ == match host_name {
            Some(h) => h@,
            None => "Unknown Hostname"@,
        },
{
    match host_name {
        Some(h) => h,
        None => String::from_str("Unknown Hostname"),
    }
}

/// The sum of the sizes of the first `n` disks.
pub open spec fn spec_disk_total(sizes: Seq<u64>, n: int) -> int
    decreases n,
{
    if n <= 0 {
        0
    } else {
        spec_disk_total(sizes, n - 1) + sizes[n - 1]
    }
}

proof fn lemma_disk_total_grows(sizes: Seq<u64>, i: int, j: int)
    requires
        0 <= i <= j <= sizes.len(),
    ensures
        spec_disk_total(sizes, i) <= spec_disk_total(sizes, j),
    decreases j - i,
{
    if i < j {
        lemma_disk_total_grows(sizes, i, j - 1);
    }
}

/// The total space of the machine's disks, in bytes.
pub fn total_disk(sizes: &Vec<u64>) -> (t: u64)
    requires
        spec_disk_total(sizes@, sizes@.len() as int) <= u64::MAX,
    ensures
        t == spec_disk_total(sizes@, sizes@.len() as int),
{
    let mut t: u64 = 0;
    let mut i: usize = 0;
    while i < sizes.len()
        invariant
            i <= sizes.len(),
            t == spec_disk_total(sizes@, i as int),
            spec_disk_total(sizes@, sizes@.len() as int) <= u64::MAX,
        decreases sizes.len() - i,
    {
        proof {
            lemma_disk_total_grows(sizes@, i as int + 1, sizes@.len() as int);
        }
        t = t + sizes[i];
        i = i + 1;
    }
    t
}

} // verus!
