//! Users: who they are, what they may do, and who may change their
//! permissions.
use argon2::{PasswordHasher, PasswordVerifier};
use vstd::prelude::*;
use vstd::string::*;

use crate::auth::permission::{
    contains_instance, spec_grants_unsafe, spec_creator_grant, spec_no_permission, lemma_with_instance, UserPermission,
    UserPermissionView,
};
use crate::auth::jwt::{expiry_after_days, jwt_encode, spec_jwt_payload_uid, spec_jwt_signed_with};
use crate::auth::user_id::{new_uuid_v4, spec_uuid_v4_text, UserId};
use crate::events::{Event, EventInner};
use crate::traits::{Error, ErrorInner};
use crate::types::InstanceUuid;

verus! {

// ---------------------------------------------------------------------------
// Password checks
// ---------------------------------------------------------------------------

/// What argon2 says of a password against a stored hash: `None` when the
/// stored text is not a hash argon2 can read, else whether the password
/// matches it.
pub uninterp spec fn spec_password_check(password: Seq<char>, hash: Seq<char>) -> Option<bool>;

/// Checks a password against a stored hash: `argon2::PasswordHash::new` on
/// the hash (an error gives `None`), then `Argon2::verify_password`, whose
/// success gives `Some(true)` and whose error gives `Some(false)`. The
/// result depends on the two texts alone (the hash holds salt and
/// parameters), so it is named.
#[verifier::external_body]
pub(crate) fn check_password(password: &str, hash: &str) -> (r: Option<bool>)
    ensures
        r == spec_password_check(password@, hash@),
{
    match argon2::PasswordHash::new(hash) {
        Ok(h) => Some(argon2::Argon2::default().verify_password(password.as_bytes(), &h).is_ok()),
        Err(_) => None,
    }
}

/// A salted argon2 hash of a password, with a fresh random salt (argon2's
/// `Argon2::default().hash_password` with a salt from `OsRng`). The text is
/// random, through the salt; what is promised is what the hash is for: it
/// is a hash argon2 reads back, and checking the same password against it
/// succeeds (verification recomputes the hash with the salt and parameters
/// it holds). Argon2 refuses passwords of more than `0xFFFF_FFFF` bytes,
/// which a password of at most a quarter of that many characters cannot
/// reach.
#[verifier::external_body]
pub fn hash_password(password: &str) -> (h: String)
    requires
        password@.len() <= 0x3FFF_FFFF,
    ensures
        spec_password_check(password@, h@) == Some(true),
{
    let salt = argon2::password_hash::SaltString::generate(&mut rand_core::OsRng);
    argon2::Argon2::default().hash_password(password.as_bytes(), &salt).unwrap().to_string()
}

#[derive(Debug, PartialEq, Eq)]
pub struct HashedPassword(pub String);

impl Clone for HashedPassword {
    fn clone(&self) -> (r: Self)
        ensures
            r == *self,
    {
        HashedPassword(self.0.clone())
    }
}

#[derive(Debug, PartialEq, Eq)]
pub struct UserSecret(pub String);

impl Clone for UserSecret {
    fn clone(&self) -> (r: Self)
        ensures
            r == *self,
    {
        UserSecret(self.0.clone())
    }
}

impl UserSecret {
    /// A fresh random secret: the text of a random version 4 UUID.
    pub fn default() -> (s: UserSecret)
        ensures
            spec_uuid_v4_text(s.0@),
    {
        UserSecret(new_uuid_v4())
    }
}

/// The claims of a login token: the user and the expiry time.
pub struct Claim {
    pub uid: UserId,
    pub exp: usize,
}

#[derive(Debug)]
pub struct User {
    pub uid: UserId,
    pub username: String,
    pub hashed_psw: HashedPassword,
    pub is_owner: bool,
    pub is_admin: bool,
    pub permissions: UserPermission,
    pub secret: UserSecret,
}

pub struct UserView {
    pub uid: Seq<char>,
    pub username: Seq<char>,
    pub hashed_psw: Seq<char>,
    pub is_owner: bool,
    pub is_admin: bool,
    pub permissions: UserPermissionView,
    pub secret: Seq<char>,
}

impl View for User {
    type V = UserView;

    open spec fn view(&self) -> UserView {
        UserView {
            uid: self.uid@,
            username: self.username@,
            hashed_psw: self.hashed_psw.0@,
            is_owner: self.is_owner,
            is_admin: self.is_admin,
            permissions: self.permissions@,
            secret: self.secret.0@,
        }
    }
}

impl Clone for User {
    fn clone(&self) -> (r: Self)
        ensures
            r@ == self@,
    {
        User {
            uid: self.uid.clone(),
            username: self.username.clone(),
            hashed_psw: self.hashed_psw.clone(),
            is_owner: self.is_owner,
            is_admin: self.is_admin,
            permissions: self.permissions.clone(),
            secret: self.secret.clone(),
        }
    }
}

/// Something a user may want to do.
pub enum UserAction {
    // instance specific actions:
    ViewInstance(InstanceUuid),
    StartInstance(InstanceUuid),
    StopInstance(InstanceUuid),
    AccessConsole(InstanceUuid),
    AccessSetting(InstanceUuid),
    ReadResource(InstanceUuid),
    WriteResource(InstanceUuid),
    AccessMacro(InstanceUuid),
    ReadInstanceFile(InstanceUuid),
    WriteInstanceFile(InstanceUuid),
    // global actions:
    CreateInstance,
    DeleteInstance,
    ReadGlobalFile,
    WriteGlobalFile,
    ManageUser,
    ManagePermission,
}

/// The rank of a user: the owner above administrators above everyone else.
pub open spec fn spec_permission_level(u: UserView) -> u8 {
    if u.is_owner {
        u8::MAX
    } else if u.is_admin {
        2
    } else {
        1
    }
}

/// Whether a user may perform an action. The owner may do anything. An
/// administrator may do what concerns viewing, running and configuring
/// instances, reading their resources and files, and creating or deleting
/// them; writing resources or files, macros, global files and permissions need
/// an explicit grant; managing users is the owner's alone.
pub open spec fn spec_can_perform(u: UserView, a: UserAction) -> bool {
    let p = u.permissions;
    if u.is_owner {
        true
    } else {
        match a {
            UserAction::ViewInstance(i) => u.is_admin || p.can_view_instance.contains(i@),
            UserAction::StartInstance(i) => u.is_admin || p.can_start_instance.contains(i@),
            UserAction::StopInstance(i) => u.is_admin || p.can_stop_instance.contains(i@),
            UserAction::AccessConsole(i) => u.is_admin || p.can_access_instance_console.contains(i@),
            UserAction::AccessSetting(i) => u.is_admin || p.can_access_instance_setting.contains(i@),
            UserAction::ReadResource(i) => u.is_admin || p.can_read_instance_resource.contains(i@),
            UserAction::WriteResource(i) => p.can_write_instance_resource.contains(i@),
            UserAction::ReadInstanceFile(i) => u.is_admin || p.can_read_global_file
                || p.can_read_instance_file.contains(i@),
            UserAction::WriteInstanceFile(i) => p.can_write_global_file
                || p.can_write_instance_file.contains(i@),
            UserAction::AccessMacro(i) => p.can_access_instance_macro.contains(i@),
            UserAction::CreateInstance => u.is_admin || p.can_create_instance,
            UserAction::DeleteInstance => u.is_admin || p.can_delete_instance,
            UserAction::ReadGlobalFile => p.can_read_global_file,
            UserAction::WriteGlobalFile => p.can_write_global_file,
            UserAction::ManageUser => u.is_owner,
            UserAction::ManagePermission => p.can_manage_permission,
        }
    }
}

/// Whether `me` may set the permissions of `other` to `p`: `me` must rank
/// strictly above `other`; the owner may then grant anything, anyone else
/// nothing unsafe, and only when an administrator or allowed to manage
/// permissions.
pub open spec fn spec_may_update_permission(
    me: UserView,
    other: UserView,
    p: UserPermissionView,
) -> bool {
    &&& spec_permission_level(me) > spec_permission_level(other)
    &&& (me.is_owner || (!spec_grants_unsafe(p) && (me.is_admin
        || me.permissions.can_manage_permission)))
}

/// Whether a user may see an event: instance events need the right to view the
/// instance, user and file-system events the right to manage users, macro
/// events the right to use macros of the instance, progress events are seen by
/// everyone.
pub open spec fn spec_can_view_event(u: UserView, e: EventInner) -> bool {
    match e {
        EventInner::InstanceEvent(ie) => spec_can_perform(u, UserAction::ViewInstance(ie.instance_uuid)),
        EventInner::UserEvent(_) => spec_can_perform(u, UserAction::ManageUser),
        EventInner::FSEvent(_) => spec_can_perform(u, UserAction::ManageUser),
        EventInner::MacroEvent(me) => match me.instance_uuid {
            Some(i) => spec_can_perform(u, UserAction::AccessMacro(i)),
            None => u.is_owner,
        },
        EventInner::ProgressionEvent(_) => true,
    }
}

impl User {
    /// A new user with a fresh identifier and secret, and the hash of the
    /// given password.
    pub fn new(
        username: String,
        password: &str,
        is_owner: bool,
        is_admin: bool,
        permissions: UserPermission,
    ) -> (u: User)
        requires
            password@.len() <= 0x3FFF_FFFF,
        ensures
            u@.username == username@,
            u@.is_owner == is_owner,
            u@.is_admin == is_admin,
            u@.permissions == permissions@,
            exists|r: Seq<char>| u@.uid == "USER_"@ + r && spec_uuid_v4_text(r),
            spec_uuid_v4_text(u@.secret),
            spec_password_check(password@, u@.hashed_psw) == Some(true),
    {
        User {
            uid: UserId::default(),
            username,
            hashed_psw: HashedPassword(hash_password(password)),
            is_owner,
            is_admin,
            permissions,
            secret: UserSecret::default(),
        }
    }

    /// A login token for this user: its identifier, an expiry sixty days
    /// from now, signed with its secret. An expiry past chrono's range, or
    /// a failure to encode, is an internal error.
    pub fn create_jwt(&self) -> (r: Result<String, Error>)
        ensures
            match r {
                Ok(t) => spec_jwt_payload_uid(t@) == Some(self@.uid) && spec_jwt_signed_with(
                    t@,
                    self@.secret,
                ),
                Err(e) => e.inner == ErrorInner::InternalError,
            },
    {
        let exp = match expiry_after_days(60) {
            Some(exp) => exp,
            None => {
                return Err(Error::new(ErrorInner::InternalError, "Failed to generate JWT"));
            },
        };
        match jwt_encode(self.uid.0.as_str(), exp, self.secret.0.as_str()) {
            Ok(t) => Ok(t),
            Err(detail) => Err(Error { inner: ErrorInner::InternalError, detail }),
        }
    }

    /// The rank of this user.
    pub fn get_permission_level(&self) -> (l: u8)
        ensures
            l == spec_permission_level(self@),
    {
        if self.is_owner {
            u8::MAX
        } else if self.is_admin {
            2
        } else {
            1
        }
    }

    /// Sets the permissions of `other`, if this user may (see
    /// `spec_may_update_permission`); otherwise `other` is left as it was and
    /// the permission is denied.
    pub fn update_permission(&self, other: &mut User, permissions: UserPermission) -> (res: Result<(), Error>)
        ensures
            res is Ok <==> spec_may_update_permission(self@, old(other)@, permissions@),
            match res {
                Ok(_) => final(other)@ == (UserView { permissions: permissions@, ..old(other)@ }),
                Err(e) => final(other)@ == old(other)@ && e.inner == ErrorInner::PermissionDenied,
            },
    {
        if self.get_permission_level() <= other.get_permission_level() {
            return Err(Error::new(
                ErrorInner::PermissionDenied,
                "You do not have permission to update this user's permissions.",
            ));
        }
        if self.is_owner {
            other.permissions = permissions;
            Ok(())
        } else {
            if permissions.grants_unsafe() {
                Err(Error::new(
                    ErrorInner::PermissionDenied,
                    "Unsafe and owner exclusive permissions can only be granted by the owner",
                ))
            } else if self.is_admin || self.permissions.can_manage_permission {
                other.permissions = permissions;
                Ok(())
            } else {
                Err(Error::new(
                    ErrorInner::PermissionDenied,
                    "You don't have permission to manage other users' permission",
                ))
            }
        }
    }

    /// Whether this user may perform the action.
    pub fn can_perform_action(&self, action: &UserAction) -> (b: bool)
        ensures
            b == spec_can_perform(self@, *action),
    {
        if self.is_owner {
            return true;
        }
        let p = &self.permissions;
        match action {
            UserAction::ViewInstance(i) => self.is_admin || contains_instance(&p.can_view_instance, i),
            UserAction::StartInstance(i) => self.is_admin || contains_instance(&p.can_start_instance, i),
            UserAction::StopInstance(i) => self.is_admin || contains_instance(&p.can_stop_instance, i),
            UserAction::AccessConsole(i) => self.is_admin || contains_instance(
                &p.can_access_instance_console,
                i,
            ),
            UserAction::AccessSetting(i) => self.is_admin || contains_instance(
                &p.can_access_instance_setting,
                i,
            ),
            UserAction::ReadResource(i) => self.is_admin || contains_instance(
                &p.can_read_instance_resource,
                i,
            ),
            UserAction::WriteResource(i) => contains_instance(&p.can_write_instance_resource, i),
            UserAction::ReadInstanceFile(i) => self.is_admin || p.can_read_global_file
                || contains_instance(&p.can_read_instance_file, i),
            UserAction::WriteInstanceFile(i) => p.can_write_global_file || contains_instance(
                &p.can_write_instance_file,
                i,
            ),
            UserAction::AccessMacro(i) => contains_instance(&p.can_access_instance_macro, i),
            UserAction::CreateInstance => self.is_admin || p.can_create_instance,
            UserAction::DeleteInstance => self.is_admin || p.can_delete_instance,
            UserAction::ReadGlobalFile => p.can_read_global_file,
            UserAction::WriteGlobalFile => p.can_write_global_file,
            UserAction::ManageUser => self.is_owner,
            UserAction::ManagePermission => p.can_manage_permission,
        }
    }

    /// Whether this user may see an event of the given content.
    pub fn can_view(&self, event_inner: &EventInner) -> (b: bool)
        ensures
            b == spec_can_view_event(self@, *event_inner),
    {
        match event_inner {
            EventInner::InstanceEvent(ie) => self.can_perform_action(
                &UserAction::ViewInstance(ie.instance_uuid.clone()),
            ),
            EventInner::UserEvent(_) => self.can_perform_action(&UserAction::ManageUser),
            EventInner::FSEvent(_) => self.can_perform_action(&UserAction::ManageUser),
            EventInner::MacroEvent(me) => match &me.instance_uuid {
                Some(i) => self.can_perform_action(&UserAction::AccessMacro(i.clone())),
                None => self.is_owner,
            },
            EventInner::ProgressionEvent(_) => true,
        }
    }

    /// Whether this user may see the event.
    pub fn can_view_event(&self, event: &Event) -> (b: bool)
        ensures
            b == spec_can_view_event(self@, event.event_inner),
    {
        self.can_view(&event.event_inner)
    }
}

/// A user as shown to others: without the password hash and the secret.
#[derive(Debug, Clone)]
pub struct PublicUser {
    pub uid: UserId,
    pub username: String,
    pub is_owner: bool,
    pub is_admin: bool,
    pub permissions: UserPermission,
}

impl PublicUser {
    /// The public part of a user.
    pub fn from(user: &User) -> (p: PublicUser)
        ensures
            p.uid@ == user.uid@,
            p.username@ == user.username@,
            p.is_owner == user.is_owner,
            p.is_admin == user.is_admin,
            p.permissions@ == user.permissions@,
    {
        PublicUser {
            uid: user.uid.clone(),
            username: user.username.clone(),
            is_owner: user.is_owner,
            is_admin: user.is_admin,
            permissions: user.permissions.clone(),
        }
    }
}

// ---------------------------------------------------------------------------
// Laws
// ---------------------------------------------------------------------------

/// The owner may perform every action.
pub proof fn lemma_owner_can_do_anything(u: UserView, a: UserAction)
    requires
        u.is_owner,
    ensures
        spec_can_perform(u, a),
{
}

/// Only the owner may manage users.
pub proof fn lemma_only_owner_manages_users(u: UserView)
    ensures
        spec_can_perform(u, UserAction::ManageUser) <==> u.is_owner,
{
}

/// Unsafe permissions (writing resources or files, macros, global writes,
/// managing permissions) are granted only by the owner.
pub proof fn lemma_unsafe_grants_only_by_owner(me: UserView, other: UserView, p: UserPermissionView)
    requires
        spec_may_update_permission(me, other, p),
        spec_grants_unsafe(p),
    ensures
        me.is_owner,
{
}

/// Nobody may change the owner's permissions, and nobody may change the
/// permissions of someone of the same or a higher rank.
pub proof fn lemma_update_needs_higher_rank(me: UserView, other: UserView, p: UserPermissionView)
    ensures
        other.is_owner ==> !spec_may_update_permission(me, other, p),
        spec_may_update_permission(me, other, p) ==> spec_permission_level(me)
            > spec_permission_level(other),
        spec_may_update_permission(me, other, p) ==> !other.is_owner,
{
}

/// Whoever is given the creator's grants on an instance may start, stop and
/// view it and read and write its files, and may do nothing more elsewhere
/// than before: on another instance, and globally, what the user may do is
/// unchanged.
pub proof fn lemma_creator_can_use_instance(u: UserView, i: InstanceUuid, a: UserAction)
    ensures
        ({
            let g = UserView { permissions: spec_creator_grant(u.permissions, i@), ..u };
            &&& spec_can_perform(g, UserAction::StartInstance(i))
            &&& spec_can_perform(g, UserAction::StopInstance(i))
            &&& spec_can_perform(g, UserAction::ViewInstance(i))
            &&& spec_can_perform(g, UserAction::ReadInstanceFile(i))
            &&& spec_can_perform(g, UserAction::WriteInstanceFile(i))
            &&& spec_action_instance(a) != Some(i@) ==> (spec_can_perform(g, a)
                == spec_can_perform(u, a))
        }),
{
    let p = u.permissions;
    let j = match spec_action_instance(a) {
        Some(j) => j,
        None => i@,
    };
    lemma_with_instance(p.can_start_instance, i@, j);
    lemma_with_instance(p.can_stop_instance, i@, j);
    lemma_with_instance(p.can_view_instance, i@, j);
    lemma_with_instance(p.can_read_instance_file, i@, j);
    lemma_with_instance(p.can_write_instance_file, i@, j);
}

/// The instance an action concerns, for the actions on one instance.
pub open spec fn spec_action_instance(a: UserAction) -> Option<Seq<char>> {
    match a {
        UserAction::ViewInstance(i) => Some(i@),
        UserAction::StartInstance(i) => Some(i@),
        UserAction::StopInstance(i) => Some(i@),
        UserAction::AccessConsole(i) => Some(i@),
        UserAction::AccessSetting(i) => Some(i@),
        UserAction::ReadResource(i) => Some(i@),
        UserAction::WriteResource(i) => Some(i@),
        UserAction::AccessMacro(i) => Some(i@),
        UserAction::ReadInstanceFile(i) => Some(i@),
        UserAction::WriteInstanceFile(i) => Some(i@),
        _ => None,
    }
}

/// An administrator may, on every instance and without any grant, view,
/// start and stop it, use its console and its settings, and read its
/// resources and files; and may create and delete instances.
pub proof fn lemma_admin_can_use_every_instance(u: UserView, i: InstanceUuid)
    requires
        u.is_admin,
    ensures
        spec_can_perform(u, UserAction::ViewInstance(i)),
        spec_can_perform(u, UserAction::StartInstance(i)),
        spec_can_perform(u, UserAction::StopInstance(i)),
        spec_can_perform(u, UserAction::AccessConsole(i)),
        spec_can_perform(u, UserAction::AccessSetting(i)),
        spec_can_perform(u, UserAction::ReadResource(i)),
        spec_can_perform(u, UserAction::ReadInstanceFile(i)),
        spec_can_perform(u, UserAction::CreateInstance),
        spec_can_perform(u, UserAction::DeleteInstance),
{
}

/// A grant allows what it names, whoever holds it: each per-instance grant
/// on an instance allows its action there, reading or writing global files
/// allows it on every instance's files too, and each global grant allows
/// its action.
pub proof fn lemma_grants_allow(u: UserView, i: InstanceUuid)
    ensures
        u.permissions.can_view_instance.contains(i@) ==> spec_can_perform(u, UserAction::ViewInstance(i)),
        u.permissions.can_start_instance.contains(i@) ==> spec_can_perform(u, UserAction::StartInstance(i)),
        u.permissions.can_stop_instance.contains(i@) ==> spec_can_perform(u, UserAction::StopInstance(i)),
        u.permissions.can_access_instance_console.contains(i@) ==> spec_can_perform(
            u,
            UserAction::AccessConsole(i),
        ),
        u.permissions.can_access_instance_setting.contains(i@) ==> spec_can_perform(
            u,
            UserAction::AccessSetting(i),
        ),
        u.permissions.can_read_instance_resource.contains(i@) ==> spec_can_perform(
            u,
            UserAction::ReadResource(i),
        ),
        u.permissions.can_write_instance_resource.contains(i@) ==> spec_can_perform(
            u,
            UserAction::WriteResource(i),
        ),
        u.permissions.can_access_instance_macro.contains(i@) ==> spec_can_perform(
            u,
            UserAction::AccessMacro(i),
        ),
        u.permissions.can_read_instance_file.contains(i@) ==> spec_can_perform(
            u,
            UserAction::ReadInstanceFile(i),
        ),
        u.permissions.can_write_instance_file.contains(i@) ==> spec_can_perform(
            u,
            UserAction::WriteInstanceFile(i),
        ),
        u.permissions.can_read_global_file ==> spec_can_perform(u, UserAction::ReadGlobalFile)
            && spec_can_perform(u, UserAction::ReadInstanceFile(i)),
        u.permissions.can_write_global_file ==> spec_can_perform(u, UserAction::WriteGlobalFile)
            && spec_can_perform(u, UserAction::WriteInstanceFile(i)),
        u.permissions.can_create_instance ==> spec_can_perform(u, UserAction::CreateInstance),
        u.permissions.can_delete_instance ==> spec_can_perform(u, UserAction::DeleteInstance),
        u.permissions.can_manage_permission ==> spec_can_perform(u, UserAction::ManagePermission),
{
}

/// A user who is neither the owner nor an administrator, and who has been
/// granted nothing, may do nothing.
pub proof fn lemma_no_grant_no_action(u: UserView, a: UserAction)
    requires
        !u.is_owner,
        !u.is_admin,
        u.permissions == spec_no_permission(),
    ensures
        !spec_can_perform(u, a),
{
}

/// An administrator who is not the owner may not write instance files, use
/// macros or write global files unless explicitly granted.
pub proof fn lemma_admin_needs_grants_for_unsafe(u: UserView, i: InstanceUuid)
    requires
        !u.is_owner,
        !u.permissions.can_write_global_file,
        !u.permissions.can_write_instance_file.contains(i@),
        !u.permissions.can_access_instance_macro.contains(i@),
    ensures
        !spec_can_perform(u, UserAction::WriteInstanceFile(i)),
        !spec_can_perform(u, UserAction::AccessMacro(i)),
        !spec_can_perform(u, UserAction::WriteGlobalFile),
{
}

} // verus!
