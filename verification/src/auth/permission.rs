//! What a user may do: per-instance grants (lists of instance identifiers)
//! and global grants.
use vstd::prelude::*;

use crate::text::clone_strings;
use crate::types::InstanceUuid;

verus! {

/// A right, by name, as kept in the JSON store.
#[derive(Debug, Clone, Copy, PartialEq, Eq, Structural, Hash)]
pub enum Permission {
    // Instance specific permissions:
    CanViewInstance,
    CanStartInstance,
    CanStopInstance,
    CanAccessConsole,
    CanChangeSetting,
    CanManageResource,
    CanAccessMacro,
    // Global permissions:
    CanCreateInstance,
    CanDeleteInstance,
    CanManageUser,
    CanManagePermission,
}

#[derive(Debug, PartialEq, Eq)]
pub struct UserPermission {
    pub can_view_instance: Vec<String>,
    pub can_start_instance: Vec<String>,
    pub can_stop_instance: Vec<String>,
    pub can_access_instance_console: Vec<String>,
    pub can_access_instance_setting: Vec<String>,
    pub can_read_instance_resource: Vec<String>,
    // unsafe permission, owner exclusive unless explicitly granted
    pub can_write_instance_resource: Vec<String>,
    // unsafe permission, owner exclusive unless explicitly granted
    pub can_access_instance_macro: Vec<String>,
    pub can_read_instance_file: Vec<String>,
    // unsafe permission, owner exclusive unless explicitly granted
    pub can_write_instance_file: Vec<String>,
    pub can_create_instance: bool,
    pub can_delete_instance: bool,
    pub can_read_global_file: bool,
    // unsafe permission, owner exclusive unless explicitly granted
    pub can_write_global_file: bool,
    // owner exclusive unless explicitly granted
    pub can_manage_permission: bool,
}

impl Clone for UserPermission {
    fn clone(&self) -> (r: Self)
        ensures
            r@ == self@,
    {
        UserPermission {
            can_view_instance: clone_strings(&self.can_view_instance),
            can_start_instance: clone_strings(&self.can_start_instance),
            can_stop_instance: clone_strings(&self.can_stop_instance),
            can_access_instance_console: clone_strings(&self.can_access_instance_console),
            can_access_instance_setting: clone_strings(&self.can_access_instance_setting),
            can_read_instance_resource: clone_strings(&self.can_read_instance_resource),
            can_write_instance_resource: clone_strings(&self.can_write_instance_resource),
            can_access_instance_macro: clone_strings(&self.can_access_instance_macro),
            can_read_instance_file: clone_strings(&self.can_read_instance_file),
            can_write_instance_file: clone_strings(&self.can_write_instance_file),
            can_create_instance: self.can_create_instance,
            can_delete_instance: self.can_delete_instance,
            can_read_global_file: self.can_read_global_file,
            can_write_global_file: self.can_write_global_file,
            can_manage_permission: self.can_manage_permission,
        }
    }
}

pub struct UserPermissionView {
    pub can_view_instance: Seq<Seq<char>>,
    pub can_start_instance: Seq<Seq<char>>,
    pub can_stop_instance: Seq<Seq<char>>,
    pub can_access_instance_console: Seq<Seq<char>>,
    pub can_access_instance_setting: Seq<Seq<char>>,
    pub can_read_instance_resource: Seq<Seq<char>>,
    pub can_write_instance_resource: Seq<Seq<char>>,
    pub can_access_instance_macro: Seq<Seq<char>>,
    pub can_read_instance_file: Seq<Seq<char>>,
    pub can_write_instance_file: Seq<Seq<char>>,
    pub can_create_instance: bool,
    pub can_delete_instance: bool,
    pub can_read_global_file: bool,
    pub can_write_global_file: bool,
    pub can_manage_permission: bool,
}

impl View for UserPermission {
    type V = UserPermissionView;

    open spec fn view(&self) -> UserPermissionView {
        UserPermissionView {
            can_view_instance: self.can_view_instance.deep_view(),
            can_start_instance: self.can_start_instance.deep_view(),
            can_stop_instance: self.can_stop_instance.deep_view(),
            can_access_instance_console: self.can_access_instance_console.deep_view(),
            can_access_instance_setting: self.can_access_instance_setting.deep_view(),
            can_read_instance_resource: self.can_read_instance_resource.deep_view(),
            can_write_instance_resource: self.can_write_instance_resource.deep_view(),
            can_access_instance_macro: self.can_access_instance_macro.deep_view(),
            can_read_instance_file: self.can_read_instance_file.deep_view(),
            can_write_instance_file: self.can_write_instance_file.deep_view(),
            can_create_instance: self.can_create_instance,
            can_delete_instance: self.can_delete_instance,
            can_read_global_file: self.can_read_global_file,
            can_write_global_file: self.can_write_global_file,
            can_manage_permission: self.can_manage_permission,
        }
    }
}

/// Whether a permission set grants something that only the owner may grant:
/// writing instance resources or files, macros, writing global files, or
/// managing permissions.
pub open spec fn spec_grants_unsafe(p: UserPermissionView) -> bool {
    ||| p.can_write_instance_resource.len() > 0
    ||| p.can_access_instance_macro.len() > 0
    ||| p.can_write_global_file
    ||| p.can_manage_permission
    ||| p.can_write_instance_file.len() > 0
}

/// Whether each list of instance identifiers of a permission set holds each
/// identifier at most once: the lists stand for sets.
pub open spec fn spec_permission_wf(p: UserPermissionView) -> bool {
    &&& p.can_view_instance.no_duplicates()
    &&& p.can_start_instance.no_duplicates()
    &&& p.can_stop_instance.no_duplicates()
    &&& p.can_access_instance_console.no_duplicates()
    &&& p.can_access_instance_setting.no_duplicates()
    &&& p.can_read_instance_resource.no_duplicates()
    &&& p.can_write_instance_resource.no_duplicates()
    &&& p.can_access_instance_macro.no_duplicates()
    &&& p.can_read_instance_file.no_duplicates()
    &&& p.can_write_instance_file.no_duplicates()
}

/// The permission set that grants nothing.
pub open spec fn spec_no_permission() -> UserPermissionView {
    UserPermissionView {
        can_view_instance: Seq::empty(),
        can_start_instance: Seq::empty(),
        can_stop_instance: Seq::empty(),
        can_access_instance_console: Seq::empty(),
        can_access_instance_setting: Seq::empty(),
        can_read_instance_resource: Seq::empty(),
        can_write_instance_resource: Seq::empty(),
        can_access_instance_macro: Seq::empty(),
        can_read_instance_file: Seq::empty(),
        can_write_instance_file: Seq::empty(),
        can_create_instance: false,
        can_delete_instance: false,
        can_read_global_file: false,
        can_write_global_file: false,
        can_manage_permission: false,
    }
}

/// Whether a list of instance identifiers holds the given one.
pub fn contains_instance(ids: &Vec<String>, id: &InstanceUuid) -> (b: bool)
    ensures
        b == ids.deep_view().contains(id@),
{
    let mut i: usize = 0;
    while i < ids.len()
        invariant
            i <= ids.len(),
            forall|j: int| 0 <= j < i ==> ids.deep_view()[j] != id@,
        decreases ids.len() - i,
    {
        if ids[i] == id.0 {
            assert(ids.deep_view()[i as int] == id@);
            return true;
        }
        i = i + 1;
    }
    assert(!ids.deep_view().contains(id@)) by {
        if ids.deep_view().contains(id@) {
            let k = choose|k: int| 0 <= k < ids.deep_view().len() && ids.deep_view()[k] == id@;
            assert(ids.deep_view()[k] != id@);
        }
    }
    false
}

/// A list of instance identifiers with one more, unless it is there already.
pub open spec fn spec_with_instance(ids: Seq<Seq<char>>, id: Seq<char>) -> Seq<Seq<char>> {
    if ids.contains(id) {
        ids
    } else {
        ids.push(id)
    }
}

/// Adding an instance to a list makes the list hold it, and changes nothing
/// of whether it holds another.
pub proof fn lemma_with_instance(ids: Seq<Seq<char>>, id: Seq<char>, other: Seq<char>)
    ensures
        spec_with_instance(ids, id).contains(id),
        other != id ==> (spec_with_instance(ids, id).contains(other) == ids.contains(other)),
{
    if !ids.contains(id) {
        assert(ids.push(id)[ids.len() as int] == id);
        if other != id {
            if ids.push(id).contains(other) {
                let k = choose|k: int| 0 <= k < ids.push(id).len() && ids.push(id)[k] == other;
                assert(ids[k] == other);
            }
            if ids.contains(other) {
                let k = choose|k: int| 0 <= k < ids.len() && ids[k] == other;
                assert(ids.push(id)[k] == other);
            }
        }
    }
}

/// Adding an instance to a list that holds each identifier once keeps it so.
pub proof fn lemma_with_instance_no_duplicates(ids: Seq<Seq<char>>, id: Seq<char>)
    requires
        ids.no_duplicates(),
    ensures
        spec_with_instance(ids, id).no_duplicates(),
{
    if !ids.contains(id) {
        let t = ids.push(id);
        assert forall|i: int, j: int| 0 <= i < t.len() && 0 <= j < t.len() && i != j implies t[i]
            != t[j] by {
            if i == ids.len() as int {
                assert(ids[j] == t[j]);
            } else if j == ids.len() as int {
                assert(ids[i] == t[i]);
            }
        }
    }
}

/// A permission set with the grants the creator of an instance is given on
/// it (see [`UserPermission::grant_instance_creator`]).
pub open spec fn spec_creator_grant(p: UserPermissionView, id: Seq<char>) -> UserPermissionView {
    UserPermissionView {
        can_start_instance: spec_with_instance(p.can_start_instance, id),
        can_stop_instance: spec_with_instance(p.can_stop_instance, id),
        can_view_instance: spec_with_instance(p.can_view_instance, id),
        can_read_instance_file: spec_with_instance(p.can_read_instance_file, id),
        can_write_instance_file: spec_with_instance(p.can_write_instance_file, id),
        ..p
    }
}

/// Adds an instance to a list of identifiers, unless it is there already.
fn add_instance(ids: &mut Vec<String>, id: &InstanceUuid)
    ensures
        final(ids).deep_view() == spec_with_instance(old(ids).deep_view(), id@),
{
    if !contains_instance(ids, id) {
        ids.push(id.0.clone());
        assert(ids.deep_view() =~= old(ids).deep_view().push(id@));
    }
}

impl UserPermission {
    /// A permission set that grants nothing.
    pub fn new() -> (p: UserPermission)
        ensures
            p@ == spec_no_permission(),
            spec_permission_wf(p@),
    {
        let p = UserPermission {
            can_view_instance: Vec::new(),
            can_start_instance: Vec::new(),
            can_stop_instance: Vec::new(),
            can_access_instance_console: Vec::new(),
            can_access_instance_setting: Vec::new(),
            can_read_instance_resource: Vec::new(),
            can_write_instance_resource: Vec::new(),
            can_access_instance_macro: Vec::new(),
            can_read_instance_file: Vec::new(),
            can_write_instance_file: Vec::new(),
            can_create_instance: false,
            can_delete_instance: false,
            can_read_global_file: false,
            can_write_global_file: false,
            can_manage_permission: false,
        };
        assert(p@.can_view_instance =~= Seq::<Seq<char>>::empty());
        assert(p@.can_start_instance =~= Seq::<Seq<char>>::empty());
        assert(p@.can_stop_instance =~= Seq::<Seq<char>>::empty());
        assert(p@.can_access_instance_console =~= Seq::<Seq<char>>::empty());
        assert(p@.can_access_instance_setting =~= Seq::<Seq<char>>::empty());
        assert(p@.can_read_instance_resource =~= Seq::<Seq<char>>::empty());
        assert(p@.can_write_instance_resource =~= Seq::<Seq<char>>::empty());
        assert(p@.can_access_instance_macro =~= Seq::<Seq<char>>::empty());
        assert(p@.can_read_instance_file =~= Seq::<Seq<char>>::empty());
        assert(p@.can_write_instance_file =~= Seq::<Seq<char>>::empty());
        p
    }

    /// The default permission set grants nothing.
    pub fn default() -> (p: UserPermission)
        ensures
            p@ == spec_no_permission(),
            spec_permission_wf(p@),
    {
        Self::new()
    }

    /// What the creator of an instance is given on it: starting, stopping
    /// and viewing it, and reading and writing its files. The other grants
    /// are kept.
    pub fn grant_instance_creator(&mut self, id: &InstanceUuid)
        ensures
            final(self)@ == spec_creator_grant(old(self)@, id@),
            spec_permission_wf(old(self)@) ==> spec_permission_wf(final(self)@),
    {
        proof {
            if spec_permission_wf(old(self)@) {
                lemma_with_instance_no_duplicates(old(self)@.can_start_instance, id@);
                lemma_with_instance_no_duplicates(old(self)@.can_stop_instance, id@);
                lemma_with_instance_no_duplicates(old(self)@.can_view_instance, id@);
                lemma_with_instance_no_duplicates(old(self)@.can_read_instance_file, id@);
                lemma_with_instance_no_duplicates(old(self)@.can_write_instance_file, id@);
            }
        }
        add_instance(&mut self.can_start_instance, id);
        add_instance(&mut self.can_stop_instance, id);
        add_instance(&mut self.can_view_instance, id);
        add_instance(&mut self.can_read_instance_file, id);
        add_instance(&mut self.can_write_instance_file, id);
    }

    /// Whether this set grants something that only the owner may grant.
    pub fn grants_unsafe(&self) -> (b: bool)
        ensures
            b == spec_grants_unsafe(self@),
    {
        !self.can_write_instance_resource.is_empty() || !self.can_access_instance_macro.is_empty()
            || self.can_write_global_file || self.can_manage_permission
            || !self.can_write_instance_file.is_empty()
    }
}

} // verus!
