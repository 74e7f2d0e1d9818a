use lodestone_core::auth::file_access::{
    check_instance_file_access, check_protected, check_upload_name, first_protected, free_postfixed_name, name_stem,
    is_extension_protected, is_file_protected, name_extension, parse_bearer_token, postfixed_name,
    upload_name,
};
use lodestone_core::auth::permission::UserPermission;
use lodestone_core::auth::user::{User, UserAction, UserSecret};
use lodestone_core::auth::user_id::UserId;
use lodestone_core::auth::users_manager::UsersManager;
use lodestone_core::events::{CausedBy, EventInner, UserEventInner};
use lodestone_core::traits::{Error, ErrorInner};
use lodestone_core::types::InstanceUuid;

fn writes_ok(_: &UsersManager) -> Result<(), Error> {
    Ok(())
}

fn writes_fail(_: &UsersManager) -> Result<(), Error> {
    Err(Error { inner: ErrorInner::IOError, detail: "disk full".to_string() })
}

fn member(name: &str) -> User {
    User::new(name.to_string(), "12345", false, false, UserPermission::default())
}

#[test]
fn test_login() {
    let mut users_manager = UsersManager::new(Vec::new());
    let test_user1 = User::new("test_user1".to_string(), "12345", true, false, UserPermission::default());
    users_manager.add_user(test_user1.clone(), CausedBy::System, &writes_ok).unwrap();
    users_manager.login("test_user1", "12345").unwrap();
}

#[test]
fn a_wrong_password_is_refused() {
    let mut m = UsersManager::new(Vec::new());
    m.add_user(member("alice"), CausedBy::System, &writes_ok).unwrap();
    assert_eq!(m.login("alice", "nope").unwrap_err().inner, ErrorInner::Unauthorized);
    assert_eq!(m.login("bob", "12345").unwrap_err().inner, ErrorInner::Unauthorized);
    assert!(m.try_login("alice", "12345").unwrap().is_ok());
}

#[test]
fn adding_a_user_gives_the_created_event() {
    let mut m = UsersManager::new(Vec::new());
    let u = member("alice");
    let uid = u.uid.clone();
    let e = m.add_user(u, CausedBy::System, &writes_ok).unwrap();
    match e.event_inner {
        EventInner::UserEvent(ue) => {
            assert_eq!(ue.user_id, uid);
            assert_eq!(ue.user_event_inner, UserEventInner::UserCreated);
        }
        _ => panic!("a user event"),
    }
    assert_eq!(m.get_user(&uid).unwrap().username, "alice");
}

#[test]
fn usernames_are_unique() {
    let mut m = UsersManager::new(Vec::new());
    m.add_user(member("alice"), CausedBy::System, &writes_ok).unwrap();
    let e = m.add_user(member("alice"), CausedBy::System, &writes_ok).unwrap_err();
    assert_eq!(e.inner, ErrorInner::UsernameAlreadyExists);
    assert_eq!(m.users().len(), 1);
}

#[test]
fn a_failed_write_undoes_the_change() {
    let mut m = UsersManager::new(Vec::new());
    let u = member("alice");
    let uid = u.uid.clone();
    let e = m.add_user(u, CausedBy::System, &writes_fail).unwrap_err();
    assert_eq!(e.inner, ErrorInner::IOError);
    assert!(m.get_user(&uid).is_none());

    let u = member("bob");
    let uid = u.uid.clone();
    m.add_user(u, CausedBy::System, &writes_ok).unwrap();
    let mut p = UserPermission::default();
    p.can_view_instance.push("i1".to_string());
    let e = m.update_permissions(&uid, p, CausedBy::System, &writes_fail).unwrap_err();
    assert_eq!(e.inner, ErrorInner::InternalError);
    assert!(m.get_user(&uid).unwrap().permissions.can_view_instance.is_empty());
    assert!(m.delete_user(&uid, CausedBy::System, &writes_fail).is_err());
    assert!(m.get_user(&uid).is_some());
}

#[test]
fn unknown_users_are_not_found() {
    let mut m = UsersManager::new(Vec::new());
    let ghost = UserId("USER_ghost".to_string());
    assert_eq!(m.logout_user(&ghost, CausedBy::System, &writes_ok).unwrap_err().inner, ErrorInner::UserNotFound);
    assert_eq!(
        m.update_permissions(&ghost, UserPermission::default(), CausedBy::System, &writes_ok).unwrap_err().inner,
        ErrorInner::UserNotFound
    );
    let (events, r) = m.change_password(&ghost, "x", CausedBy::System, &writes_ok);
    assert!(events.is_empty());
    assert_eq!(r.unwrap_err().inner, ErrorInner::UserNotFound);
    let (deleted, event) = m.delete_user(&ghost, CausedBy::System, &writes_ok).unwrap();
    assert!(deleted.is_none() && event.is_none());
}

#[test]
fn logging_out_changes_the_secret() {
    let mut m = UsersManager::new(Vec::new());
    let u = member("alice");
    let uid = u.uid.clone();
    let old_secret = u.secret.clone();
    m.add_user(u, CausedBy::System, &writes_ok).unwrap();
    m.logout_user(&uid, CausedBy::System, &writes_ok).unwrap();
    assert_ne!(m.get_user(&uid).unwrap().secret, old_secret);
}

#[test]
fn changing_the_password_logs_out() {
    let mut m = UsersManager::new(Vec::new());
    let u = member("alice");
    let uid = u.uid.clone();
    m.add_user(u, CausedBy::System, &writes_ok).unwrap();
    let (events, r) = m.change_password(&uid, "new password", CausedBy::System, &writes_ok);
    r.unwrap();
    assert_eq!(events.len(), 2);
    assert!(m.login("alice", "new password").is_ok());
    assert!(m.login("alice", "12345").is_err());
}

#[test]
fn deleting_a_user_gives_it_back() {
    let mut m = UsersManager::new(Vec::new());
    let u = member("alice");
    let uid = u.uid.clone();
    m.add_user(u, CausedBy::System, &writes_ok).unwrap();
    let (deleted, event) = m.delete_user(&uid, CausedBy::System, &writes_ok).unwrap();
    assert_eq!(deleted.unwrap().username, "alice");
    assert!(event.is_some());
    assert!(m.get_user_by_username("alice").is_none());
}

#[test]
fn tokens_speak_for_their_user_only_when_checked() {
    let mut m = UsersManager::new(Vec::new());
    let u = member("alice");
    let uid = u.uid.clone();
    m.add_user(u, CausedBy::System, &writes_ok).unwrap();
    assert!(m.authorize(&uid, Some(uid.clone())).is_some());
    assert!(m.authorize(&uid, None).is_none());
    assert!(m.authorize(&uid, Some(UserId("USER_other".to_string()))).is_none());
}

#[test]
fn the_owner_may_do_anything_and_others_what_they_are_granted() {
    let owner = User::new("o".to_string(), "p", true, false, UserPermission::default());
    let i = InstanceUuid("i1".to_string());
    assert!(owner.can_perform_action(&UserAction::ManageUser));
    assert!(owner.can_perform_action(&UserAction::WriteInstanceFile(i.clone())));
    let admin = User::new("a".to_string(), "p", false, true, UserPermission::default());
    assert!(admin.can_perform_action(&UserAction::ViewInstance(i.clone())));
    assert!(!admin.can_perform_action(&UserAction::ManageUser));
    assert!(!admin.can_perform_action(&UserAction::WriteInstanceFile(i.clone())));
    let mut p = UserPermission::default();
    p.can_start_instance.push("i1".to_string());
    let user = User::new("u".to_string(), "p", false, false, p);
    assert!(user.can_perform_action(&UserAction::StartInstance(i.clone())));
    assert!(!user.can_perform_action(&UserAction::StopInstance(i)));
}

#[test]
fn only_higher_ranks_change_permissions() {
    let admin = User::new("a".to_string(), "p", false, true, UserPermission::default());
    let mut other = member("m");
    assert!(admin.update_permission(&mut other, UserPermission::default()).is_ok());
    let mut unsafe_grant = UserPermission::default();
    unsafe_grant.can_write_global_file = true;
    assert_eq!(admin.update_permission(&mut other, unsafe_grant).unwrap_err().inner, ErrorInner::PermissionDenied);
    let mut peer = User::new("b".to_string(), "p", false, true, UserPermission::default());
    assert!(admin.update_permission(&mut peer, UserPermission::default()).is_err());
}

#[test]
fn protected_extensions() {
    assert!(is_extension_protected(Some("jar")));
    assert!(is_extension_protected(Some("lodestone_config")));
    assert!(is_extension_protected(None));
    assert!(!is_extension_protected(Some("txt")));
    assert_eq!(name_extension("world.zip"), Some("zip".to_string()));
    assert_eq!(name_extension(".bashrc"), None);
    assert_eq!(name_extension("a.b.c"), Some("c".to_string()));
    assert_eq!(name_extension("noext"), None);
}

#[test]
fn protected_files_need_global_write() {
    let member = member("m");
    let e = check_protected(&member, Some("jar")).unwrap_err();
    assert_eq!(e.inner, ErrorInner::PermissionDenied);
    assert_eq!(e.detail, "File extension jar is protected");
    assert_eq!(check_protected(&member, None).unwrap_err().detail, "File extension none is protected");
    assert!(check_protected(&member, Some("txt")).is_ok());
    let owner = User::new("o".to_string(), "p", true, false, UserPermission::default());
    assert!(check_protected(&owner, Some("jar")).is_ok());
    assert_eq!(first_protected(&member, &vec![Some("txt".to_string()), Some("sh".to_string())]), Some(1));
    assert_eq!(first_protected(&owner, &vec![Some("sh".to_string())]), None);
}

#[test]
fn instance_files_need_their_right() {
    let mut p = UserPermission::default();
    p.can_read_instance_file.push("i1".to_string());
    let reader = User::new("r".to_string(), "p", false, false, p);
    let i = InstanceUuid("i1".to_string());
    assert!(check_instance_file_access(&reader, &i, false).is_ok());
    assert_eq!(check_instance_file_access(&reader, &i, true).unwrap_err().inner, ErrorInner::PermissionDenied);
}

#[test]
fn uploaded_names_are_made_safe() {
    let owner = User::new("o".to_string(), "p", true, false, UserPermission::default());
    let stored = check_upload_name(&owner, "../../etc/passwd.txt").unwrap();
    assert!(!stored.contains('/'));
    let member = member("m");
    assert!(check_upload_name(&member, "plugin.jar").is_err());
    assert_eq!(check_upload_name(&member, "notes.txt").unwrap(), "notes.txt");
    assert_eq!(check_upload_name(&owner, "a/b?c:d.txt").unwrap(), "abcd.txt");
    let e = check_upload_name(&member, "in|valid.jar").unwrap_err();
    assert_eq!(e.detail, "File extension jar is protected");
    assert_eq!(postfixed_name("world", 2, "zip"), "world_2.zip");
}

#[test]
fn bearer_tokens() {
    assert_eq!(parse_bearer_token("Bearer abc.def"), Some("abc.def".to_string()));
    assert_eq!(parse_bearer_token("  Bearer\tabc  "), Some("abc".to_string()));
    assert_eq!(parse_bearer_token("Basic abc"), None);
    assert_eq!(parse_bearer_token("Bearer"), None);
    assert_eq!(parse_bearer_token(""), None);
}

#[test]
fn the_creator_of_an_instance_may_use_it() {
    let mut p = UserPermission::default();
    p.can_view_instance.push("i1".to_string());
    p.grant_instance_creator(&InstanceUuid("i1".to_string()));
    assert_eq!(p.can_view_instance, vec!["i1".to_string()]);
    assert_eq!(p.can_start_instance, vec!["i1".to_string()]);
    assert_eq!(p.can_write_instance_file, vec!["i1".to_string()]);
    assert!(p.can_access_instance_macro.is_empty());
    let user = User::new("u".to_string(), "p", false, false, p);
    let i = InstanceUuid("i1".to_string());
    let other = InstanceUuid("i2".to_string());
    assert!(user.can_perform_action(&UserAction::StartInstance(i.clone())));
    assert!(user.can_perform_action(&UserAction::StopInstance(i.clone())));
    assert!(user.can_perform_action(&UserAction::ReadInstanceFile(i.clone())));
    assert!(user.can_perform_action(&UserAction::WriteInstanceFile(i.clone())));
    assert!(!user.can_perform_action(&UserAction::AccessMacro(i)));
    assert!(!user.can_perform_action(&UserAction::StartInstance(other)));
}

#[test]
fn test_user_id() {
    let user_id1 = UserId::default();
    // serializing: an identifier is written as its text
    let user_id_str = serde_json::to_string(user_id1.as_str()).unwrap();
    println!("{}", user_id_str);
    // deserializing
    let user_id2 = UserId::from(serde_json::from_str::<String>(&user_id_str).unwrap());
    assert_eq!(user_id1, user_id2);
    assert!(user_id1.as_str().starts_with("USER_"));
}

#[test]
fn a_taken_upload_name_gets_the_first_free_number() {
    let none: Vec<String> = vec![];
    assert_eq!(free_postfixed_name("world", "zip", &none), "world_1.zip");
    let taken = vec!["world.zip".to_string(), "world_1.zip".to_string(), "world_3.zip".to_string()];
    assert_eq!(free_postfixed_name("world", "zip", &taken), "world_2.zip");
    let taken = vec!["a_1.txt".to_string(), "a_2.txt".to_string()];
    assert_eq!(free_postfixed_name("a", "txt", &taken), "a_3.txt");
    assert_eq!(name_stem("world.tar.gz"), "world.tar");
    assert_eq!(name_stem(".bashrc"), ".bashrc");
    assert_eq!(name_stem("notes"), "notes");
    assert_eq!(name_stem("a."), "a");
}

#[test]
fn protected_files_by_path() {
    assert!(is_file_protected("server.jar"));
    assert!(!is_file_protected("notes.txt"));
    assert!(is_file_protected("README"));
    assert!(is_file_protected(".bashrc"));
    assert!(!is_file_protected("world/level.dat"));
    assert!(is_file_protected("plugins/run.sh"));
}

#[test]
fn secrets_are_version_4_uuid_texts() {
    let s = UserSecret::default().0;
    assert_eq!(s.len(), 36);
    for (i, c) in s.chars().enumerate() {
        if i == 8 || i == 13 || i == 18 || i == 23 {
            assert_eq!(c, '-');
        } else {
            assert!(c.is_ascii_digit() || ('a'..='f').contains(&c));
        }
    }
    assert_eq!(s.chars().nth(14), Some('4'));
    assert_ne!(UserSecret::default().0, s);
}

#[test]
fn the_write_step_sees_the_changed_users() {
    let mut m = UsersManager::new(Vec::new());
    let needs_alice = |m: &UsersManager| -> Result<(), Error> {
        if m.get_user_by_username("alice").is_some() {
            Ok(())
        } else {
            Err(Error { inner: ErrorInner::IOError, detail: "no alice".to_string() })
        }
    };
    m.add_user(member("alice"), CausedBy::System, &needs_alice).unwrap();
    let uid = m.get_user_by_username("alice").unwrap().uid;
    let old_secret = m.get_user(&uid).unwrap().secret;
    let sees_new_secret = |m: &UsersManager| -> Result<(), Error> {
        if m.get_user(&uid).unwrap().secret != old_secret {
            Ok(())
        } else {
            Err(Error { inner: ErrorInner::IOError, detail: "same secret".to_string() })
        }
    };
    m.logout_user(&uid, CausedBy::System, &sees_new_secret).unwrap();
    let sees_checkable_hash = |m: &UsersManager| -> Result<(), Error> {
        let u = m.get_user(&uid).unwrap();
        let probe = UsersManager::new(vec![u]);
        if probe.login("alice", "new password").is_ok() {
            Ok(())
        } else {
            Err(Error { inner: ErrorInner::IOError, detail: "old hash".to_string() })
        }
    };
    let (events, r) = m.change_password(&uid, "new password", CausedBy::System, &sees_checkable_hash);
    assert_eq!(events.len(), 2);
    assert!(r.is_ok());
    assert!(m.login("alice", "new password").is_ok());
}

#[test]
fn uploads_take_their_own_name_or_the_first_free_numbered_one() {
    let taken = vec!["world.zip".to_string(), "world_1.zip".to_string(), "notes.txt".to_string()];
    assert_eq!(upload_name("plugin.jar", &taken), "plugin.jar");
    assert_eq!(upload_name("world.zip", &taken), "world_2.zip");
    assert_eq!(upload_name("notes.txt", &taken), "notes_1.txt");
    assert_eq!(upload_name("a.tar.gz", &vec!["a.tar.gz".to_string()]), "a.tar_1.gz");
}

#[test]
fn a_token_speaks_for_its_user_until_logout() {
    let mut m = UsersManager::new(Vec::new());
    m.add_user(member("alice"), CausedBy::System, &writes_ok).unwrap();
    m.add_user(member("bob"), CausedBy::System, &writes_ok).unwrap();
    let alice = m.get_user_by_username("alice").unwrap();
    let token = alice.create_jwt().unwrap();
    assert_eq!(token.split('.').count(), 3);
    let u = m.try_auth(&token).unwrap();
    assert_eq!(u.uid, alice.uid);
    assert_eq!(u.username, "alice");
    assert!(m.try_auth("not a token").is_none());
    assert!(m.try_auth("").is_none());
    m.logout_user(&alice.uid, CausedBy::System, &writes_ok).unwrap();
    assert!(m.try_auth(&token).is_none());
}

#[test]
fn a_token_signed_with_another_secret_speaks_for_nobody() {
    let mut m = UsersManager::new(Vec::new());
    m.add_user(member("alice"), CausedBy::System, &writes_ok).unwrap();
    let alice = m.get_user_by_username("alice").unwrap();
    let mut forged = alice.clone();
    forged.secret = UserSecret("guessed".to_string());
    let token = forged.create_jwt().unwrap();
    assert!(m.try_auth(&token).is_none());
    let stranger = member("carol");
    assert!(m.try_auth(&stranger.create_jwt().unwrap()).is_none());
}
