use lodestone_core::auth::permission::UserPermission;
use lodestone_core::binaries::{needs_exec_bit, seven_zip_name, seven_zip_url};
use lodestone_core::auth::user::{User, UserAction};
use lodestone_core::events::{
    CausedBy, ClientEvent, Event, EventInner, EventLevel, EventQuery, State, UserEvent, UserEventInner,
};
use lodestone_core::auth::user_id::UserId;
use lodestone_core::types::Snowflake;
use lodestone_core::handlers::{
    can_user_view_event, check_core_name, check_password_change, claim_setup_key, console_buffer, console_stream_step, cpu_label, event_stream_sends, host_label, is_name_in_use,
    total_disk, require_self_or_manager, core_domain, file_type_of, require_action, require_owner, visible_events,
    FileType, StreamStep,
};
use lodestone_core::instance::{jvm_args, InstanceConfig};
use lodestone_core::jar::fabric::{fabric_jar, fabric_versions, InstallerVersion, LoaderInstance, LoaderVersion, ServerVersion as FabricVersion};
use lodestone_core::jar::paper::{paper_jar, paper_versions, ProjectInfo, VersionInfo};
use lodestone_core::jar::vanilla::{find_version, vanilla_versions, LatestVersion, ServerVersion, VersionManifest};
use lodestone_core::traits::ErrorInner;
use lodestone_core::types::InstanceUuid;

#[test]
fn a_setup_key_serves_once() {
    let mut held = Some("key".to_string());
    assert_eq!(claim_setup_key(&mut held, "wrong").unwrap_err().detail, "Invalid setup key.");
    assert_eq!(held, Some("key".to_string()));
    assert!(claim_setup_key(&mut held, "key").is_ok());
    assert!(held.is_none());
    let e = claim_setup_key(&mut held, "key").unwrap_err();
    assert_eq!(e.inner, ErrorInner::PermissionDenied);
    assert_eq!(e.detail, "Setup key already used.");
}

#[test]
fn managing_users_needs_the_right() {
    let member = User::new("m".to_string(), "p", false, false, UserPermission::default());
    let e = require_action(&member, &UserAction::ManageUser, "You are not authorized to create users").unwrap_err();
    assert_eq!(e.detail, "You are not authorized to create users");
    let owner = User::new("o".to_string(), "p", true, false, UserPermission::default());
    assert!(require_action(&owner, &UserAction::ManageUser, "x").is_ok());
}

fn output(instance: &str, text: &str) -> ClientEvent {
    let e = Event::new_instance_output(InstanceUuid(instance.to_string()), "srv".to_string(), text.to_string());
    ClientEvent { event_inner: e.event_inner, details: e.details, snowflake: e.snowflake, caused_by: e.caused_by, level: EventLevel::Info }
}

#[test]
fn users_see_the_events_of_their_instances() {
    let mut p = UserPermission::default();
    p.can_view_instance.push("i1".to_string());
    let viewer = User::new("v".to_string(), "p", false, false, p);
    let q = EventQuery {
        event_levels: None,
        event_types: None,
        instance_event_types: None,
        user_event_types: None,
        event_user_ids: None,
        event_instance_ids: None,
        bearer_token: None,
        time_range: None,
    };
    let shown = visible_events(vec![output("i1", "a"), output("i2", "b"), output("i1", "c")], &q, &viewer);
    assert_eq!(shown.len(), 2);
}

#[test]
fn entry_kinds() {
    assert_eq!(file_type_of(true, false), FileType::Directory);
    assert_eq!(file_type_of(false, true), FileType::File);
    assert_eq!(file_type_of(false, false), FileType::Unknown);
}

#[test]
fn first_configuration_arguments() {
    let c = InstanceConfig {
        name: "a".to_string(),
        version: "1.19".to_string(),
        flavour: "vanilla".to_string(),
        url: None,
        port: None,
        uuid: None,
        min_ram: Some(512),
        max_ram: None,
    };
    assert_eq!(jvm_args(&c), vec!["-jar", "server.jar", "nogui", "-Xms512M"]);
}

fn version(id: &str, kind: &str) -> ServerVersion {
    ServerVersion { id: id.to_string(), kind: kind.to_string(), url: format!("u/{id}"), time: String::new(), release_time: String::new() }
}

#[test]
fn vanilla_lists() {
    let m = VersionManifest {
        versions: vec![version("1.19", "release"), version("22w1", "snapshot"), version("1.18", "release")],
        latest: LatestVersion { release: "1.19".to_string(), snapshot: "22w1".to_string() },
    };
    assert_eq!(vanilla_versions(&m, Some("release".to_string()), None), vec!["1.19", "1.18"]);
    assert_eq!(vanilla_versions(&m, None, None), vec!["1.19", "22w1", "1.18"]);
    assert_eq!(vanilla_versions(&m, None, Some(true)), vec!["1.19", "22w1"]);
    assert_eq!(vanilla_versions(&m, Some("snapshot".to_string()), Some(true)), vec!["22w1"]);
    assert_eq!(find_version(&m, "1.18").unwrap().url, "u/1.18");
    assert!(find_version(&m, "1.0").is_none());
}

#[test]
fn fabric_lists() {
    let v = vec![
        FabricVersion { version: "1.19".to_string(), stable: true },
        FabricVersion { version: "22w1".to_string(), stable: false },
    ];
    assert_eq!(fabric_versions(&v, Some(true)), vec!["1.19"]);
    assert_eq!(fabric_versions(&v, None), vec!["1.19", "22w1"]);
    let loaders = vec![LoaderVersion { loader: LoaderInstance { version: "0.14.8".to_string() } }];
    let installers = vec![InstallerVersion { url: String::new(), maven: String::new(), version: "0.11.0".to_string(), stable: true }];
    let (l, i, url) = fabric_jar("1.19", &loaders, &installers);
    assert_eq!((l.as_str(), i.as_str()), ("0.14.8", "0.11.0"));
    assert_eq!(url, "https://meta.fabricmc.net/v2/versions/loader/1.19/0.14.8/0.11.0/server/jar");
}

#[test]
fn paper_lists() {
    let p = ProjectInfo { versions: vec!["1.8".to_string(), "1.9".to_string()] };
    assert_eq!(paper_versions(&p), vec!["1.9", "1.8"]);
    assert_eq!(
        paper_jar("1.17.1", &VersionInfo { builds: vec![100, 409, 250] }),
        Some("https://papermc.io/api/v2/projects/paper/versions/1.17.1/builds/409/downloads/paper-1.17.1-409.jar".to_string())
    );
    assert_eq!(paper_jar("1.0", &VersionInfo { builds: vec![] }), None);
}

#[test]
fn only_the_owner_renames_the_core_and_within_32_bytes() {
    let owner = User::new("o".to_string(), "p", true, false, UserPermission::default());
    let admin = User::new("a".to_string(), "p", false, true, UserPermission::default());
    assert!(check_core_name(&owner, "my core").is_ok());
    let e = check_core_name(&admin, "my core").unwrap_err();
    assert_eq!(e.inner, ErrorInner::PermissionDenied);
    assert_eq!(e.detail, "Not authorized to change core name");
    assert_eq!(check_core_name(&owner, "").unwrap_err().detail, "Name too short");
    assert!(check_core_name(&owner, &"x".repeat(32)).is_ok());
    assert_eq!(check_core_name(&owner, &"x".repeat(33)).unwrap_err().detail, "Name too long");
    // eleven characters of three bytes each are 33 bytes
    let wide = "\u{4e2d}".repeat(11);
    assert_eq!(wide.len(), 33);
    assert_eq!(check_core_name(&owner, &wide).unwrap_err().inner, ErrorInner::MalformedRequest);
    assert!(check_core_name(&owner, &"\u{4e2d}".repeat(10)).is_ok());
    assert!(require_owner(&owner, "no").is_ok());
    assert_eq!(require_owner(&admin, "no").unwrap_err().detail, "no");
}

#[test]
fn an_empty_domain_clears_it() {
    let owner = User::new("o".to_string(), "p", true, false, UserPermission::default());
    let user = User::new("u".to_string(), "p", false, false, UserPermission::default());
    assert_eq!(core_domain(&owner, "".to_string()).unwrap(), None);
    assert_eq!(core_domain(&owner, "example.org".to_string()).unwrap(), Some("example.org".to_string()));
    assert_eq!(core_domain(&owner, "d".repeat(33)).unwrap_err().detail, "Domain too long");
    assert_eq!(
        core_domain(&user, "example.org".to_string()).unwrap_err().detail,
        "Not authorized to change core domain"
    );
}

#[test]
fn requests_about_other_users() {
    let owner = User::new("o".to_string(), "p", true, false, UserPermission::default());
    let member = User::new("m".to_string(), "p", false, false, UserPermission::default());
    let msg = "You are not authorized to log out this user";
    assert!(require_self_or_manager(&member, &member.uid, msg).is_ok());
    assert!(require_self_or_manager(&owner, &member.uid, msg).is_ok());
    let e = require_self_or_manager(&member, &owner.uid, msg).unwrap_err();
    assert_eq!(e.inner, ErrorInner::PermissionDenied);
    assert_eq!(e.detail, msg);
    assert!(check_password_change(&member, &member.uid).is_ok());
    assert!(check_password_change(&owner, &owner.uid).is_ok());
    assert_eq!(
        check_password_change(&owner, &member.uid).unwrap_err().detail,
        "You are not authorized to change this user's password"
    );
    assert!(check_password_change(&member, &owner.uid).is_ok());
}

#[test]
fn the_7zip_build_of_the_platform() {
    assert_eq!(seven_zip_name("linux", "x86_64"), "7z_linux_x64");
    assert_eq!(seven_zip_name("macos", "aarch64"), "7z_macos_aarch64");
    assert_eq!(
        seven_zip_url("windows", "x86_64"),
        "https://github.com/Lodestone-Team/dependencies/raw/main/7z_windows_x64"
    );
    assert!(needs_exec_bit("linux"));
    assert!(!needs_exec_bit("windows"));
}

#[test]
fn what_the_core_tells_about_its_machine() {
    assert_eq!(cpu_label(Some("AMD Ryzen 7")), "AMD Ryzen 7");
    assert_eq!(cpu_label(Some("")), "Unknown CPU");
    assert_eq!(cpu_label(None), "Unknown CPU");
    assert_eq!(host_label(Some("box".to_string())), "box");
    assert_eq!(host_label(None), "Unknown Hostname");
    assert_eq!(total_disk(&vec![100, 250, 0]), 350);
    assert_eq!(total_disk(&vec![]), 0);
}

#[test]
fn instance_names_in_use() {
    let names = vec!["survival".to_string(), "creative".to_string()];
    assert!(is_name_in_use(&names, "creative"));
    assert!(!is_name_in_use(&names, "Creative"));
    assert!(!is_name_in_use(&vec![], "x"));
}

fn user_event(uid: &str, inner: UserEventInner) -> Event {
    Event {
        event_inner: EventInner::UserEvent(UserEvent { user_id: UserId(uid.to_string()), user_event_inner: inner }),
        details: String::new(),
        snowflake: Snowflake(0),
        caused_by: CausedBy::System,
    }
}

#[test]
fn console_buffers_and_streams() {
    let owner = User::new("o".to_string(), "p", true, false, UserPermission::default());
    let member = User::new("m".to_string(), "p", false, false, UserPermission::default());
    let a = InstanceUuid("a".to_string());
    let b = InstanceUuid("b".to_string());
    let events = vec![
        Event::new_instance_output(a.clone(), "srv".to_string(), "one".to_string()),
        Event::new_instance_output(b.clone(), "srv".to_string(), "two".to_string()),
        user_event("USER_x", UserEventInner::UserCreated),
        Event::new_instance_state_transition(a.clone(), "srv".to_string(), State::Running),
    ];
    assert_eq!(console_buffer(events.clone(), "a", &owner).len(), 2);
    assert_eq!(console_buffer(events.clone(), "all", &owner).len(), 3);
    assert_eq!(console_buffer(events.clone(), "a", &member).len(), 0);
    let out = &events[0];
    assert_eq!(console_stream_step(out, "a", &owner.uid, Some(&owner)), StreamStep::Send);
    assert_eq!(console_stream_step(out, "b", &owner.uid, Some(&owner)), StreamStep::Skip);
    assert_eq!(console_stream_step(out, "a", &member.uid, Some(&member)), StreamStep::Skip);
    assert_eq!(console_stream_step(out, "a", &owner.uid, None), StreamStep::Stop);
    assert_eq!(console_stream_step(&events[3], "a", &owner.uid, Some(&owner)), StreamStep::Skip);
    let gone = user_event(owner.uid.as_str(), UserEventInner::UserLoggedOut);
    assert_eq!(console_stream_step(&gone, "a", &owner.uid, Some(&owner)), StreamStep::Stop);
    assert_eq!(console_stream_step(&gone, "a", &member.uid, Some(&member)), StreamStep::Skip);
}

#[test]
fn event_streams_leave_console_lines_out() {
    let owner = User::new("o".to_string(), "p", true, false, UserPermission::default());
    let q = EventQuery {
        event_levels: None,
        event_types: None,
        instance_event_types: None,
        user_event_types: None,
        event_user_ids: None,
        event_instance_ids: None,
        bearer_token: None,
        time_range: None,
    };
    assert!(!event_stream_sends(&output("i1", "a"), &q, &owner));
    let st = ClientEvent {
        event_inner: Event::new_instance_state_transition(InstanceUuid("i1".to_string()), "s".to_string(), State::Running)
            .event_inner,
        details: String::new(),
        snowflake: Snowflake(0),
        caused_by: CausedBy::System,
        level: EventLevel::Info,
    };
    assert!(event_stream_sends(&st, &q, &owner));
    let member = User::new("m".to_string(), "p", false, false, UserPermission::default());
    assert!(!event_stream_sends(&st, &q, &member));
}

#[test]
fn who_sees_an_event() {
    let owner = User::new("o".to_string(), "p", true, false, UserPermission::default());
    let member = User::new("m".to_string(), "p", false, false, UserPermission::default());
    let e = Event::new_instance_output(InstanceUuid("a".to_string()), "srv".to_string(), "x".to_string());
    assert!(can_user_view_event(&e, &owner));
    assert!(!can_user_view_event(&e, &member));
    let u = user_event("USER_x", UserEventInner::UserCreated);
    assert!(!can_user_view_event(&u, &member));
}
