use lodestone_core::error::ErrorKind;
use lodestone_core::global_settings::{GlobalSettings, GlobalSettingsData};
use lodestone_core::minecraft::fabric::{
    compare_versions, fabric_jar_url, fabric_url_from, jre_url, latest_by_version, VersionCandidate,
    VersionOrder,
};
use lodestone_core::manifest::{ConfigurableValue, SetupValue};
use lodestone_core::minecraft::macros::{
    macro_list, name_lt, resolve_macro_invocation, MacroDirEntry, MacroEntry, MacroFile, MacroProbe,
};
use lodestone_core::minecraft::tasks::{history_list, task_list, HistoryEntry, TaskEntry};
use lodestone_core::events::{ExitStatus, State};
use lodestone_core::types::MacroPID;
use lodestone_core::minecraft::player::MinecraftPlayer;
use lodestone_core::minecraft::players_manager::PlayersManager;
use lodestone_core::minecraft::setup::{
    check_kill, cmd_arg_settings, command_is_stop, command_line, construct_setup_config, jar_not_found, start_outcome, version_change, VersionChange, initial_properties, java_path, minecraft_setup_manifest, sync_cmd_args, restore_config_from_setup, server_jar_name, start_args, Flavour,
    FlavourKind, ForgeBuildVersion, JavaPath, RestoreConfig, RestoreConfigV042, SetupConfig,
    StartArg,
};
use lodestone_core::minecraft::versions::{classify_vanilla_versions, group_minecraft_versions};
use lodestone_core::events::{EventInner, InstanceEventInner};
use lodestone_core::player::Player;
use lodestone_core::types::InstanceUuid;

fn player(name: &str, uuid: &str) -> MinecraftPlayer {
    MinecraftPlayer { name: name.to_string(), uuid: uuid.to_string() }
}

fn change(e: &lodestone_core::events::Event) -> (Vec<String>, Vec<String>, Vec<String>) {
    let names = |v: &Vec<Player>| v.iter().map(|p| p.get_name()).collect::<Vec<String>>();
    match &e.event_inner {
        EventInner::InstanceEvent(ie) => {
            assert_eq!(ie.instance_uuid.0, "mock");
            assert_eq!(ie.instance_name, "mock_instance");
            match &ie.instance_event_inner {
                InstanceEventInner::PlayerChange { player_list, players_joined, players_left } => {
                    (names(player_list), names(players_joined), names(players_left))
                }
                _ => panic!("a player change"),
            }
        }
        _ => panic!("Unexpected event"),
    }
}

#[test]
fn test_players_manager() {
    let mut m = PlayersManager::new(InstanceUuid("mock".to_string()));
    let n = || "mock_instance".to_string();
    let e1 = m.add_player(player("player1", "uuid1"), n());
    let e2 = m.add_player(player("player2", "uuid2"), n());
    let e3 = m.add_player(player("player3", "uuid3"), n());
    let e4 = m.remove_by_name("player2", n()).unwrap();
    let e5 = m.remove_by_name("player3", n()).unwrap();
    let e6 = m.clear(n());
    let s = |v: &[&str]| v.iter().map(|x| x.to_string()).collect::<Vec<String>>();
    assert_eq!(change(&e1), (s(&["player1"]), s(&["player1"]), s(&[])));
    assert_eq!(change(&e2), (s(&["player1", "player2"]), s(&["player2"]), s(&[])));
    assert_eq!(change(&e3), (s(&["player1", "player2", "player3"]), s(&["player3"]), s(&[])));
    assert_eq!(change(&e4), (s(&["player1", "player3"]), s(&[]), s(&["player2"])));
    assert_eq!(change(&e5), (s(&["player1"]), s(&[]), s(&["player3"])));
    assert_eq!(change(&e6), (s(&[]), s(&[]), s(&["player1"])));
    assert_eq!(m.count(), 0);
}

#[test]
fn players_are_kept_by_uuid() {
    let mut m = PlayersManager::new(InstanceUuid("mock".to_string()));
    m.add_player(player("old name", "u1"), "x".to_string());
    m.add_player(player("new name", "u1"), "x".to_string());
    assert_eq!(m.count(), 1);
    assert_eq!(m.players()[0].get_name(), "old name");
    assert!(m.remove_player(player("anyone", "u2"), "x".to_string()).is_none());
    assert!(m.remove_by_name("nobody", "x".to_string()).is_none());
    assert!(m.remove_player(player("whatever", "u1"), "x".to_string()).is_some());
    assert_eq!(m.count(), 0);
}

#[test]
fn versions_compare_part_by_part() {
    assert_eq!(compare_versions("0.14.10", "0.14.9"), VersionOrder::Greater);
    assert_eq!(compare_versions("1.2", "1.10"), VersionOrder::Less);
    assert_eq!(compare_versions("1.2", "1.2.5"), VersionOrder::Equal);
}

fn cand(v: &str) -> VersionCandidate {
    VersionCandidate { key: Some(v.to_string()), value: v.to_string() }
}

#[test]
fn the_greatest_stable_version_is_taken() {
    let c = vec![cand("0.14.8"), cand("0.14.21"), cand("0.13.3")];
    assert_eq!(latest_by_version(&c), Some("0.14.21".to_string()));
    assert_eq!(latest_by_version(&vec![]), None);
    let tie = vec![
        VersionCandidate { key: Some("1.0".to_string()), value: "first".to_string() },
        VersionCandidate { key: Some("1.0.0".to_string()), value: "second".to_string() },
    ];
    assert_eq!(latest_by_version(&tie), Some("second".to_string()));
}

#[test]
fn test_get_fabric_url() {
    assert_eq!(
        fabric_jar_url("1.19", "0.14.8", "0.11.0"),
        "https://meta.fabricmc.net/v2/versions/loader/1.19/0.14.8/0.11.0/server/jar"
    );
    assert_eq!(
        fabric_url_from("1.19", Some("0.14.8"), Some("0.11.0"), None, None),
        Some("https://meta.fabricmc.net/v2/versions/loader/1.19/0.14.8/0.11.0/server/jar".to_string())
    );
    assert_eq!(
        fabric_url_from("21w44a", None, None, Some(vec![cand("0.14.8")]), Some(vec![cand("0.11.0")])),
        Some("https://meta.fabricmc.net/v2/versions/loader/21w44a/0.14.8/0.11.0/server/jar".to_string())
    );
    assert_eq!(fabric_url_from("1.19", None, None, None, Some(vec![cand("0.11.0")])), None);
}

#[test]
fn test_get_jre_url() {
    assert_eq!(
        jre_url(17, "linux", "x86_64"),
        ("https://api.adoptium.net/v3/binary/latest/17/ga/linux/x64/jre/hotspot/normal/eclipse".to_string(), 17)
    );
    assert_eq!(
        jre_url(8, "macos", "aarch64").0,
        "https://api.adoptium.net/v3/binary/latest/8/ga/macos/aarch64/jre/hotspot/normal/eclipse"
    );
}

fn config(flavour: Flavour, version: &str) -> RestoreConfig {
    RestoreConfig {
        name: "srv".to_string(),
        version: version.to_string(),
        flavour,
        description: String::new(),
        cmd_args: vec!["".to_string(), "-Dfoo=1".to_string()],
        java_cmd: None,
        port: 25565,
        min_ram: 1024,
        max_ram: 2048,
        auto_start: false,
        restart_on_crash: false,
        backup_period: None,
        jre_major_version: 17,
        has_started: false,
    }
}

fn texts(args: &[StartArg]) -> Vec<String> {
    args.iter()
        .map(|a| match a {
            StartArg::Text(t) => t.clone(),
            StartArg::InstanceFile(f) => format!("<{}>", f),
            StartArg::ForgeArgsFile { build_version, file } => format!("@{}/{}", build_version, file),
        })
        .collect()
}

#[test]
fn start_command_of_a_vanilla_server() {
    let args = start_args(&config(Flavour::Vanilla, "1.19.2"), false, &vec![]).unwrap();
    assert_eq!(texts(&args), vec!["-Xmx2048M", "-Xms1024M", "-Dfoo=1", "-jar", "<server.jar>", "nogui"]);
    match java_path(&config(Flavour::Vanilla, "1.19.2"), false) {
        JavaPath::Runtime { jre_dir, macos } => {
            assert_eq!(jre_dir, "jre17");
            assert!(!macos);
        }
        _ => panic!("the downloaded runtime"),
    }
}

#[test]
fn start_command_of_forge_servers() {
    let forge = |b: Option<&str>| Flavour::Forge { build_version: b.map(|s| ForgeBuildVersion(s.to_string())) };
    let args = start_args(&config(forge(Some("1.19.2-43.1.1")), "1.19.2"), true, &vec![]).unwrap();
    assert_eq!(texts(&args)[3], "@1.19.2-43.1.1/win_args.txt");
    let files = vec!["server.jar".to_string(), "forge-1.12.2-14.23.jar".to_string()];
    let args = start_args(&config(forge(Some("x")), "1.12.2"), false, &files).unwrap();
    assert_eq!(texts(&args)[4], "<forge-1.12.2-14.23.jar>");
    let e = start_args(&config(forge(Some("x")), "1.12.2"), false, &vec![]).unwrap_err();
    assert_eq!(e.source, "Failed to find forge.jar");
    let e = start_args(&config(forge(None), "1.12.2"), false, &vec![]).unwrap_err();
    assert_eq!(e.kind, ErrorKind::Internal);
    assert_eq!(e.source, "Forge version not found");
    let e = start_args(&config(forge(Some("x")), "1.x"), false, &vec![]).unwrap_err();
    assert_eq!(e.source, "Unable to parse major Minecraft version for Forge");
    let old = vec!["minecraftforge-universal-1.6.4.jar".to_string()];
    let args = start_args(&config(forge(Some("x")), "1.6.4"), false, &old).unwrap();
    assert_eq!(texts(&args)[4], "<minecraftforge-universal-1.6.4.jar>");
}

#[test]
fn flavours_and_their_names() {
    assert_eq!(Flavour::from(FlavourKind::Fabric).to_string(), "fabric");
    assert_eq!(FlavourKind::Spigot.to_string(), "spigot");
    assert!(matches!(Flavour::from_v042_name("paper"), Some(Flavour::Paper { build_version: None })));
    assert!(Flavour::from_v042_name("forge").is_none());
}

#[test]
fn test_migrate_v042_to_v043() {
    let old = RestoreConfigV042 {
        game_type: "minecraft".to_string(),
        uuid: InstanceUuid("a1b2c3d4-e5f6-g7h8-i9j0-k1l2m3n4o5p6".to_string()),
        name: "test_instance".to_string(),
        version: "1.1.1".to_string(),
        flavour: Flavour::from_v042_name("fabric").unwrap(),
        description: "test instance".to_string(),
        cmd_args: vec![],
        path: "/home/user/.minecraft".to_string(),
        port: 25565,
        min_ram: 1024,
        max_ram: 1024,
        creation_time: 1,
        auto_start: false,
        restart_on_crash: false,
        backup_period: None,
        jre_major_version: 11,
        has_started: false,
    };
    let (new_dot_lodestone_config, new_dot_lodestone_minecraft_config) = old.split();
    assert_eq!(new_dot_lodestone_config.uuid.as_str(), "a1b2c3d4-e5f6-g7h8-i9j0-k1l2m3n4o5p6");
    assert_eq!(new_dot_lodestone_config.creation_time as u64, 1);
    assert_eq!(new_dot_lodestone_config.lodestone_version, "0.4.3");
    assert!(matches!(
        new_dot_lodestone_minecraft_config.flavour,
        Flavour::Fabric { loader_version: None, installer_version: None }
    ));
    assert_eq!(new_dot_lodestone_minecraft_config.name, "test_instance");
    assert_eq!(new_dot_lodestone_minecraft_config.port, 25565);
    assert!(new_dot_lodestone_minecraft_config.java_cmd.is_none());
}

#[test]
fn versions_are_grouped_by_kind() {
    let manifest = vec![
        ("1.19.2".to_string(), "release".to_string()),
        ("22w11a".to_string(), "snapshot".to_string()),
        ("a1.0.4".to_string(), "old_alpha".to_string()),
        ("b1.7".to_string(), "old_beta".to_string()),
        ("1.14_pre1".to_string(), "snapshot".to_string()),
    ];
    let vanilla = classify_vanilla_versions(&manifest);
    assert_eq!(vanilla.release, vec!["1.19.2".to_string()]);
    assert_eq!(vanilla.snapshot, vec!["22w11a".to_string(), "1.14_pre1".to_string()]);
    assert_eq!(vanilla.old_alpha, vec!["a1.0.4".to_string()]);
    let others = vec!["1.19.2".to_string(), "1.14-pre1".to_string(), "9.9".to_string()];
    let g = group_minecraft_versions(&others, &vanilla);
    assert_eq!(g.release, vec!["1.19.2".to_string()]);
    assert_eq!(g.snapshot, vec!["1.14-pre1".to_string()]);
    assert!(g.old_alpha.is_empty());
}

#[test]
fn macros_are_found_in_order() {
    let p = |ts, js, dir, its, ijs| MacroProbe {
        ts_is_file: ts,
        js_is_file: js,
        folder_is_dir: dir,
        index_ts_exists: its,
        index_js_exists: ijs,
    };
    assert_eq!(resolve_macro_invocation(&p(true, true, true, true, true)), Some(MacroFile::Ts));
    assert_eq!(resolve_macro_invocation(&p(false, true, true, true, true)), Some(MacroFile::Js));
    assert_eq!(resolve_macro_invocation(&p(false, false, true, false, true)), Some(MacroFile::IndexJs));
    assert_eq!(resolve_macro_invocation(&p(false, false, false, true, true)), None);
}

fn persist_ok(_: &GlobalSettingsData) -> Result<(), lodestone_core::error::Error> {
    Ok(())
}

fn persist_fail(_: &GlobalSettingsData) -> Result<(), lodestone_core::error::Error> {
    Err(lodestone_core::error::Error { kind: ErrorKind::Internal, source: "no disk".to_string() })
}

#[test]
fn test_global_settings() {
    let mut s = GlobalSettings::new(GlobalSettingsData::default());
    assert!(s.safe_mode());
    assert!(s.core_name().ends_with("'s Lodestone Core"));
    s.set_core_name("test_core_name".to_string(), &persist_ok).unwrap();
    assert_eq!(s.core_name(), "test_core_name");
    assert!(s.set_core_name("other".to_string(), &persist_fail).is_err());
    assert_eq!(s.core_name(), "test_core_name");
    s.set_domain(Some("example.org".to_string()), &persist_ok).unwrap();
    assert_eq!(s.domain(), Some("example.org".to_string()));
    s.set_safe_mode(false, &persist_ok).unwrap();
    assert!(!s.safe_mode());
}

#[test]
fn a_new_instance_is_configured_from_its_setup() {
    let setup = SetupConfig {
        name: "s".to_string(),
        version: "1.19.2".to_string(),
        flavour: Flavour::from(FlavourKind::Vanilla),
        port: 25565,
        cmd_args: vec!["nogui".to_string()],
        description: None,
        min_ram: Some(1024),
        max_ram: None,
        auto_start: Some(true),
        restart_on_crash: None,
        backup_period: Some(5),
    };
    let r = restore_config_from_setup(setup, Flavour::from(FlavourKind::Paper), 17, "/jre17/bin/java".to_string());
    assert_eq!(r.name, "s");
    assert_eq!(r.description, "");
    assert_eq!(r.min_ram, 1024);
    assert_eq!(r.max_ram, 4096);
    assert!(r.auto_start);
    assert!(!r.restart_on_crash);
    assert_eq!(r.backup_period, Some(5));
    assert_eq!(r.jre_major_version, 17);
    assert_eq!(r.java_cmd.as_deref(), Some("/jre17/bin/java"));
    assert!(matches!(r.flavour, Flavour::Paper { .. }));
    assert!(!r.has_started);
    assert_eq!(r.cmd_args, vec!["nogui".to_string()]);
}

#[test]
fn server_jars_and_first_properties() {
    assert_eq!(server_jar_name(&Flavour::Forge { build_version: None }), "forge-installer.jar");
    assert_eq!(server_jar_name(&Flavour::from(FlavourKind::Fabric)), "server.jar");
    assert_eq!(initial_properties(25565), "server-port=25565");
    assert_eq!(initial_properties(0), "server-port=0");
}

#[test]
fn command_line_settings_are_read_back_into_the_configuration() {
    let c = config(Flavour::Vanilla, "1.19.2");
    let section = cmd_arg_settings(&c, "/jre17/bin/java".to_string());
    assert_eq!(section.len(), 4);
    assert_eq!(section[0].get_identifier(), "cmd_args");
    assert_eq!(section[3].get_identifier(), "java_cmd");
    let mut back = config(Flavour::Vanilla, "1.19.2");
    back.cmd_args = vec![];
    back.min_ram = 1;
    back.max_ram = 2;
    sync_cmd_args(&mut back, &section);
    assert_eq!(back.cmd_args, vec!["".to_string(), "-Dfoo=1".to_string()]);
    assert_eq!(back.min_ram, 1024);
    assert_eq!(back.max_ram, 2048);
    assert_eq!(back.java_cmd.as_deref(), Some("/jre17/bin/java"));
    assert_eq!(back.port, 25565);
}

#[test]
fn the_setup_form_preselects_the_first_version() {
    let m = minecraft_setup_manifest(vec!["1.19.2".to_string(), "1.18.2".to_string()]);
    assert_eq!(m.len(), 2);
    assert_eq!(m[0].section_id, "section_1");
    assert_eq!(m[1].name, "Advanced Settings");
    let ids: Vec<&str> = m[0].settings.iter().map(|s| s.get_identifier().as_str()).collect();
    assert_eq!(ids, vec!["version", "port"]);
    let ids: Vec<&str> = m[1].settings.iter().map(|s| s.get_identifier().as_str()).collect();
    assert_eq!(ids, vec!["min_ram", "max_ram", "cmd_args"]);
    assert_eq!(m[0].settings[0].get_value(), Some(&ConfigurableValue::Enum("1.19.2".to_string())));
    assert_eq!(m[0].settings[1].get_value(), Some(&ConfigurableValue::UnsignedInteger(25565)));
    assert_eq!(m[1].settings[1].get_value(), Some(&ConfigurableValue::UnsignedInteger(2048)));
    assert!(!m[1].settings[2].is_required());
    assert!(m[1].settings[2].get_value().is_none());
}

fn dir_entry(name: &str, is_file: bool, ext: Option<&str>, index_ts: bool, index_js: bool) -> MacroDirEntry {
    MacroDirEntry {
        name: name.to_string(),
        is_file,
        is_dir: !is_file,
        extension: ext.map(|e| e.to_string()),
        has_index_ts: index_ts,
        has_index_js: index_js,
    }
}

#[test]
fn macros_are_listed_by_name() {
    let entries = vec![
        dir_entry("b.ts", true, Some("ts"), false, false),
        dir_entry("a", false, None, false, true),
        dir_entry("readme.md", true, Some("md"), false, false),
        dir_entry("c.js", true, Some("js"), false, false),
        dir_entry("z", false, None, false, false),
        dir_entry("B.ts", true, Some("ts"), false, false),
    ];
    let runs = vec![("b.ts".to_string(), 5), ("a".to_string(), 7), ("b.ts".to_string(), 9)];
    let list = macro_list(entries, &runs);
    assert_eq!(
        list,
        vec![
            MacroEntry { name: "B.ts".to_string(), last_run: None },
            MacroEntry { name: "a".to_string(), last_run: Some(7) },
            MacroEntry { name: "b.ts".to_string(), last_run: Some(9) },
            MacroEntry { name: "c.js".to_string(), last_run: None },
        ]
    );
    assert!(name_lt("ab", "b"));
    assert!(name_lt("a", "ab"));
    assert!(!name_lt("ab", "ab"));
    assert!(name_lt("Z", "a"));
    assert!(name_lt("z", "\u{e9}"));
}

fn task(pid: u64, time: i64) -> TaskEntry {
    TaskEntry { pid: MacroPID(pid), name: format!("m{pid}"), creation_time: time }
}

#[test]
fn running_tasks_oldest_first() {
    let tasks = vec![(task(1, 5), true), (task(2, 3), false), (task(3, 5), true), (task(4, 1), true)];
    let list = task_list(tasks);
    assert_eq!(list, vec![task(4, 1), task(1, 5), task(3, 5)]);
}

#[test]
fn ended_macros_latest_first() {
    let tasks = vec![
        (task(1, 1), Some(ExitStatus::Success { time: 10 })),
        (task(2, 2), None),
        (task(3, 3), Some(ExitStatus::Killed { time: 20 })),
        (task(4, 4), Some(ExitStatus::Error { time: 10, error_msg: "boom".to_string() })),
    ];
    let list = history_list(tasks);
    assert_eq!(
        list,
        vec![
            HistoryEntry { task: task(3, 3), exit_status: ExitStatus::Killed { time: 20 } },
            HistoryEntry { task: task(1, 1), exit_status: ExitStatus::Success { time: 10 } },
            HistoryEntry {
                task: task(4, 4),
                exit_status: ExitStatus::Error { time: 10, error_msg: "boom".to_string() },
            },
        ]
    );
    assert_eq!(ExitStatus::Killed { time: 20 }.time(), 20);
}

#[test]
fn the_offered_form_submitted_unchanged() {
    let form = SetupValue {
        name: "my server".to_string(),
        description: Some("for friends".to_string()),
        auto_start: true,
        restart_on_crash: false,
        setting_sections: minecraft_setup_manifest(vec!["1.19.2".to_string(), "1.18.2".to_string()]),
    };
    let c = construct_setup_config(&form, FlavourKind::Fabric);
    assert_eq!(c.name, "my server");
    assert_eq!(c.description.as_deref(), Some("for friends"));
    assert_eq!(c.version, "1.19.2");
    assert_eq!(c.port, 25565);
    assert_eq!(c.min_ram, Some(1024));
    assert_eq!(c.max_ram, Some(2048));
    assert_eq!(c.cmd_args, vec!["".to_string()]);
    assert!(matches!(c.flavour, Flavour::Fabric { loader_version: None, installer_version: None }));
    assert_eq!(c.auto_start, Some(true));
    assert_eq!(c.restart_on_crash, Some(false));
    assert!(c.backup_period.is_none());
    assert_eq!(form.get_unique_setting("max_ram").unwrap().get_value(), Some(&ConfigurableValue::UnsignedInteger(2048)));
    assert!(form.get_unique_setting("nope").is_none());
}

#[test]
fn a_waiting_start_ends_when_the_server_runs_or_stops() {
    assert!(matches!(start_outcome(State::Running), Some(Ok(()))));
    match start_outcome(State::Stopped) {
        Some(Err(e)) => assert_eq!(e.source, "Instance exited unexpectedly before starting"),
        _ => panic!("a stop before running fails the start"),
    }
    assert!(start_outcome(State::Starting).is_none());
}

#[test]
fn renaming_an_instance() {
    let mut c = config(Flavour::Vanilla, "1.19.2");
    assert!(c.set_name("survival".to_string()).is_ok());
    assert_eq!(c.name, "survival");
    assert_eq!(c.set_name("".to_string()).unwrap_err().source, "Name cannot be empty");
    assert_eq!(
        c.set_name("n".repeat(101)).unwrap_err().source,
        "Name cannot be longer than 100 characters"
    );
    assert_eq!(c.name, "survival");
    assert!(c.set_name("n".repeat(100)).is_ok());
}

#[test]
fn changing_the_version_of_a_server() {
    let vanilla = config(Flavour::Vanilla, "1.19.2");
    assert_eq!(
        version_change(State::Running, &vanilla, "1.20").unwrap_err().source,
        "Cannot change version while server is running"
    );
    assert_eq!(version_change(State::Stopped, &vanilla, "1.19.2").unwrap(), VersionChange::Unchanged);
    assert_eq!(
        version_change(State::Stopped, &vanilla, "1.20").unwrap(),
        VersionChange::Download(FlavourKind::Vanilla)
    );
    let forge = config(Flavour::Forge { build_version: None }, "1.19.2");
    let e = version_change(State::Stopped, &forge, "1.20").unwrap_err();
    assert_eq!(e.kind, ErrorKind::UnsupportedOperation);
    assert_eq!(
        jar_not_found(FlavourKind::Paper, "1.20").source,
        "Cannot get the paper jar version for version 1.20"
    );
}

#[test]
fn console_commands_and_kills() {
    assert_eq!(command_is_stop(State::Stopped, "say hi").unwrap_err().source, "Instance is stopped");
    assert!(!command_is_stop(State::Running, "say hi").unwrap());
    assert!(command_is_stop(State::Starting, "stop").unwrap());
    assert_eq!(command_line("say hi"), "say hi\n");
    assert!(check_kill(State::Running).is_ok());
    assert_eq!(check_kill(State::Stopped).unwrap_err().source, "Instance is already stopped");
}
