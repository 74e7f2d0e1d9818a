use lodestone_core::error::ErrorKind;
use lodestone_core::minecraft::cmd_args::{CmdArgSetting, InstanceSetting};
use lodestone_core::manifest::SettingManifest;
use lodestone_core::minecraft::configurable::{
    properties_text, rcon_target, read_properties, Difficulty, Gamemode, ServerPropertySetting,
};

#[test]
fn test_parse_server_properties() {
    let properties = "enable-jmx-monitoring=false\nrcon.port=25575\nlevel-seed=\ndifficulty=easy";

    let mut res: Vec<ServerPropertySetting> = Vec::new();
    for (line_num, line) in properties.lines().enumerate() {
        if let Ok(entry) = ServerPropertySetting::from_str(line) {
            res.push(entry);
        } else {
            panic!("Failed to parse line: {} at {line_num}", line);
        }
    }

    assert_eq!(res[0], ServerPropertySetting::EnableJmxMonitoring(false));

    assert_eq!(res[1], ServerPropertySetting::RconPort(25575));

    assert_eq!(res[2], ServerPropertySetting::LevelSeed("".to_string()));

    assert_eq!(res[3], ServerPropertySetting::Difficulty(Difficulty::Easy));
}

#[test]
fn server_property_line_round_trip() {
    for line in [
        "enable-jmx-monitoring=false",
        "rcon.port=25575",
        "level-seed=",
        "difficulty=easy",
        "gamemode=creative",
        "motd=A Minecraft Server",
        "max-players=20",
    ] {
        let setting = ServerPropertySetting::from_str(line).unwrap();
        assert_eq!(setting.to_line(), line);
    }
}

#[test]
fn server_property_value_stops_at_the_next_equals_sign() {
    let setting = ServerPropertySetting::from_str("motd=a=b").unwrap();
    assert_eq!(setting.to_line(), "motd=a");
}

#[test]
fn server_property_bad_values_are_refused() {
    let e = ServerPropertySetting::from_str("rcon.port=notanumber").unwrap_err();
    assert_eq!(e.kind, ErrorKind::Internal);
    assert!(ServerPropertySetting::from_str("difficulty=impossible").is_err());
    assert!(ServerPropertySetting::from_str("no equals sign").is_err());
}

#[test]
fn server_property_unknown_key_is_kept() {
    let setting = ServerPropertySetting::from_str("some-mod-setting=on").unwrap();
    assert_eq!(setting.to_line(), "some-mod-setting=on");
}

#[test]
fn gamemode_and_difficulty_texts() {
    assert_eq!(Gamemode::from_str("adventure").unwrap(), Gamemode::Adventure);
    assert_eq!(Gamemode::Spectator.to_string(), "spectator");
    assert!(Gamemode::from_str("Adventure").is_err());
    assert_eq!(Difficulty::from_str("hard").unwrap(), Difficulty::Hard);
    assert_eq!(Difficulty::Peaceful.to_string(), "peaceful");
}

#[test]
fn cmd_arg_settings_from_key_and_value() {
    assert!(matches!(CmdArgSetting::from_key_val("min_ram", "1024"), Ok(CmdArgSetting::MinRam(1024))));
    assert!(matches!(CmdArgSetting::from_key_val("max_ram", "2048"), Ok(CmdArgSetting::MaxRam(2048))));
    assert!(matches!(CmdArgSetting::from_key_val("java_cmd", "java"), Ok(CmdArgSetting::JavaCmd(_))));
    match CmdArgSetting::from_key_val("cmd_args", "-Dfoo -Dbar") {
        Ok(CmdArgSetting::Args(a)) => assert_eq!(a, vec!["-Dfoo".to_string(), "-Dbar".to_string()]),
        _ => panic!("cmd_args should parse"),
    }
    match CmdArgSetting::from_key_val("min_ram", "lots") {
        Err(e) => assert_eq!(e.kind, ErrorKind::Internal),
        Ok(_) => panic!("a bad number is refused"),
    }
    match CmdArgSetting::from_key_val("nope", "1") {
        Err(e) => assert_eq!(e.kind, ErrorKind::BadRequest),
        Ok(_) => panic!("an unknown key is refused"),
    }
    assert!(CmdArgSetting::is_key_valid("java_cmd"));
    assert!(!CmdArgSetting::is_key_valid("java"));
}

#[test]
fn instance_setting_from_key_val() {
    assert!(matches!(
        InstanceSetting::from_key_val("min_ram", "512"),
        Ok(InstanceSetting::CmdArg(CmdArgSetting::MinRam(512)))
    ));
    match InstanceSetting::from_key_val("rcon.port", "25575") {
        Ok(InstanceSetting::ServerProperty(p)) => assert_eq!(p, ServerPropertySetting::RconPort(25575)),
        _ => panic!("a server property is read"),
    }
}

#[test]
fn command_line_settings_come_back_from_their_entries() {
    let args = CmdArgSetting::Args(vec!["-Dfoo".to_string(), "nogui".to_string()]);
    let back = CmdArgSetting::try_from_setting_manifest(SettingManifest::from_cmd_arg(args.clone()));
    assert_eq!(back.unwrap(), args);
    let java = CmdArgSetting::JavaCmd("/usr/bin/java".to_string());
    let back = CmdArgSetting::try_from_setting_manifest(SettingManifest::from_cmd_arg(java.clone()));
    assert_eq!(back.unwrap(), java);
    // no arguments at all come back as one empty argument
    let none = CmdArgSetting::Args(vec![]);
    let back = CmdArgSetting::try_from_setting_manifest(SettingManifest::from_cmd_arg(none));
    assert_eq!(back.unwrap(), CmdArgSetting::Args(vec!["".to_string()]));
    // the memory bounds are stored unsigned and read signed
    let min = CmdArgSetting::MinRam(1024);
    match CmdArgSetting::try_from_setting_manifest(SettingManifest::from_cmd_arg(min)) {
        Err(e) => assert_eq!(e.kind, ErrorKind::BadRequest),
        Ok(_) => panic!("an unsigned memory bound was read as signed"),
    }
}

#[test]
fn the_properties_file_is_written_and_read() {
    let section = vec![
        SettingManifest::from_server_property(ServerPropertySetting::EnableJmxMonitoring(false)),
        SettingManifest::from_server_property(ServerPropertySetting::RconPort(25575)),
        SettingManifest::from_server_property(ServerPropertySetting::LevelSeed("".to_string())),
    ];
    assert_eq!(
        properties_text(&section),
        "enable-jmx-monitoring=false\nrcon.port=25575\nlevel-seed=\n"
    );
    let pairs = vec![
        ("rcon.port".to_string(), "25575".to_string()),
        ("difficulty".to_string(), "nope".to_string()),
        ("foo".to_string(), "bar".to_string()),
    ];
    assert_eq!(
        read_properties(&pairs),
        vec![
            ServerPropertySetting::RconPort(25575),
            ServerPropertySetting::Unknown("foo".to_string(), "bar".to_string()),
        ]
    );
}

#[test]
fn the_remote_console_needs_enabling_a_password_and_a_port() {
    let props = |enable: bool| {
        vec![
            SettingManifest::from_server_property(ServerPropertySetting::EnableRcon(enable)),
            SettingManifest::from_server_property(ServerPropertySetting::RconPassword("pw".to_string())),
            SettingManifest::from_server_property(ServerPropertySetting::RconPort(25575)),
        ]
    };
    assert_eq!(rcon_target(&props(true)), Some(("pw".to_string(), 25575)));
    assert_eq!(rcon_target(&props(false)), None);
    let mut no_port = props(true);
    no_port.pop();
    assert_eq!(rcon_target(&no_port), None);
}

#[test]
fn a_key_reads_back_as_its_own_kind() {
    let g = ServerPropertySetting::Gamemode(Gamemode::Creative);
    let id = g.get_identifier();
    assert_eq!(id, "gamemode");
    assert!(matches!(ServerPropertySetting::from_key_val(&id, "hardcore"), Err(_)));
    assert!(matches!(ServerPropertySetting::from_key_val(&id, "survival"), Ok(ServerPropertySetting::Gamemode(Gamemode::Survival))));
    let u = ServerPropertySetting::Unknown("my-key".to_string(), "v".to_string());
    assert_eq!(u.get_identifier(), "my-key");
    let m = InstanceSetting::CmdArg(CmdArgSetting::MaxRam(4096));
    assert!(matches!(InstanceSetting::from_key_val(&m.get_identifier(), "512"), Ok(InstanceSetting::CmdArg(CmdArgSetting::MaxRam(512)))));
    assert!(InstanceSetting::from_key_val(&m.get_identifier(), "lots").is_err());
}

#[test]
fn a_parsed_setting_is_keyed_by_its_key() {
    for (k, v) in [("max-players", "20"), ("min_ram", "256"), ("cmd_args", "-Xmx1G"), ("custom-thing", "x"), ("motd", "hello")] {
        let s = InstanceSetting::from_key_val(k, v).unwrap();
        assert_eq!(s.get_identifier(), k);
    }
}
