//! How a Minecraft instance is set up and restored: its flavour (vanilla,
//! Fabric, Paper, Spigot, Forge) with the versions of the flavour's tools,
//! the setup and restore configurations, the move of configurations from the
//! 0.4.2 layout, and the command that starts the server.
use vstd::prelude::*;
use vstd::string::*;

use crate::error::{Error, ErrorKind};
use crate::manifest::{
    ConfigurableValue, ConfigurableValueType, ConfigurableValueTypeView, ConfigurableValueView,
    spec_find_setting, spec_first_setting, SectionManifest, SectionManifestView, SettingManifest, SettingManifestView,
    SetupValue,
};
use crate::minecraft::cmd_args::{
    lemma_split_join, spec_cmd_arg_manifest, spec_split, split_chars, CmdArgSetting, CmdArgView,
};
use crate::text::{
    chars_range, parse_i32, push_str, spec_decimal, spec_parse_i32, str_chars, str_eq,
    to_decimal, spec_occurs_at,
};
use crate::types::{DotLodestoneConfig, InstanceUuid};

verus! {

broadcast use vstd::seq_lib::group_seq_properties;

#[derive(Debug)]
pub struct FabricLoaderVersion(pub String);

#[derive(Debug)]
pub struct FabricInstallerVersion(pub String);

#[derive(Debug, Clone, Copy, PartialEq, Eq, Structural)]
pub struct PaperBuildVersion(pub i64);

#[derive(Debug)]
pub struct ForgeBuildVersion(pub String);

/// The kind of server software an instance runs, with the versions of the
/// tools it needs where they were chosen.
#[derive(Debug)]
pub enum Flavour {
    Vanilla,
    Fabric {
        loader_version: Option<FabricLoaderVersion>,
        installer_version: Option<FabricInstallerVersion>,
    },
    Paper { build_version: Option<PaperBuildVersion> },
    Spigot,
    Forge { build_version: Option<ForgeBuildVersion> },
}

/// The kind of a flavour, without its versions.
#[derive(Debug, Clone, Copy, PartialEq, Eq, Structural)]
pub enum FlavourKind {
    Vanilla,
    Fabric,
    Paper,
    Spigot,
    Forge,
}

pub open spec fn spec_flavour_kind(f: Flavour) -> FlavourKind {
    match f {
        Flavour::Vanilla => FlavourKind::Vanilla,
        Flavour::Fabric { .. } => FlavourKind::Fabric,
        Flavour::Paper { .. } => FlavourKind::Paper,
        Flavour::Spigot => FlavourKind::Spigot,
        Flavour::Forge { .. } => FlavourKind::Forge,
    }
}

/// The name of a flavour kind.
pub open spec fn spec_kind_name(k: FlavourKind) -> Seq<char> {
    match k {
        FlavourKind::Vanilla => "vanilla"@,
        FlavourKind::Fabric => "fabric"@,
        FlavourKind::Paper => "paper"@,
        FlavourKind::Spigot => "spigot"@,
        FlavourKind::Forge => "forge"@,
    }
}

impl FlavourKind {
    /// The name of this kind.
    pub fn to_string(&self) -> (s: String)
        ensures
            s@ == spec_kind_name(*self),
    {
        match self {
            FlavourKind::Vanilla => String::from_str("vanilla"),
            FlavourKind::Fabric => String::from_str("fabric"),
            FlavourKind::Paper => String::from_str("paper"),
            FlavourKind::Spigot => String::from_str("spigot"),
            FlavourKind::Forge => String::from_str("forge"),
        }
    }
}

impl Flavour {
    /// The flavour of a kind, with no version chosen.
    pub fn from(kind: FlavourKind) -> (f: Flavour)
        ensures
            spec_flavour_kind(f) == kind,
            match f {
                Flavour::Fabric { loader_version, installer_version } => loader_version is None
                    && installer_version is None,
                Flavour::Paper { build_version } => build_version is None,
                Flavour::Forge { build_version } => build_version is None,
                _ => true,
            },
    {
        match kind {
            FlavourKind::Vanilla => Flavour::Vanilla,
            FlavourKind::Fabric => Flavour::Fabric { loader_version: None, installer_version: None },
            FlavourKind::Paper => Flavour::Paper { build_version: None },
            FlavourKind::Spigot => Flavour::Spigot,
            FlavourKind::Forge => Flavour::Forge { build_version: None },
        }
    }

    /// The kind of this flavour.
    pub fn kind(&self) -> (k: FlavourKind)
        ensures
            k == spec_flavour_kind(*self),
    {
        match self {
            Flavour::Vanilla => FlavourKind::Vanilla,
            Flavour::Fabric { .. } => FlavourKind::Fabric,
            Flavour::Paper { .. } => FlavourKind::Paper,
            Flavour::Spigot => FlavourKind::Spigot,
            Flavour::Forge { .. } => FlavourKind::Forge,
        }
    }

    /// The name of this flavour's kind.
    pub fn to_string(&self) -> (s: String)
        ensures
            s@ == spec_kind_name(spec_flavour_kind(*self)),
    {
        self.kind().to_string()
    }

    /// The flavour that a configuration of the 0.4.2 layout names by a bare
    /// name: its kind with no version chosen; `None` for a name that does not
    /// stand for a flavour on its own (`forge` needs its build version).
    pub fn from_v042_name(name: &str) -> (f: Option<Flavour>)
        ensures
            match f {
                Some(fl) => {
                    &&& spec_flavour_kind(fl) != FlavourKind::Forge
                    &&& spec_kind_name(spec_flavour_kind(fl)) == name@
                    &&& match fl {
                        Flavour::Fabric { loader_version, installer_version } => loader_version
                            is None && installer_version is None,
                        Flavour::Paper { build_version } => build_version is None,
                        _ => true,
                    }
                },
                None => name@ != "vanilla"@ && name@ != "fabric"@ && name@ != "paper"@ && name@
                    != "spigot"@,
            },
    {
        proof {
            reveal_strlit("forge");
            reveal_strlit("vanilla");
            reveal_strlit("fabric");
            reveal_strlit("paper");
            reveal_strlit("spigot");
        }
        if str_eq(name, "vanilla") {
            Some(Flavour::Vanilla)
        } else if str_eq(name, "fabric") {
            Some(Flavour::Fabric { loader_version: None, installer_version: None })
        } else if str_eq(name, "paper") {
            Some(Flavour::Paper { build_version: None })
        } else if str_eq(name, "spigot") {
            Some(Flavour::Spigot)
        } else {
            None
        }
    }
}

/// What a new instance is created from.
#[derive(Debug)]
pub struct SetupConfig {
    pub name: String,
    pub version: String,
    pub flavour: Flavour,
    pub port: u32,
    pub cmd_args: Vec<String>,
    pub description: Option<String>,
    pub min_ram: Option<u32>,
    pub max_ram: Option<u32>,
    pub auto_start: Option<bool>,
    pub restart_on_crash: Option<bool>,
    pub backup_period: Option<u32>,
}

/// What an existing instance is restored from.
#[derive(Debug)]
pub struct RestoreConfig {
    pub name: String,
    pub version: String,
    pub flavour: Flavour,
    pub description: String,
    pub cmd_args: Vec<String>,
    pub java_cmd: Option<String>,
    pub port: u32,
    pub min_ram: u32,
    pub max_ram: u32,
    pub auto_start: bool,
    pub restart_on_crash: bool,
    pub backup_period: Option<u32>,
    pub jre_major_version: u64,
    pub has_started: bool,
}

/// A configuration file of the 0.4.2 layout, which held what is now split
/// between the instance's identity file and its Minecraft configuration.
#[derive(Debug)]
pub struct RestoreConfigV042 {
    pub game_type: String,
    pub uuid: InstanceUuid,
    pub name: String,
    pub version: String,
    pub flavour: Flavour,
    pub description: String,
    pub cmd_args: Vec<String>,
    pub path: String,
    pub port: u32,
    pub min_ram: u32,
    pub max_ram: u32,
    pub creation_time: i64,
    pub auto_start: bool,
    pub restart_on_crash: bool,
    pub backup_period: Option<u32>,
    pub jre_major_version: u64,
    pub has_started: bool,
}

impl RestoreConfigV042 {
    /// The two configurations of the current layout: the identity file
    /// (identifier, creation time, and the version of the layout, 0.4.3) and
    /// the Minecraft configuration, with every field carried over and no
    /// java command.
    pub fn split(self) -> (r: (DotLodestoneConfig, RestoreConfig))
        ensures
            r.0.uuid == self.uuid,
            r.0.creation_time == self.creation_time,
            r.0.lodestone_version@ == "0.4.3"@,
            r.1.name == self.name,
            r.1.version == self.version,
            r.1.flavour == self.flavour,
            r.1.description == self.description,
            r.1.cmd_args == self.cmd_args,
            r.1.java_cmd is None,
            r.1.port == self.port,
            r.1.min_ram == self.min_ram,
            r.1.max_ram == self.max_ram,
            r.1.auto_start == self.auto_start,
            r.1.restart_on_crash == self.restart_on_crash,
            r.1.backup_period == self.backup_period,
            r.1.jre_major_version == self.jre_major_version,
            r.1.has_started == self.has_started,
    {
        let dot = DotLodestoneConfig {
            uuid: self.uuid,
            creation_time: self.creation_time,
            lodestone_version: String::from_str("0.4.3"),
        };
        let restore = RestoreConfig {
            name: self.name,
            version: self.version,
            flavour: self.flavour,
            description: self.description,
            cmd_args: self.cmd_args,
            java_cmd: None,
            port: self.port,
            min_ram: self.min_ram,
            max_ram: self.max_ram,
            auto_start: self.auto_start,
            restart_on_crash: self.restart_on_crash,
            backup_period: self.backup_period,
            jre_major_version: self.jre_major_version,
            has_started: self.has_started,
        };
        (dot, restore)
    }
}

/// The file name a flavour's server jar is downloaded under: Forge's
/// installer, which then sets the server up, for Forge; `server.jar` for the
/// others.
pub fn server_jar_name(flavour: &Flavour) -> (s: &'static str)
    ensures
        s@ == (if spec_flavour_kind(*flavour) == FlavourKind::Forge {
            "forge-installer.jar"@
        } else {
            "server.jar"@
        }),
{
    match flavour {
        Flavour::Forge { .. } => "forge-installer.jar",
        _ => "server.jar",
    }
}

/// The `server.properties` file a new instance starts with: only its port.
pub fn initial_properties(port: u32) -> (s: String)
    ensures
        s@ == "server-port="@ + spec_decimal(port as nat),
{
    let mut s = String::from_str("server-port=");
    push_str(&mut s, to_decimal(port as u64).as_str());
    s
}

/// The configuration a newly set-up instance is restored from: that of its
/// setup, with the flavour whose versions were settled while downloading,
/// the Java runtime that was installed for it, and defaults for what the
/// setup left open (no description, 2048 MB to 4096 MB of memory, neither
/// started automatically nor restarted on a crash); it has not started yet.
pub fn restore_config_from_setup(
    config: SetupConfig,
    flavour: Flavour,
    jre_major_version: u64,
    java_cmd: String,
) -> (r: RestoreConfig)
    ensures
        r.name == config.name,
        r.version == config.version,
        r.flavour == flavour,
        r.description@ == match config.description {
            Some(d) => d@,
            None => Seq::<char>::empty(),
        },
        r.cmd_args == config.cmd_args,
        r.java_cmd == Some(java_cmd),
        r.port == config.port,
        r.min_ram == match config.min_ram {
            Some(m) => m,
            None => 2048u32,
        },
        r.max_ram == match config.max_ram {
            Some(m) => m,
            None => 4096u32,
        },
        r.auto_start == (config.auto_start == Some(true)),
        r.restart_on_crash == (config.restart_on_crash == Some(true)),
        r.backup_period == config.backup_period,
        r.jre_major_version == jre_major_version,
        !r.has_started,
{
    let description = match config.description {
        Some(d) => d,
        None => String::new(),
    };
    let min_ram = match config.min_ram {
        Some(m) => m,
        None => 2048,
    };
    let max_ram = match config.max_ram {
        Some(m) => m,
        None => 4096,
    };
    let auto_start = match config.auto_start {
        Some(b) => b,
        None => false,
    };
    let restart_on_crash = match config.restart_on_crash {
        Some(b) => b,
        None => false,
    };
    RestoreConfig {
        name: config.name,
        version: config.version,
        flavour,
        description,
        cmd_args: config.cmd_args,
        java_cmd: Some(java_cmd),
        port: config.port,
        min_ram,
        max_ram,
        auto_start,
        restart_on_crash,
        backup_period: config.backup_period,
        jre_major_version,
        has_started: false,
    }
}

// ---------------------------------------------------------------------------
// The setup form
// ---------------------------------------------------------------------------

/// An entry of the setup form that is changeable and not secret.
pub open spec fn spec_form_entry(
    id: Seq<char>,
    name: Seq<char>,
    description: Seq<char>,
    value: Option<ConfigurableValueView>,
    value_type: ConfigurableValueTypeView,
    default_value: Option<ConfigurableValueView>,
    is_required: bool,
) -> SettingManifestView {
    SettingManifestView {
        setting_id: id,
        name,
        description,
        value,
        value_type,
        default_value,
        is_secret: false,
        is_required,
        is_mutable: true,
    }
}

/// The form a new Minecraft server is set up with, for the versions its
/// flavour offers (the first being preselected): the basic section holds
/// the version and the port (25565 by default), the advanced one the memory
/// bounds (1024 MB and 2048 MB) and optional extra command-line arguments.
pub open spec fn spec_setup_sections(versions: Seq<Seq<char>>) -> Seq<SectionManifestView> {
    seq![
        SectionManifestView {
            section_id: "section_1"@,
            name: "Basic Settings"@,
            description: "Basic settings for the server."@,
            settings: seq![
                spec_form_entry(
                    "version"@,
                    "Version"@,
                    "The version of minecraft to use"@,
                    Some(ConfigurableValueView::Enum(versions[0])),
                    ConfigurableValueTypeView::Enum { options: versions },
                    None,
                    true,
                ),
                spec_form_entry(
                    "port"@,
                    "Port"@,
                    "The port to run the server on"@,
                    Some(ConfigurableValueView::UnsignedInteger(25565)),
                    ConfigurableValueTypeView::UnsignedInteger { min: Some(0), max: Some(65535) },
                    Some(ConfigurableValueView::UnsignedInteger(25565)),
                    true,
                ),
            ],
        },
        SectionManifestView {
            section_id: "section_2"@,
            name: "Advanced Settings"@,
            description: "Advanced settings for your minecraft server."@,
            settings: seq![
                spec_form_entry(
                    "min_ram"@,
                    "Minimum RAM"@,
                    "The minimum amount of RAM to allocate to the server"@,
                    Some(ConfigurableValueView::UnsignedInteger(1024)),
                    ConfigurableValueTypeView::UnsignedInteger { min: None, max: None },
                    Some(ConfigurableValueView::UnsignedInteger(1024)),
                    true,
                ),
                spec_form_entry(
                    "max_ram"@,
                    "Maximum RAM"@,
                    "The maximum amount of RAM to allocate to the server"@,
                    Some(ConfigurableValueView::UnsignedInteger(2048)),
                    ConfigurableValueTypeView::UnsignedInteger { min: None, max: None },
                    Some(ConfigurableValueView::UnsignedInteger(2048)),
                    true,
                ),
                spec_form_entry(
                    "cmd_args"@,
                    "Command Line Arguments"@,
                    "Command line arguments to pass to the server"@,
                    None,
                    ConfigurableValueTypeView::String { regex: None },
                    None,
                    false,
                ),
            ],
        },
    ]
}

/// The form a new Minecraft server is set up with, given the versions its
/// flavour offers (see [`spec_setup_sections`]).
pub fn minecraft_setup_manifest(versions: Vec<String>) -> (m: Vec<SectionManifest>)
    requires
        versions.len() > 0,
    ensures
        m@.map_values(|s: SectionManifest| s@) == spec_setup_sections(versions.deep_view()),
{
    let first = versions[0].clone();
    let ghost vv = versions.deep_view();
    let version = SettingManifest::new_value_with_type(
        String::from_str("version"),
        String::from_str("Version"),
        String::from_str("The version of minecraft to use"),
        Some(ConfigurableValue::Enum(first)),
        ConfigurableValueType::Enum { options: versions },
        None,
        false,
        true,
    );
    let port = SettingManifest::new_value_with_type(
        String::from_str("port"),
        String::from_str("Port"),
        String::from_str("The port to run the server on"),
        Some(ConfigurableValue::UnsignedInteger(25565)),
        ConfigurableValueType::UnsignedInteger { min: Some(0), max: Some(65535) },
        Some(ConfigurableValue::UnsignedInteger(25565)),
        false,
        true,
    );
    let min_ram = SettingManifest::new_required_value(
        String::from_str("min_ram"),
        String::from_str("Minimum RAM"),
        String::from_str("The minimum amount of RAM to allocate to the server"),
        ConfigurableValue::UnsignedInteger(1024),
        Some(ConfigurableValue::UnsignedInteger(1024)),
        false,
        true,
    );
    let max_ram = SettingManifest::new_required_value(
        String::from_str("max_ram"),
        String::from_str("Maximum RAM"),
        String::from_str("The maximum amount of RAM to allocate to the server"),
        ConfigurableValue::UnsignedInteger(2048),
        Some(ConfigurableValue::UnsignedInteger(2048)),
        false,
        true,
    );
    let cmd_args = SettingManifest::new_optional_value(
        String::from_str("cmd_args"),
        String::from_str("Command Line Arguments"),
        String::from_str("Command line arguments to pass to the server"),
        None,
        ConfigurableValueType::String { regex: None },
        None,
        false,
        true,
    );
    let mut basic: Vec<SettingManifest> = Vec::new();
    basic.push(version);
    basic.push(port);
    let mut advanced: Vec<SettingManifest> = Vec::new();
    advanced.push(min_ram);
    advanced.push(max_ram);
    advanced.push(cmd_args);
    let s1 = SectionManifest::new(
        String::from_str("section_1"),
        String::from_str("Basic Settings"),
        String::from_str("Basic settings for the server."),
        basic,
    );
    let s2 = SectionManifest::new(
        String::from_str("section_2"),
        String::from_str("Advanced Settings"),
        String::from_str("Advanced settings for your minecraft server."),
        advanced,
    );
    let mut m: Vec<SectionManifest> = Vec::new();
    m.push(s1);
    m.push(s2);
    assert(m@[0]@.settings =~= spec_setup_sections(vv)[0].settings);
    assert(m@[1]@.settings =~= spec_setup_sections(vv)[1].settings);
    assert(m@.map_values(|s: SectionManifest| s@) =~= spec_setup_sections(vv));
    m
}

/// The choice made in an enumerated setting of a filled-in form.
pub open spec fn spec_form_enum(secs: Seq<SectionManifestView>, id: Seq<char>) -> Option<Seq<char>> {
    match spec_find_setting(secs, id) {
        Some(m) => match m.value {
            Some(ConfigurableValueView::Enum(s)) => Some(s),
            _ => None,
        },
        None => None,
    }
}

/// The number given in an unsigned-integer setting of a filled-in form.
pub open spec fn spec_form_uint(secs: Seq<SectionManifestView>, id: Seq<char>) -> Option<u32> {
    match spec_find_setting(secs, id) {
        Some(m) => match m.value {
            Some(ConfigurableValueView::UnsignedInteger(u)) => Some(u),
            _ => None,
        },
        None => None,
    }
}

/// The extra command-line arguments of a filled-in form, as text: empty
/// when the setting was left without a value.
pub open spec fn spec_form_args(secs: Seq<SectionManifestView>) -> Option<Seq<char>> {
    match spec_find_setting(secs, "cmd_args"@) {
        Some(m) => match m.value {
            None => Some(Seq::empty()),
            Some(ConfigurableValueView::String(s)) => Some(s),
            _ => None,
        },
        None => None,
    }
}

/// Whether a filled-in setup form holds what a setup configuration is made
/// of: a chosen version, a port and memory bounds, and the extra arguments
/// setting (as text, or without a value). The form is validated against
/// the setup manifest before it is read.
pub open spec fn spec_form_complete(v: SetupValue) -> bool {
    let secs = v.spec_sections();
    &&& spec_form_enum(secs, "version"@) is Some
    &&& spec_form_uint(secs, "port"@) is Some
    &&& spec_form_uint(secs, "min_ram"@) is Some
    &&& spec_form_uint(secs, "max_ram"@) is Some
    &&& spec_form_args(secs) is Some
}

/// The setup form as it is offered, submitted unchanged, is complete: it
/// gives the first version offered, port 25565, 1024 MB to 2048 MB of
/// memory and no extra arguments.
pub proof fn lemma_offered_form_complete(v: SetupValue, versions: Seq<Seq<char>>)
    requires
        versions.len() > 0,
        v.spec_sections() == spec_setup_sections(versions),
    ensures
        spec_form_complete(v),
        spec_form_enum(v.spec_sections(), "version"@) == Some(versions[0]),
        spec_form_uint(v.spec_sections(), "port"@) == Some(25565u32),
        spec_form_uint(v.spec_sections(), "min_ram"@) == Some(1024u32),
        spec_form_uint(v.spec_sections(), "max_ram"@) == Some(2048u32),
        spec_form_args(v.spec_sections()) == Some(Seq::<char>::empty()),
{
    reveal_strlit("version");
    reveal_strlit("port");
    reveal_strlit("min_ram");
    reveal_strlit("max_ram");
    reveal_strlit("cmd_args");
    assert("version"@[0] == 'v' && "port"@[0] == 'p' && "cmd_args"@[0] == 'c');
    assert("min_ram"@[0] == 'm' && "max_ram"@[0] == 'm' && "min_ram"@[1] == 'i' && "max_ram"@[1]
        == 'a');
    let secs = spec_setup_sections(versions);
    let basic = secs[0].settings;
    let advanced = secs[1].settings;
    assert(basic.drop_first()[0] == basic[1]);
    assert(basic.drop_first().drop_first().len() == 0);
    assert(advanced.drop_first()[0] == advanced[1]);
    assert(advanced.drop_first().drop_first()[0] == advanced[2]);
    assert(advanced.drop_first().drop_first().drop_first().len() == 0);
    assert(secs.drop_first()[0] == secs[1]);
    assert(secs.drop_first().drop_first().len() == 0);
    reveal_with_fuel(spec_first_setting, 4);
    reveal_with_fuel(spec_find_setting, 3);
}

/// The setup configuration of a new Minecraft server of a flavour, from its
/// filled-in setup form: its name, description, version, port and memory
/// bounds; the extra arguments split at spaces; whether it starts with the
/// core and restarts after a crash; no backup period.
pub fn construct_setup_config(setup_value: &SetupValue, flavour: FlavourKind) -> (c: SetupConfig)
    requires
        spec_form_complete(*setup_value),
    ensures
        ({
            let secs = setup_value.spec_sections();
            &&& c.name == setup_value.name
            &&& c.description == setup_value.description
            &&& spec_form_enum(secs, "version"@) == Some(c.version@)
            &&& spec_form_uint(secs, "port"@) == Some(c.port)
            &&& c.min_ram is Some && spec_form_uint(secs, "min_ram"@) == c.min_ram
            &&& c.max_ram is Some && spec_form_uint(secs, "max_ram"@) == c.max_ram
            &&& c.cmd_args.deep_view() == spec_split(spec_form_args(secs)->0, ' ')
            &&& spec_flavour_kind(c.flavour) == flavour
            &&& match c.flavour {
                Flavour::Fabric { loader_version, installer_version } => loader_version is None
                    && installer_version is None,
                Flavour::Paper { build_version } => build_version is None,
                Flavour::Forge { build_version } => build_version is None,
                _ => true,
            }
            &&& c.auto_start == Some(setup_value.auto_start)
            &&& c.restart_on_crash == Some(setup_value.restart_on_crash)
            &&& c.backup_period is None
        }),
{
    let version = match setup_value.get_unique_setting("version") {
        Some(m) => match m.get_value() {
            Some(ConfigurableValue::Enum(s)) => s.clone(),
            _ => String::new(),
        },
        None => String::new(),
    };
    let port = uint_setting(setup_value, "port");
    let min_ram = uint_setting(setup_value, "min_ram");
    let max_ram = uint_setting(setup_value, "max_ram");
    let args = match setup_value.get_unique_setting("cmd_args") {
        Some(m) => match m.get_value() {
            Some(ConfigurableValue::String(s)) => s.clone(),
            _ => String::new(),
        },
        None => String::new(),
    };
    let chars = crate::text::str_chars(args.as_str());
    let cmd_args = split_chars(chars.as_slice(), ' ');
    let description = match &setup_value.description {
        Some(d) => Some(d.clone()),
        None => None,
    };
    SetupConfig {
        name: setup_value.name.clone(),
        version,
        flavour: Flavour::from(flavour),
        port,
        cmd_args,
        description,
        min_ram: Some(min_ram),
        max_ram: Some(max_ram),
        auto_start: Some(setup_value.auto_start),
        restart_on_crash: Some(setup_value.restart_on_crash),
        backup_period: None,
    }
}

fn uint_setting(setup_value: &SetupValue, id: &str) -> (u: u32)
    requires
        spec_form_uint(setup_value.spec_sections(), id@) is Some,
    ensures
        spec_form_uint(setup_value.spec_sections(), id@) == Some(u),
{
    match setup_value.get_unique_setting(id) {
        Some(m) => match m.get_value() {
            Some(ConfigurableValue::UnsignedInteger(u)) => *u,
            _ => 0,
        },
        None => 0,
    }
}

// ---------------------------------------------------------------------------
// The command-line settings of a configuration
// ---------------------------------------------------------------------------

/// The entries of the command-line section of an instance's configurable
/// manifest, in order: the extra arguments, the memory bounds, the java
/// command.
pub open spec fn spec_cmd_section(
    args: Seq<Seq<char>>,
    min_ram: u32,
    max_ram: u32,
    java_cmd: Seq<char>,
) -> Seq<SettingManifestView> {
    seq![
        spec_cmd_arg_manifest(CmdArgView::Args(args)),
        spec_cmd_arg_manifest(CmdArgView::MinRam(min_ram)),
        spec_cmd_arg_manifest(CmdArgView::MaxRam(max_ram)),
        spec_cmd_arg_manifest(CmdArgView::JavaCmd(java_cmd)),
    ]
}

pub open spec fn spec_settings_view(v: Seq<SettingManifest>) -> Seq<SettingManifestView> {
    v.map_values(|m: SettingManifest| m@)
}

/// The command-line section of the configurable manifest of an instance
/// restored from a configuration, with the java command it runs on.
pub fn cmd_arg_settings(config: &RestoreConfig, java_cmd: String) -> (v: Vec<SettingManifest>)
    ensures
        spec_settings_view(v@) == spec_cmd_section(
            config.cmd_args.deep_view(),
            config.min_ram,
            config.max_ram,
            java_cmd@,
        ),
{
    let args = crate::text::clone_strings(&config.cmd_args);
    let mut v: Vec<SettingManifest> = Vec::new();
    v.push(SettingManifest::from_cmd_arg(CmdArgSetting::Args(args)));
    v.push(SettingManifest::from_cmd_arg(CmdArgSetting::MinRam(config.min_ram)));
    v.push(SettingManifest::from_cmd_arg(CmdArgSetting::MaxRam(config.max_ram)));
    v.push(SettingManifest::from_cmd_arg(CmdArgSetting::JavaCmd(java_cmd)));
    assert(spec_settings_view(v@) =~= spec_cmd_section(
        config.cmd_args.deep_view(),
        config.min_ram,
        config.max_ram,
        java_cmd@,
    ));
    v
}

/// The value of the first entry of a section with the given identifier.
pub open spec fn spec_setting_value(section: Seq<SettingManifestView>, id: Seq<char>) -> Option<
    ConfigurableValueView,
>
    decreases section.len(),
{
    if section.len() == 0 {
        None
    } else if section[0].setting_id == id {
        section[0].value
    } else {
        spec_setting_value(section.drop_first(), id)
    }
}

/// Whether a command-line section holds what a configuration is read back
/// from: the extra arguments and the java command as text, the memory bounds
/// as unsigned integers.
pub open spec fn spec_cmd_section_ready(section: Seq<SettingManifestView>) -> bool {
    &&& spec_setting_value(section, "cmd_args"@) matches Some(ConfigurableValueView::String(_))
    &&& spec_setting_value(section, "min_ram"@) matches Some(
        ConfigurableValueView::UnsignedInteger(_),
    )
    &&& spec_setting_value(section, "max_ram"@) matches Some(
        ConfigurableValueView::UnsignedInteger(_),
    )
    &&& spec_setting_value(section, "java_cmd"@) matches Some(ConfigurableValueView::String(_))
}

fn setting_value<'a>(section: &'a Vec<SettingManifest>, id: &str) -> (r: Option<&'a ConfigurableValue>)
    ensures
        match r {
            Some(x) => spec_setting_value(spec_settings_view(section@), id@) == Some(x@),
            None => spec_setting_value(spec_settings_view(section@), id@) is None,
        },
{
    let ghost all = spec_settings_view(section@);
    let mut i: usize = 0;
    while i < section.len()
        invariant
            i <= section.len(),
            all == spec_settings_view(section@),
            spec_setting_value(all, id@) == spec_setting_value(all.skip(i as int), id@),
        decreases section.len() - i,
    {
        assert(all.skip(i as int).drop_first() =~= all.skip(i as int + 1));
        assert(all.skip(i as int)[0] == section@[i as int]@);
        if crate::text::str_eq(section[i].get_identifier().as_str(), id) {
            return section[i].get_value();
        }
        i = i + 1;
    }
    None
}

/// Reads the command-line section back into a configuration: the extra
/// arguments (split at spaces), the memory bounds and the java command; the
/// rest of the configuration is kept.
pub fn sync_cmd_args(config: &mut RestoreConfig, section: &Vec<SettingManifest>)
    requires
        spec_cmd_section_ready(spec_settings_view(section@)),
    ensures
        ({
            let sec = spec_settings_view(section@);
            &&& spec_setting_value(sec, "cmd_args"@) matches Some(ConfigurableValueView::String(a))
                && final(config).cmd_args.deep_view() == spec_split(a, ' ')
            &&& spec_setting_value(sec, "min_ram"@) == Some(
                ConfigurableValueView::UnsignedInteger(final(config).min_ram),
            )
            &&& spec_setting_value(sec, "max_ram"@) == Some(
                ConfigurableValueView::UnsignedInteger(final(config).max_ram),
            )
            &&& final(config).java_cmd matches Some(j) && spec_setting_value(sec, "java_cmd"@)
                == Some(ConfigurableValueView::String(j@))
        }),
        final(config).name == old(config).name,
        final(config).version == old(config).version,
        final(config).flavour == old(config).flavour,
        final(config).description == old(config).description,
        final(config).port == old(config).port,
        final(config).auto_start == old(config).auto_start,
        final(config).restart_on_crash == old(config).restart_on_crash,
        final(config).backup_period == old(config).backup_period,
        final(config).jre_major_version == old(config).jre_major_version,
        final(config).has_started == old(config).has_started,
{
    let args = setting_value(section, "cmd_args");
    let min_ram = setting_value(section, "min_ram");
    let max_ram = setting_value(section, "max_ram");
    let java_cmd = setting_value(section, "java_cmd");
    match (args, min_ram, max_ram, java_cmd) {
        (
            Some(ConfigurableValue::String(a)),
            Some(ConfigurableValue::UnsignedInteger(lo)),
            Some(ConfigurableValue::UnsignedInteger(hi)),
            Some(ConfigurableValue::String(j)),
        ) => {
            let c = crate::text::str_chars(a.as_str());
            config.cmd_args = split_chars(c.as_slice(), ' ');
            config.min_ram = *lo;
            config.max_ram = *hi;
            config.java_cmd = Some(j.clone());
        },
        _ => {},
    }
}

/// A configuration's command-line settings read back from the section they
/// were listed in give the configuration back, with the java command it was
/// listed with, when it has at least one extra argument and none holds a
/// space.
pub proof fn lemma_cmd_section_roundtrip(
    args: Seq<Seq<char>>,
    min_ram: u32,
    max_ram: u32,
    java_cmd: Seq<char>,
)
    requires
        args.len() > 0,
        forall|i: int| 0 <= i < args.len() ==> !(#[trigger] args[i]).contains(' '),
    ensures
        ({
            let sec = spec_cmd_section(args, min_ram, max_ram, java_cmd);
            &&& spec_cmd_section_ready(sec)
            &&& spec_setting_value(sec, "cmd_args"@) matches Some(ConfigurableValueView::String(a))
                && spec_split(a, ' ') == args
            &&& spec_setting_value(sec, "min_ram"@) == Some(
                ConfigurableValueView::UnsignedInteger(min_ram),
            )
            &&& spec_setting_value(sec, "max_ram"@) == Some(
                ConfigurableValueView::UnsignedInteger(max_ram),
            )
            &&& spec_setting_value(sec, "java_cmd"@) == Some(ConfigurableValueView::String(java_cmd))
        }),
{
    reveal_strlit("min_ram");
    reveal_strlit("max_ram");
    reveal_strlit("java_cmd");
    reveal_strlit("cmd_args");
    assert("java_cmd"@[0] == 'j' && "cmd_args"@[0] == 'c');
    assert("min_ram"@[0] == 'm' && "max_ram"@[0] == 'm' && "min_ram"@[1] == 'i' && "max_ram"@[1]
        == 'a');
    let sec = spec_cmd_section(args, min_ram, max_ram, java_cmd);
    assert(sec[0].setting_id == "cmd_args"@);
    assert(sec[1].setting_id == "min_ram"@);
    assert(sec[2].setting_id == "max_ram"@);
    assert(sec[3].setting_id == "java_cmd"@);
    assert(sec.drop_first()[0] == sec[1]);
    assert(sec.drop_first().drop_first()[0] == sec[2]);
    assert(sec.drop_first().drop_first().drop_first()[0] == sec[3]);
    reveal_with_fuel(spec_setting_value, 5);
    lemma_split_join(args, ' ');
}

// ---------------------------------------------------------------------------
// The start command
// ---------------------------------------------------------------------------

/// The Java executable a server runs on.
#[derive(Debug)]
pub enum JavaPath {
    /// The command the configuration names.
    Custom(String),
    /// `java` in the directory of a downloaded runtime (`bin`, or
    /// `Contents/Home/bin` on macOS) under the runtimes' `java` directory.
    Runtime { jre_dir: String, macos: bool },
}

/// An argument of the start command.
#[derive(Debug)]
pub enum StartArg {
    Text(String),
    /// A file of the instance's directory, by name.
    InstanceFile(String),
    /// `@` and the path of a Forge argument file:
    /// `libraries/net/minecraftforge/forge/<build>/<file>` in the instance's
    /// directory.
    ForgeArgsFile { build_version: String, file: String },
}

pub enum StartArgView {
    Text(Seq<char>),
    InstanceFile(Seq<char>),
    ForgeArgsFile { build_version: Seq<char>, file: Seq<char> },
}

impl View for StartArg {
    type V = StartArgView;

    open spec fn view(&self) -> StartArgView {
        match self {
            StartArg::Text(t) => StartArgView::Text(t@),
            StartArg::InstanceFile(f) => StartArgView::InstanceFile(f@),
            StartArg::ForgeArgsFile { build_version, file } => StartArgView::ForgeArgsFile {
                build_version: build_version@,
                file: file@,
            },
        }
    }
}

impl DeepView for StartArg {
    type V = StartArgView;

    open spec fn deep_view(&self) -> StartArgView {
        self@
    }
}

/// The Java executable of a configuration: its own command, else the
/// runtime of its Java major version (`jre<major>`).
pub fn java_path(config: &RestoreConfig, macos: bool) -> (p: JavaPath)
    ensures
        match config.java_cmd {
            Some(j) => p matches JavaPath::Custom(c) && c@ == j@,
            None => p matches JavaPath::Runtime { jre_dir, macos: m } && m == macos && jre_dir@
                == "jre"@ + spec_decimal(config.jre_major_version as nat),
        },
{
    match &config.java_cmd {
        Some(j) => JavaPath::Custom(j.clone()),
        None => {
            let mut d = String::from_str("jre");
            let n = to_decimal(config.jre_major_version);
            push_str(&mut d, n.as_str());
            JavaPath::Runtime { jre_dir: d, macos }
        },
    }
}

/// The memory arguments: `-Xmx<max>M` and `-Xms<min>M`.
pub open spec fn spec_memory_args(min_ram: u32, max_ram: u32) -> Seq<StartArgView> {
    seq![
        StartArgView::Text("-Xmx"@ + spec_decimal(max_ram as nat) + "M"@),
        StartArgView::Text("-Xms"@ + spec_decimal(min_ram as nat) + "M"@),
    ]
}

pub open spec fn spec_not_empty() -> spec_fn(Seq<char>) -> bool {
    |a: Seq<char>| a.len() > 0
}

/// The configured arguments, without the empty ones.
pub open spec fn spec_extra_args(cmd_args: Seq<Seq<char>>) -> Seq<StartArgView> {
    cmd_args.filter(spec_not_empty()).map_values(|a: Seq<char>| StartArgView::Text(a))
}

/// The second `.`-separated part of a version (`19` of `1.19.2`), when
/// there is one.
pub open spec fn spec_second_part(version: Seq<char>) -> Option<Seq<char>> {
    match crate::text::spec_find(version, '.') {
        Some(k) => {
            let rest = version.skip(k + 1);
            match crate::text::spec_find(rest, '.') {
                Some(j) => Some(rest.take(j)),
                None => Some(rest),
            }
        },
        None => None,
    }
}

/// Whether a file name has the extension `jar` (a `.jar` ending after at
/// least one other character).
pub open spec fn spec_is_jar(name: Seq<char>) -> bool {
    name.len() > 4 && name.skip(name.len() - 4) == ".jar"@
}

/// Whether a file name is a jar starting with `prefix`.
pub open spec fn spec_is_jar_with_prefix(name: Seq<char>, prefix: Seq<char>) -> bool {
    spec_is_jar(name) && spec_occurs_at(name, prefix, 0)
}

/// The first file of `files` that is a jar starting with `prefix`.
pub open spec fn spec_first_jar(files: Seq<Seq<char>>, prefix: Seq<char>) -> Option<Seq<char>>
    decreases files.len(),
{
    if files.len() == 0 {
        None
    } else if spec_is_jar_with_prefix(files[0], prefix) {
        Some(files[0])
    } else {
        spec_first_jar(files.drop_first(), prefix)
    }
}

/// The arguments that start a server of the given configuration, given the
/// names of the files in the instance's directory, in the order they are
/// listed: the memory arguments, the configured arguments that are not
/// empty, how to run the server (for Forge, by the Minecraft version: an
/// argument file from 1.17 on, the `forge-<version>-` jar from 1.7 to 1.16,
/// the `minecraftforge` jar before; else `server.jar`), and `nogui`. The
/// error text says what is missing.
pub open spec fn spec_start_args(
    min_ram: u32,
    max_ram: u32,
    cmd_args: Seq<Seq<char>>,
    flavour: Flavour,
    version: Seq<char>,
    windows: bool,
    files: Seq<Seq<char>>,
) -> Result<Seq<StartArgView>, Seq<char>> {
    let head = spec_memory_args(min_ram, max_ram) + spec_extra_args(cmd_args);
    let tail = seq![StartArgView::Text("nogui"@)];
    match flavour {
        Flavour::Forge { build_version } => match build_version {
            None => Err("Forge version not found"@),
            Some(b) => match spec_parse_i32(spec_second_part(version)->0) {
                None => Err("Unable to parse major Minecraft version for Forge"@),
                Some(major) => if 17 <= major {
                    Ok(
                        head + seq![
                            StartArgView::ForgeArgsFile {
                                build_version: b.0@,
                                file: if windows {
                                    "win_args.txt"@
                                } else {
                                    "unix_args.txt"@
                                },
                            },
                        ] + tail,
                    )
                } else if 7 <= major && major <= 16 {
                    match spec_first_jar(files, "forge-"@ + version + "-"@) {
                        Some(f) => Ok(
                            head + seq![StartArgView::Text("-jar"@), StartArgView::InstanceFile(f)]
                                + tail,
                        ),
                        None => Err("Failed to find forge.jar"@),
                    }
                } else {
                    match spec_first_jar(files, "minecraftforge"@) {
                        Some(f) => Ok(
                            head + seq![StartArgView::Text("-jar"@), StartArgView::InstanceFile(f)]
                                + tail,
                        ),
                        None => Err("Failed to find minecraftforge.jar"@),
                    }
                },
            },
        },
        _ => Ok(
            head + seq![
                StartArgView::Text("-jar"@),
                StartArgView::InstanceFile("server.jar"@),
            ] + tail,
        ),
    }
}

fn second_part(version: &str) -> (r: Option<Vec<char>>)
    ensures
        match spec_second_part(version@) {
            Some(p) => r is Some && r->0@ == p,
            None => r is None,
        },
{
    let v = str_chars(version);
    match crate::text::find_char(v.as_slice(), '.') {
        Some(k) => {
            proof {
                crate::text::lemma_find(v@, '.');
                assert(crate::text::spec_find(v@, '.') == Some(k as int));
            }
            assert(k < v.len());
            let rest = chars_range(v.as_slice(), k + 1, v.len());
            assert(rest@ =~= v@.skip(k + 1));
            match crate::text::find_char(rest.as_slice(), '.') {
                Some(j) => {
                    proof {
                        crate::text::lemma_find(rest@, '.');
                    }
                    let p = chars_range(rest.as_slice(), 0, j);
                    assert(p@ =~= rest@.take(j as int));
                    Some(p)
                },
                None => Some(rest),
            }
        },
        None => None,
    }
}

fn is_jar_with_prefix(name: &str, prefix: &[char]) -> (b: bool)
    ensures
        b == spec_is_jar_with_prefix(name@, prefix@),
{
    let n = str_chars(name);
    let ext = str_chars(".jar");
    let is_jar = n.len() > 4 && crate::text::chars_eq(
        chars_range(n.as_slice(), n.len() - 4, n.len()).as_slice(),
        ext.as_slice(),
    );
    proof {
        if n@.len() > 4 {
            assert(n@.subrange(n@.len() - 4, n@.len() as int) =~= n@.skip(n@.len() - 4));
        }
    }
    if !is_jar {
        return false;
    }
    if prefix.len() > n.len() {
        return false;
    }
    let head = chars_range(n.as_slice(), 0, prefix.len());
    let r = crate::text::chars_eq(head.as_slice(), prefix);
    proof {
        assert(n@.subrange(0, prefix@.len() as int) == head@);
    }
    r
}

fn first_jar(files: &Vec<String>, prefix: &[char]) -> (r: Option<String>)
    ensures
        r.deep_view() == spec_first_jar(files.deep_view(), prefix@),
{
    let ghost s = files.deep_view();
    let mut i: usize = 0;
    while i < files.len()
        invariant
            s == files.deep_view(),
            i <= files.len(),
            spec_first_jar(s, prefix@) == spec_first_jar(s.skip(i as int), prefix@),
        decreases files.len() - i,
    {
        assert(s.skip(i as int)[0] == s[i as int]);
        assert(s.skip(i as int).drop_first() =~= s.skip(i as int + 1));
        if is_jar_with_prefix(files[i].as_str(), prefix) {
            return Some(files[i].clone());
        }
        i = i + 1;
    }
    assert(s.skip(i as int).len() == 0);
    None
}

fn text(s: &str) -> (a: StartArg)
    ensures
        a@ == StartArgView::Text(s@),
{
    StartArg::Text(String::from_str(s))
}

/// The arguments that start a server (see [`spec_start_args`]).
pub fn start_args(config: &RestoreConfig, windows: bool, files: &Vec<String>) -> (r: Result<
    Vec<StartArg>,
    Error,
>)
    requires
        config.flavour matches Flavour::Forge { build_version: Some(_) } ==> spec_second_part(
            config.version@,
        ) is Some,
    ensures
        match spec_start_args(
            config.min_ram,
            config.max_ram,
            config.cmd_args.deep_view(),
            config.flavour,
            config.version@,
            windows,
            files.deep_view(),
        ) {
            Ok(args) => r is Ok && r->Ok_0.deep_view() == args,
            Err(message) => r is Err && r->Err_0.kind == ErrorKind::Internal && r->Err_0.source@
                == message,
        },
{
    let mut args: Vec<StartArg> = Vec::new();
    let mut xmx = String::from_str("-Xmx");
    push_str(&mut xmx, to_decimal(config.max_ram as u64).as_str());
    push_str(&mut xmx, "M");
    args.push(StartArg::Text(xmx));
    let mut xms = String::from_str("-Xms");
    push_str(&mut xms, to_decimal(config.min_ram as u64).as_str());
    push_str(&mut xms, "M");
    args.push(StartArg::Text(xms));
    assert(args.deep_view() =~= spec_memory_args(config.min_ram, config.max_ram));
    let ghost c = config.cmd_args.deep_view();
    let mut i: usize = 0;
    while i < config.cmd_args.len()
        invariant
            c == config.cmd_args.deep_view(),
            i <= config.cmd_args.len(),
            args.deep_view() == spec_memory_args(config.min_ram, config.max_ram) + spec_extra_args(
                c.take(i as int),
            ),
        decreases config.cmd_args.len() - i,
    {
        let ghost before = args.deep_view();
        proof {
            assert(c.take(i as int + 1) =~= c.take(i as int).push(c[i as int]));
            c.take(i as int).lemma_filter_push(c[i as int], spec_not_empty());
        }
        if config.cmd_args[i].as_str().unicode_len() > 0 {
            args.push(StartArg::Text(config.cmd_args[i].clone()));
            proof {
                let f = c.take(i as int).filter(spec_not_empty());
                assert(f.push(c[i as int]).map_values(|a: Seq<char>| StartArgView::Text(a))
                    =~= f.map_values(|a: Seq<char>| StartArgView::Text(a)).push(
                    StartArgView::Text(c[i as int]),
                ));
                assert(args.deep_view() =~= before.push(StartArgView::Text(c[i as int])));
            }
        }
        i = i + 1;
    }
    proof {
        assert(c.take(c.len() as int) =~= c);
    }
    let ghost head = args.deep_view();
    match &config.flavour {
        Flavour::Forge { build_version } => {
            let b = match build_version {
                Some(b) => b,
                None => {
                    return Err(Error::new(ErrorKind::Internal, "Forge version not found"));
                },
            };
            let part = match second_part(config.version.as_str()) {
                Some(p) => p,
                None => {
                    return Err(Error::new(ErrorKind::Internal, "Forge version not found"));
                },
            };
            let major = match parse_i32(part.as_slice()) {
                Some(m) => m,
                None => {
                    return Err(
                        Error::new(
                            ErrorKind::Internal,
                            "Unable to parse major Minecraft version for Forge",
                        ),
                    );
                },
            };
            if 17 <= major {
                let file = if windows {
                    String::from_str("win_args.txt")
                } else {
                    String::from_str("unix_args.txt")
                };
                args.push(StartArg::ForgeArgsFile { build_version: b.0.clone(), file });
            } else if 7 <= major && major <= 16 {
                let mut prefix = String::from_str("forge-");
                push_str(&mut prefix, config.version.as_str());
                push_str(&mut prefix, "-");
                let p = str_chars(prefix.as_str());
                match first_jar(files, p.as_slice()) {
                    Some(f) => {
                        args.push(text("-jar"));
                        args.push(StartArg::InstanceFile(f));
                    },
                    None => {
                        return Err(Error::new(ErrorKind::Internal, "Failed to find forge.jar"));
                    },
                }
            } else {
                let p = str_chars("minecraftforge");
                match first_jar(files, p.as_slice()) {
                    Some(f) => {
                        args.push(text("-jar"));
                        args.push(StartArg::InstanceFile(f));
                    },
                    None => {
                        return Err(
                            Error::new(ErrorKind::Internal, "Failed to find minecraftforge.jar"),
                        );
                    },
                }
            }
        },
        _ => {
            args.push(text("-jar"));
            args.push(text_file("server.jar"));
        },
    }
    args.push(text("nogui"));
    proof {
        match spec_start_args(
            config.min_ram,
            config.max_ram,
            c,
            config.flavour,
            config.version@,
            windows,
            files.deep_view(),
        ) {
            Ok(a) => {
                assert(args.deep_view() =~= a);
            },
            Err(_) => {},
        }
    }
    Ok(args)
}

fn text_file(s: &str) -> (a: StartArg)
    ensures
        a@ == StartArgView::InstanceFile(s@),
{
    StartArg::InstanceFile(String::from_str(s))
}

/// What a start that waits for the server makes of a state it moved to:
/// done once running; failed, as an internal error, when it stopped first;
/// still waiting otherwise.
pub fn start_outcome(to: crate::events::State) -> (r: Option<Result<(), Error>>)
    ensures
        match to {
            crate::events::State::Running => r == Some(Ok::<(), Error>(())),
            crate::events::State::Stopped => r matches Some(Err(e)) && e.kind == ErrorKind::Internal
                && e.source@ == "Instance exited unexpectedly before starting"@,
            _ => r is None,
        },
{
    match to {
        crate::events::State::Running => Some(Ok(())),
        crate::events::State::Stopped => Some(
            Err(Error::new(ErrorKind::Internal, "Instance exited unexpectedly before starting")),
        ),
        _ => None,
    }
}

// ---------------------------------------------------------------------------
// Changes to a configuration
// ---------------------------------------------------------------------------

impl RestoreConfig {
    /// Renames the instance: the name takes one to 100 bytes; a refused
    /// name is a bad request and leaves the configuration as it was.
    pub fn set_name(&mut self, name: String) -> (r: Result<(), Error>)
        ensures
            name@.len() == 0 ==> (r is Err && r->Err_0.kind == ErrorKind::BadRequest
                && r->Err_0.source@ == "Name cannot be empty"@),
            name@.len() > 0 && crate::text::spec_utf8_len(name@) > 100 ==> (r is Err
                && r->Err_0.kind == ErrorKind::BadRequest && r->Err_0.source@
                == "Name cannot be longer than 100 characters"@),
            r is Ok <==> name@.len() > 0 && crate::text::spec_utf8_len(name@) <= 100,
            r is Ok ==> final(self).name == name,
            r is Err ==> final(self).name == old(self).name,
            final(self).version == old(self).version,
            final(self).flavour == old(self).flavour,
            final(self).description == old(self).description,
            final(self).cmd_args == old(self).cmd_args,
            final(self).java_cmd == old(self).java_cmd,
            final(self).port == old(self).port,
            final(self).min_ram == old(self).min_ram,
            final(self).max_ram == old(self).max_ram,
            final(self).auto_start == old(self).auto_start,
            final(self).restart_on_crash == old(self).restart_on_crash,
            final(self).backup_period == old(self).backup_period,
            final(self).jre_major_version == old(self).jre_major_version,
            final(self).has_started == old(self).has_started,
    {
        if name.as_str().unicode_len() == 0 {
            return Err(Error::new(ErrorKind::BadRequest, "Name cannot be empty"));
        }
        if crate::text::utf8_len_over(name.as_str(), 100) {
            return Err(Error::new(ErrorKind::BadRequest, "Name cannot be longer than 100 characters"));
        }
        self.name = name;
        Ok(())
    }
}

/// What changing the version of a server takes.
#[derive(Debug, PartialEq, Eq)]
pub enum VersionChange {
    /// The server already runs that version.
    Unchanged,
    /// The server jar of that version, of this kind, is to be downloaded.
    Download(FlavourKind),
}

/// What changing the version of a server takes: refused, as a bad request,
/// unless the server is stopped; nothing when it already runs the version;
/// refused, as unsupported, for Forge; else the download of the jar of its
/// flavour. (Spigot servers are left out: their jars cannot be had.)
pub fn version_change(state: crate::events::State, config: &RestoreConfig, version: &str) -> (r: Result<
    VersionChange,
    Error,
>)
    requires
        !(state == crate::events::State::Stopped && version@ != config.version@
            && spec_flavour_kind(config.flavour) == FlavourKind::Spigot),
    ensures
        state != crate::events::State::Stopped ==> (r is Err && r->Err_0.kind == ErrorKind::BadRequest
            && r->Err_0.source@ == "Cannot change version while server is running"@),
        state == crate::events::State::Stopped && version@ == config.version@ ==> r == Ok::<
            VersionChange,
            Error,
        >(VersionChange::Unchanged),
        state == crate::events::State::Stopped && version@ != config.version@ ==> if spec_flavour_kind(
            config.flavour,
        ) == FlavourKind::Forge {
            r is Err && r->Err_0.kind == ErrorKind::UnsupportedOperation && r->Err_0.source@
                == "Changing versions is unsupported for forge servers"@
        } else {
            r == Ok::<VersionChange, Error>(VersionChange::Download(spec_flavour_kind(config.flavour)))
        },
{
    if state != crate::events::State::Stopped {
        return Err(Error::new(ErrorKind::BadRequest, "Cannot change version while server is running"));
    }
    if str_eq(version, config.version.as_str()) {
        return Ok(VersionChange::Unchanged);
    }
    let kind = config.flavour.kind();
    if kind == FlavourKind::Forge {
        return Err(
            Error::new(ErrorKind::UnsupportedOperation, "Changing versions is unsupported for forge servers"),
        );
    }
    Ok(VersionChange::Download(kind))
}

/// The error when no jar of a flavour can be had for a version: a bad
/// request naming both.
pub fn jar_not_found(kind: FlavourKind, version: &str) -> (e: Error)
    ensures
        e.kind == ErrorKind::BadRequest,
        e.source@ == "Cannot get the "@ + spec_kind_name(kind) + " jar version for version "@
            + version@,
{
    let mut m = String::from_str("Cannot get the ");
    let name = kind.to_string();
    push_str(&mut m, name.as_str());
    push_str(&mut m, " jar version for version ");
    push_str(&mut m, version);
    Error { kind: ErrorKind::BadRequest, source: m }
}

/// What sending a console command to a server takes: refused, as an
/// internal error, when the server is stopped; else whether the command is
/// `stop`, which moves the server to stopping before it is written.
pub fn command_is_stop(state: crate::events::State, command: &str) -> (r: Result<bool, Error>)
    ensures
        state == crate::events::State::Stopped ==> (r is Err && r->Err_0.kind == ErrorKind::Internal
            && r->Err_0.source@ == "Instance is stopped"@),
        state != crate::events::State::Stopped ==> r == Ok::<bool, Error>(command@ == "stop"@),
{
    if state == crate::events::State::Stopped {
        Err(Error::new(ErrorKind::Internal, "Instance is stopped"))
    } else {
        Ok(str_eq(command, "stop"))
    }
}

/// The line written to a server's input for a console command.
pub fn command_line(command: &str) -> (s: String)
    ensures
        s@ == command@ + "\n"@,
{
    let mut s = String::from_str(command);
    push_str(&mut s, "\n");
    s
}

/// Whether a server can be killed: not when it is stopped already, which is
/// an internal error.
pub fn check_kill(state: crate::events::State) -> (r: Result<(), Error>)
    ensures
        r is Err <==> state == crate::events::State::Stopped,
        r is Err ==> r->Err_0.kind == ErrorKind::Internal && r->Err_0.source@
            == "Instance is already stopped"@,
{
    if state == crate::events::State::Stopped {
        Err(Error::new(ErrorKind::Internal, "Instance is already stopped"))
    } else {
        Ok(())
    }
}

} // verus!
