//! Minecraft instance settings: the entries of `server.properties` and the
//! command-line settings, how they are read from `key=value` text, written
//! back, and described in a setting manifest.
use vstd::prelude::*;
use vstd::string::*;

use crate::error::{Error, ErrorKind};
use crate::manifest::{
    spec_infer_type, spec_value_text, ConfigurableValue, ConfigurableValueType,
    ConfigurableValueTypeView, ConfigurableValueView, SettingManifest, SettingManifestView,
};
use crate::text::{
    bool_text, chars_eq, chars_range, char_to_uppercase, find_char,
    lemma_find, lemma_find_at, lemma_find_none, lemma_parse_bool_text, lemma_parse_decimal,
    parse_bool, parse_u16, parse_u32, push_char, push_str, spec_bool_text, spec_char_to_uppercase,
    spec_decimal, spec_find, spec_parse_bool, spec_parse_unsigned, str_chars, string_from_chars,
    to_decimal,
};

verus! {

// ---------------------------------------------------------------------------
// Game mode and difficulty
// ---------------------------------------------------------------------------

#[derive(Debug, Clone, Copy, PartialEq, Eq, Structural, Default)]
pub enum Gamemode {
    #[default]
    Survival,
    Creative,
    Adventure,
    Spectator,
}

#[derive(Debug, Clone, Copy, PartialEq, Eq, Structural, Default)]
pub enum Difficulty {
    #[default]
    Peaceful,
    Easy,
    Normal,
    Hard,
}

/// The text of a gamemode, as written in `server.properties`.
pub open spec fn spec_gamemode_text(x: Gamemode) -> Seq<char> {
    match x {
        Gamemode::Survival => seq!['s', 'u', 'r', 'v', 'i', 'v', 'a', 'l'],
        Gamemode::Creative => seq!['c', 'r', 'e', 'a', 't', 'i', 'v', 'e'],
        Gamemode::Adventure => seq!['a', 'd', 'v', 'e', 'n', 't', 'u', 'r', 'e'],
        Gamemode::Spectator => seq!['s', 'p', 'e', 'c', 't', 'a', 't', 'o', 'r'],
    }
}

/// The gamemode a text names, if it names one.
pub open spec fn spec_parse_gamemode(s: Seq<char>) -> Option<Gamemode> {
    if s == seq!['s', 'u', 'r', 'v', 'i', 'v', 'a', 'l'] {
        Some(Gamemode::Survival)
    } else if s == seq!['c', 'r', 'e', 'a', 't', 'i', 'v', 'e'] {
        Some(Gamemode::Creative)
    } else if s == seq!['a', 'd', 'v', 'e', 'n', 't', 'u', 'r', 'e'] {
        Some(Gamemode::Adventure)
    } else if s == seq!['s', 'p', 'e', 'c', 't', 'a', 't', 'o', 'r'] {
        Some(Gamemode::Spectator)
    } else {
        None
    }
}

/// Parses a gamemode from its characters.
pub fn parse_gamemode(s: &[char]) -> (res: Option<Gamemode>)
    ensures
        res == spec_parse_gamemode(s@),
{
    if chars_eq(s, &['s', 'u', 'r', 'v', 'i', 'v', 'a', 'l']) {
        return Some(Gamemode::Survival);
    }
    if chars_eq(s, &['c', 'r', 'e', 'a', 't', 'i', 'v', 'e']) {
        return Some(Gamemode::Creative);
    }
    if chars_eq(s, &['a', 'd', 'v', 'e', 'n', 't', 'u', 'r', 'e']) {
        return Some(Gamemode::Adventure);
    }
    if chars_eq(s, &['s', 'p', 'e', 'c', 't', 'a', 't', 'o', 'r']) {
        return Some(Gamemode::Spectator);
    }
    None
}

/// Each gamemode text names that gamemode, and holds no `=`.
pub proof fn lemma_gamemode_text(x: Gamemode)
    ensures
        spec_parse_gamemode(spec_gamemode_text(x)) == Some(x),
        !spec_gamemode_text(x).contains('='),
{
}

impl Gamemode {
    /// The text of this gamemode.
    pub fn to_string(&self) -> (s: String)
        ensures
            s@ == spec_gamemode_text(*self),
    {
        match self {
            Gamemode::Survival => string_from_chars(&['s', 'u', 'r', 'v', 'i', 'v', 'a', 'l']),
            Gamemode::Creative => string_from_chars(&['c', 'r', 'e', 'a', 't', 'i', 'v', 'e']),
            Gamemode::Adventure => string_from_chars(&['a', 'd', 'v', 'e', 'n', 't', 'u', 'r', 'e']),
            Gamemode::Spectator => string_from_chars(&['s', 'p', 'e', 'c', 't', 'a', 't', 'o', 'r']),
        }
    }

    /// Reads a gamemode from its text; any other text is refused.
    pub fn from_str(s: &str) -> (res: Result<Gamemode, Error>)
        ensures
            match spec_parse_gamemode(s@) {
                Some(x) => res == Ok::<Gamemode, Error>(x),
                None => res is Err && res->Err_0.kind == ErrorKind::BadRequest,
            },
    {
        let c = str_chars(s);
        match parse_gamemode(c.as_slice()) {
            Some(x) => Ok(x),
            None => Err(Error::new(ErrorKind::BadRequest, "Invalid gamemode. The only valid gamemodes are: survival, creative, adventure, spectator")),
        }
    }
}

/// The text of a difficulty, as written in `server.properties`.
pub open spec fn spec_difficulty_text(x: Difficulty) -> Seq<char> {
    match x {
        Difficulty::Peaceful => seq!['p', 'e', 'a', 'c', 'e', 'f', 'u', 'l'],
        Difficulty::Easy => seq!['e', 'a', 's', 'y'],
        Difficulty::Normal => seq!['n', 'o', 'r', 'm', 'a', 'l'],
        Difficulty::Hard => seq!['h', 'a', 'r', 'd'],
    }
}

/// The difficulty a text names, if it names one.
pub open spec fn spec_parse_difficulty(s: Seq<char>) -> Option<Difficulty> {
    if s == seq!['p', 'e', 'a', 'c', 'e', 'f', 'u', 'l'] {
        Some(Difficulty::Peaceful)
    } else if s == seq!['e', 'a', 's', 'y'] {
        Some(Difficulty::Easy)
    } else if s == seq!['n', 'o', 'r', 'm', 'a', 'l'] {
        Some(Difficulty::Normal)
    } else if s == seq!['h', 'a', 'r', 'd'] {
        Some(Difficulty::Hard)
    } else {
        None
    }
}

/// Parses a difficulty from its characters.
pub fn parse_difficulty(s: &[char]) -> (res: Option<Difficulty>)
    ensures
        res == spec_parse_difficulty(s@),
{
    if chars_eq(s, &['p', 'e', 'a', 'c', 'e', 'f', 'u', 'l']) {
        return Some(Difficulty::Peaceful);
    }
    if chars_eq(s, &['e', 'a', 's', 'y']) {
        return Some(Difficulty::Easy);
    }
    if chars_eq(s, &['n', 'o', 'r', 'm', 'a', 'l']) {
        return Some(Difficulty::Normal);
    }
    if chars_eq(s, &['h', 'a', 'r', 'd']) {
        return Some(Difficulty::Hard);
    }
    None
}

/// Each difficulty text names that difficulty, and holds no `=`.
pub proof fn lemma_difficulty_text(x: Difficulty)
    ensures
        spec_parse_difficulty(spec_difficulty_text(x)) == Some(x),
        !spec_difficulty_text(x).contains('='),
{
}

impl Difficulty {
    /// The text of this difficulty.
    pub fn to_string(&self) -> (s: String)
        ensures
            s@ == spec_difficulty_text(*self),
    {
        match self {
            Difficulty::Peaceful => string_from_chars(&['p', 'e', 'a', 'c', 'e', 'f', 'u', 'l']),
            Difficulty::Easy => string_from_chars(&['e', 'a', 's', 'y']),
            Difficulty::Normal => string_from_chars(&['n', 'o', 'r', 'm', 'a', 'l']),
            Difficulty::Hard => string_from_chars(&['h', 'a', 'r', 'd']),
        }
    }

    /// Reads a difficulty from its text; any other text is refused.
    pub fn from_str(s: &str) -> (res: Result<Difficulty, Error>)
        ensures
            match spec_parse_difficulty(s@) {
                Some(x) => res == Ok::<Difficulty, Error>(x),
                None => res is Err && res->Err_0.kind == ErrorKind::BadRequest,
            },
    {
        let c = str_chars(s);
        match parse_difficulty(c.as_slice()) {
            Some(x) => Ok(x),
            None => Err(Error::new(ErrorKind::BadRequest, "Invalid difficulty. The only valid difficulties are: peaceful, easy, normal, hard")),
        }
    }
}

// ---------------------------------------------------------------------------
// Server properties
// ---------------------------------------------------------------------------

/// The known keys of `server.properties`.
#[derive(Debug, Clone, Copy, PartialEq, Eq, Structural)]
pub enum PropertyKey {
    EnableJmxMonitoring,
    RconPort,
    LevelSeed,
    Gamemode,
    EnableCommandBlock,
    EnableQuery,
    GeneratorSettings,
    EnforceSecureProfile,
    LevelName,
    Motd,
    QueryPort,
    Pvp,
    GenerateStructures,
    MaxChainedNeighborUpdates,
    Difficulty,
    NetworkCompressionThreshold,
    RequireResourcePack,
    MaxTickTime,
    MaxPlayers,
    UseNativeTransport,
    OnlineMode,
    EnableStatus,
    AllowFlight,
    InitialDisabledPacks,
    BroadcastRconToOps,
    ViewDistance,
    ResourcePackPrompt,
    ServerIp,
    AllowNether,
    ServerPort,
    EnableRcon,
    SyncChunkWrites,
    OpPermissionLevel,
    PreventProxyConnections,
    HideOnlinePlayers,
    ResourcePack,
    EntityBroadcastRangePercentage,
    SimulationDistance,
    RconPassword,
    PlayerIdleTimeout,
    ForceGamemode,
    RateLimit,
    Hardcore,
    WhiteList,
    BroadcastConsoleToOps,
    PreviewsChat,
    SpawnNpcs,
    SpawnAnimals,
    FunctionPermissionLevel,
    InitialEnabledPacks,
    LevelType,
    TextFilteringConfig,
    SpawnMonsters,
    EnforceWhitelist,
    SpawnProtection,
    ResourcePackSha1,
    MaxWorldSize,
    MaxBuildHeight,
}

/// The text of a known key.
pub open spec fn spec_key_text(k: PropertyKey) -> Seq<char> {
    match k {
        PropertyKey::EnableJmxMonitoring => seq!['e', 'n', 'a', 'b', 'l', 'e', '-', 'j', 'm', 'x', '-', 'm', 'o', 'n', 'i', 't', 'o', 'r', 'i', 'n', 'g'],
        PropertyKey::RconPort => seq!['r', 'c', 'o', 'n', '.', 'p', 'o', 'r', 't'],
        PropertyKey::LevelSeed => seq!['l', 'e', 'v', 'e', 'l', '-', 's', 'e', 'e', 'd'],
        PropertyKey::Gamemode => seq!['g', 'a', 'm', 'e', 'm', 'o', 'd', 'e'],
        PropertyKey::EnableCommandBlock => seq!['e', 'n', 'a', 'b', 'l', 'e', '-', 'c', 'o', 'm', 'm', 'a', 'n', 'd', '-', 'b', 'l', 'o', 'c', 'k'],
        PropertyKey::EnableQuery => seq!['e', 'n', 'a', 'b', 'l', 'e', '-', 'q', 'u', 'e', 'r', 'y'],
        PropertyKey::GeneratorSettings => seq!['g', 'e', 'n', 'e', 'r', 'a', 't', 'o', 'r', '-', 's', 'e', 't', 't', 'i', 'n', 'g', 's'],
        PropertyKey::EnforceSecureProfile => seq!['e', 'n', 'f', 'o', 'r', 'c', 'e', '-', 's', 'e', 'c', 'u', 'r', 'e', '-', 'p', 'r', 'o', 'f', 'i', 'l', 'e'],
        PropertyKey::LevelName => seq!['l', 'e', 'v', 'e', 'l', '-', 'n', 'a', 'm', 'e'],
        PropertyKey::Motd => seq!['m', 'o', 't', 'd'],
        PropertyKey::QueryPort => seq!['q', 'u', 'e', 'r', 'y', '.', 'p', 'o', 'r', 't'],
        PropertyKey::Pvp => seq!['p', 'v', 'p'],
        PropertyKey::GenerateStructures => seq!['g', 'e', 'n', 'e', 'r', 'a', 't', 'e', '-', 's', 't', 'r', 'u', 'c', 't', 'u', 'r', 'e', 's'],
        PropertyKey::MaxChainedNeighborUpdates => seq!['m', 'a', 'x', '-', 'c', 'h', 'a', 'i', 'n', 'e', 'd', '-', 'n', 'e', 'i', 'g', 'h', 'b', 'o', 'r', '-', 'u', 'p', 'd', 'a', 't', 'e', 's'],
        PropertyKey::Difficulty => seq!['d', 'i', 'f', 'f', 'i', 'c', 'u', 'l', 't', 'y'],
        PropertyKey::NetworkCompressionThreshold => seq!['n', 'e', 't', 'w', 'o', 'r', 'k', '-', 'c', 'o', 'm', 'p', 'r', 'e', 's', 's', 'i', 'o', 'n', '-', 't', 'h', 'r', 'e', 's', 'h', 'o', 'l', 'd'],
        PropertyKey::RequireResourcePack => seq!['r', 'e', 'q', 'u', 'i', 'r', 'e', '-', 'r', 'e', 's', 'o', 'u', 'r', 'c', 'e', '-', 'p', 'a', 'c', 'k'],
        PropertyKey::MaxTickTime => seq!['m', 'a', 'x', '-', 't', 'i', 'c', 'k', '-', 't', 'i', 'm', 'e'],
        PropertyKey::MaxPlayers => seq!['m', 'a', 'x', '-', 'p', 'l', 'a', 'y', 'e', 'r', 's'],
        PropertyKey::UseNativeTransport => seq!['u', 's', 'e', '-', 'n', 'a', 't', 'i', 'v', 'e', '-', 't', 'r', 'a', 'n', 's', 'p', 'o', 'r', 't'],
        PropertyKey::OnlineMode => seq!['o', 'n', 'l', 'i', 'n', 'e', '-', 'm', 'o', 'd', 'e'],
        PropertyKey::EnableStatus => seq!['e', 'n', 'a', 'b', 'l', 'e', '-', 's', 't', 'a', 't', 'u', 's'],
        PropertyKey::AllowFlight => seq!['a', 'l', 'l', 'o', 'w', '-', 'f', 'l', 'i', 'g', 'h', 't'],
        PropertyKey::InitialDisabledPacks => seq!['i', 'n', 'i', 't', 'i', 'a', 'l', '-', 'd', 'i', 's', 'a', 'b', 'l', 'e', 'd', '-', 'p', 'a', 'c', 'k', 's'],
        PropertyKey::BroadcastRconToOps => seq!['b', 'r', 'o', 'a', 'd', 'c', 'a', 's', 't', '-', 'r', 'c', 'o', 'n', '-', 't', 'o', '-', 'o', 'p', 's'],
        PropertyKey::ViewDistance => seq!['v', 'i', 'e', 'w', '-', 'd', 'i', 's', 't', 'a', 'n', 'c', 'e'],
        PropertyKey::ResourcePackPrompt => seq!['r', 'e', 's', 'o', 'u', 'r', 'c', 'e', '-', 'p', 'a', 'c', 'k', '-', 'p', 'r', 'o', 'm', 'p', 't'],
        PropertyKey::ServerIp => seq!['s', 'e', 'r', 'v', 'e', 'r', '-', 'i', 'p'],
        PropertyKey::AllowNether => seq!['a', 'l', 'l', 'o', 'w', '-', 'n', 'e', 't', 'h', 'e', 'r'],
        PropertyKey::ServerPort => seq!['s', 'e', 'r', 'v', 'e', 'r', '-', 'p', 'o', 'r', 't'],
        PropertyKey::EnableRcon => seq!['e', 'n', 'a', 'b', 'l', 'e', '-', 'r', 'c', 'o', 'n'],
        PropertyKey::SyncChunkWrites => seq!['s', 'y', 'n', 'c', '-', 'c', 'h', 'u', 'n', 'k', '-', 'w', 'r', 'i', 't', 'e', 's'],
        PropertyKey::OpPermissionLevel => seq!['o', 'p', '-', 'p', 'e', 'r', 'm', 'i', 's', 's', 'i', 'o', 'n', '-', 'l', 'e', 'v', 'e', 'l'],
        PropertyKey::PreventProxyConnections => seq!['p', 'r', 'e', 'v', 'e', 'n', 't', '-', 'p', 'r', 'o', 'x', 'y', '-', 'c', 'o', 'n', 'n', 'e', 'c', 't', 'i', 'o', 'n', 's'],
        PropertyKey::HideOnlinePlayers => seq!['h', 'i', 'd', 'e', '-', 'o', 'n', 'l', 'i', 'n', 'e', '-', 'p', 'l', 'a', 'y', 'e', 'r', 's'],
        PropertyKey::ResourcePack => seq!['r', 'e', 's', 'o', 'u', 'r', 'c', 'e', '-', 'p', 'a', 'c', 'k'],
        PropertyKey::EntityBroadcastRangePercentage => seq!['e', 'n', 't', 'i', 't', 'y', '-', 'b', 'r', 'o', 'a', 'd', 'c', 'a', 's', 't', '-', 'r', 'a', 'n', 'g', 'e', '-', 'p', 'e', 'r', 'c', 'e', 'n', 't', 'a', 'g', 'e'],
        PropertyKey::SimulationDistance => seq!['s', 'i', 'm', 'u', 'l', 'a', 't', 'i', 'o', 'n', '-', 'd', 'i', 's', 't', 'a', 'n', 'c', 'e'],
        PropertyKey::RconPassword => seq!['r', 'c', 'o', 'n', '.', 'p', 'a', 's', 's', 'w', 'o', 'r', 'd'],
        PropertyKey::PlayerIdleTimeout => seq!['p', 'l', 'a', 'y', 'e', 'r', '-', 'i', 'd', 'l', 'e', '-', 't', 'i', 'm', 'e', 'o', 'u', 't'],
        PropertyKey::ForceGamemode => seq!['f', 'o', 'r', 'c', 'e', '-', 'g', 'a', 'm', 'e', 'm', 'o', 'd', 'e'],
        PropertyKey::RateLimit => seq!['r', 'a', 't', 'e', '-', 'l', 'i', 'm', 'i', 't'],
        PropertyKey::Hardcore => seq!['h', 'a', 'r', 'd', 'c', 'o', 'r', 'e'],
        PropertyKey::WhiteList => seq!['w', 'h', 'i', 't', 'e', '-', 'l', 'i', 's', 't'],
        PropertyKey::BroadcastConsoleToOps => seq!['b', 'r', 'o', 'a', 'd', 'c', 'a', 's', 't', '-', 'c', 'o', 'n', 's', 'o', 'l', 'e', '-', 't', 'o', '-', 'o', 'p', 's'],
        PropertyKey::PreviewsChat => seq!['p', 'r', 'e', 'v', 'i', 'e', 'w', 's', '-', 'c', 'h', 'a', 't'],
        PropertyKey::SpawnNpcs => seq!['s', 'p', 'a', 'w', 'n', '-', 'n', 'p', 'c', 's'],
        PropertyKey::SpawnAnimals => seq!['s', 'p', 'a', 'w', 'n', '-', 'a', 'n', 'i', 'm', 'a', 'l', 's'],
        PropertyKey::FunctionPermissionLevel => seq!['f', 'u', 'n', 'c', 't', 'i', 'o', 'n', '-', 'p', 'e', 'r', 'm', 'i', 's', 's', 'i', 'o', 'n', '-', 'l', 'e', 'v', 'e', 'l'],
        PropertyKey::InitialEnabledPacks => seq!['i', 'n', 'i', 't', 'i', 'a', 'l', '-', 'e', 'n', 'a', 'b', 'l', 'e', 'd', '-', 'p', 'a', 'c', 'k', 's'],
        PropertyKey::LevelType => seq!['l', 'e', 'v', 'e', 'l', '-', 't', 'y', 'p', 'e'],
        PropertyKey::TextFilteringConfig => seq!['t', 'e', 'x', 't', '-', 'f', 'i', 'l', 't', 'e', 'r', 'i', 'n', 'g', '-', 'c', 'o', 'n', 'f', 'i', 'g'],
        PropertyKey::SpawnMonsters => seq!['s', 'p', 'a', 'w', 'n', '-', 'm', 'o', 'n', 's', 't', 'e', 'r', 's'],
        PropertyKey::EnforceWhitelist => seq!['e', 'n', 'f', 'o', 'r', 'c', 'e', '-', 'w', 'h', 'i', 't', 'e', 'l', 'i', 's', 't'],
        PropertyKey::SpawnProtection => seq!['s', 'p', 'a', 'w', 'n', '-', 'p', 'r', 'o', 't', 'e', 'c', 't', 'i', 'o', 'n'],
        PropertyKey::ResourcePackSha1 => seq!['r', 'e', 's', 'o', 'u', 'r', 'c', 'e', '-', 'p', 'a', 'c', 'k', '-', 's', 'h', 'a', '1'],
        PropertyKey::MaxWorldSize => seq!['m', 'a', 'x', '-', 'w', 'o', 'r', 'l', 'd', '-', 's', 'i', 'z', 'e'],
        PropertyKey::MaxBuildHeight => seq!['m', 'a', 'x', '-', 'b', 'u', 'i', 'l', 'd', '-', 'h', 'e', 'i', 'g', 'h', 't'],
    }
}

/// The known key a text names, if any.
pub open spec fn spec_key_of(s: Seq<char>) -> Option<PropertyKey> {
    if s == seq!['e', 'n', 'a', 'b', 'l', 'e', '-', 'j', 'm', 'x', '-', 'm', 'o', 'n', 'i', 't', 'o', 'r', 'i', 'n', 'g'] {
        Some(PropertyKey::EnableJmxMonitoring)
    } else if s == seq!['r', 'c', 'o', 'n', '.', 'p', 'o', 'r', 't'] {
        Some(PropertyKey::RconPort)
    } else if s == seq!['l', 'e', 'v', 'e', 'l', '-', 's', 'e', 'e', 'd'] {
        Some(PropertyKey::LevelSeed)
    } else if s == seq!['g', 'a', 'm', 'e', 'm', 'o', 'd', 'e'] {
        Some(PropertyKey::Gamemode)
    } else if s == seq!['e', 'n', 'a', 'b', 'l', 'e', '-', 'c', 'o', 'm', 'm', 'a', 'n', 'd', '-', 'b', 'l', 'o', 'c', 'k'] {
        Some(PropertyKey::EnableCommandBlock)
    } else if s == seq!['e', 'n', 'a', 'b', 'l', 'e', '-', 'q', 'u', 'e', 'r', 'y'] {
        Some(PropertyKey::EnableQuery)
    } else if s == seq!['g', 'e', 'n', 'e', 'r', 'a', 't', 'o', 'r', '-', 's', 'e', 't', 't', 'i', 'n', 'g', 's'] {
        Some(PropertyKey::GeneratorSettings)
    } else if s == seq!['e', 'n', 'f', 'o', 'r', 'c', 'e', '-', 's', 'e', 'c', 'u', 'r', 'e', '-', 'p', 'r', 'o', 'f', 'i', 'l', 'e'] {
        Some(PropertyKey::EnforceSecureProfile)
    } else if s == seq!['l', 'e', 'v', 'e', 'l', '-', 'n', 'a', 'm', 'e'] {
        Some(PropertyKey::LevelName)
    } else if s == seq!['m', 'o', 't', 'd'] {
        Some(PropertyKey::Motd)
    } else if s == seq!['q', 'u', 'e', 'r', 'y', '.', 'p', 'o', 'r', 't'] {
        Some(PropertyKey::QueryPort)
    } else if s == seq!['p', 'v', 'p'] {
        Some(PropertyKey::Pvp)
    } else if s == seq!['g', 'e', 'n', 'e', 'r', 'a', 't', 'e', '-', 's', 't', 'r', 'u', 'c', 't', 'u', 'r', 'e', 's'] {
        Some(PropertyKey::GenerateStructures)
    } else if s == seq!['m', 'a', 'x', '-', 'c', 'h', 'a', 'i', 'n', 'e', 'd', '-', 'n', 'e', 'i', 'g', 'h', 'b', 'o', 'r', '-', 'u', 'p', 'd', 'a', 't', 'e', 's'] {
        Some(PropertyKey::MaxChainedNeighborUpdates)
    } else if s == seq!['d', 'i', 'f', 'f', 'i', 'c', 'u', 'l', 't', 'y'] {
        Some(PropertyKey::Difficulty)
    } else if s == seq!['n', 'e', 't', 'w', 'o', 'r', 'k', '-', 'c', 'o', 'm', 'p', 'r', 'e', 's', 's', 'i', 'o', 'n', '-', 't', 'h', 'r', 'e', 's', 'h', 'o', 'l', 'd'] {
        Some(PropertyKey::NetworkCompressionThreshold)
    } else if s == seq!['r', 'e', 'q', 'u', 'i', 'r', 'e', '-', 'r', 'e', 's', 'o', 'u', 'r', 'c', 'e', '-', 'p', 'a', 'c', 'k'] {
        Some(PropertyKey::RequireResourcePack)
    } else if s == seq!['m', 'a', 'x', '-', 't', 'i', 'c', 'k', '-', 't', 'i', 'm', 'e'] {
        Some(PropertyKey::MaxTickTime)
    } else if s == seq!['m', 'a', 'x', '-', 'p', 'l', 'a', 'y', 'e', 'r', 's'] {
        Some(PropertyKey::MaxPlayers)
    } else if s == seq!['u', 's', 'e', '-', 'n', 'a', 't', 'i', 'v', 'e', '-', 't', 'r', 'a', 'n', 's', 'p', 'o', 'r', 't'] {
        Some(PropertyKey::UseNativeTransport)
    } else if s == seq!['o', 'n', 'l', 'i', 'n', 'e', '-', 'm', 'o', 'd', 'e'] {
        Some(PropertyKey::OnlineMode)
    } else if s == seq!['e', 'n', 'a', 'b', 'l', 'e', '-', 's', 't', 'a', 't', 'u', 's'] {
        Some(PropertyKey::EnableStatus)
    } else if s == seq!['a', 'l', 'l', 'o', 'w', '-', 'f', 'l', 'i', 'g', 'h', 't'] {
        Some(PropertyKey::AllowFlight)
    } else if s == seq!['i', 'n', 'i', 't', 'i', 'a', 'l', '-', 'd', 'i', 's', 'a', 'b', 'l', 'e', 'd', '-', 'p', 'a', 'c', 'k', 's'] {
        Some(PropertyKey::InitialDisabledPacks)
    } else if s == seq!['b', 'r', 'o', 'a', 'd', 'c', 'a', 's', 't', '-', 'r', 'c', 'o', 'n', '-', 't', 'o', '-', 'o', 'p', 's'] {
        Some(PropertyKey::BroadcastRconToOps)
    } else if s == seq!['v', 'i', 'e', 'w', '-', 'd', 'i', 's', 't', 'a', 'n', 'c', 'e'] {
        Some(PropertyKey::ViewDistance)
    } else if s == seq!['r', 'e', 's', 'o', 'u', 'r', 'c', 'e', '-', 'p', 'a', 'c', 'k', '-', 'p', 'r', 'o', 'm', 'p', 't'] {
        Some(PropertyKey::ResourcePackPrompt)
    } else if s == seq!['s', 'e', 'r', 'v', 'e', 'r', '-', 'i', 'p'] {
        Some(PropertyKey::ServerIp)
    } else if s == seq!['a', 'l', 'l', 'o', 'w', '-', 'n', 'e', 't', 'h', 'e', 'r'] {
        Some(PropertyKey::AllowNether)
    } else if s == seq!['s', 'e', 'r', 'v', 'e', 'r', '-', 'p', 'o', 'r', 't'] {
        Some(PropertyKey::ServerPort)
    } else if s == seq!['e', 'n', 'a', 'b', 'l', 'e', '-', 'r', 'c', 'o', 'n'] {
        Some(PropertyKey::EnableRcon)
    } else if s == seq!['s', 'y', 'n', 'c', '-', 'c', 'h', 'u', 'n', 'k', '-', 'w', 'r', 'i', 't', 'e', 's'] {
        Some(PropertyKey::SyncChunkWrites)
    } else if s == seq!['o', 'p', '-', 'p', 'e', 'r', 'm', 'i', 's', 's', 'i', 'o', 'n', '-', 'l', 'e', 'v', 'e', 'l'] {
        Some(PropertyKey::OpPermissionLevel)
    } else if s == seq!['p', 'r', 'e', 'v', 'e', 'n', 't', '-', 'p', 'r', 'o', 'x', 'y', '-', 'c', 'o', 'n', 'n', 'e', 'c', 't', 'i', 'o', 'n', 's'] {
        Some(PropertyKey::PreventProxyConnections)
    } else if s == seq!['h', 'i', 'd', 'e', '-', 'o', 'n', 'l', 'i', 'n', 'e', '-', 'p', 'l', 'a', 'y', 'e', 'r', 's'] {
        Some(PropertyKey::HideOnlinePlayers)
    } else if s == seq!['r', 'e', 's', 'o', 'u', 'r', 'c', 'e', '-', 'p', 'a', 'c', 'k'] {
        Some(PropertyKey::ResourcePack)
    } else if s == seq!['e', 'n', 't', 'i', 't', 'y', '-', 'b', 'r', 'o', 'a', 'd', 'c', 'a', 's', 't', '-', 'r', 'a', 'n', 'g', 'e', '-', 'p', 'e', 'r', 'c', 'e', 'n', 't', 'a', 'g', 'e'] {
        Some(PropertyKey::EntityBroadcastRangePercentage)
    } else if s == seq!['s', 'i', 'm', 'u', 'l', 'a', 't', 'i', 'o', 'n', '-', 'd', 'i', 's', 't', 'a', 'n', 'c', 'e'] {
        Some(PropertyKey::SimulationDistance)
    } else if s == seq!['r', 'c', 'o', 'n', '.', 'p', 'a', 's', 's', 'w', 'o', 'r', 'd'] {
        Some(PropertyKey::RconPassword)
    } else if s == seq!['p', 'l', 'a', 'y', 'e', 'r', '-', 'i', 'd', 'l', 'e', '-', 't', 'i', 'm', 'e', 'o', 'u', 't'] {
        Some(PropertyKey::PlayerIdleTimeout)
    } else if s == seq!['f', 'o', 'r', 'c', 'e', '-', 'g', 'a', 'm', 'e', 'm', 'o', 'd', 'e'] {
        Some(PropertyKey::ForceGamemode)
    } else if s == seq!['r', 'a', 't', 'e', '-', 'l', 'i', 'm', 'i', 't'] {
        Some(PropertyKey::RateLimit)
    } else if s == seq!['h', 'a', 'r', 'd', 'c', 'o', 'r', 'e'] {
        Some(PropertyKey::Hardcore)
    } else if s == seq!['w', 'h', 'i', 't', 'e', '-', 'l', 'i', 's', 't'] {
        Some(PropertyKey::WhiteList)
    } else if s == seq!['b', 'r', 'o', 'a', 'd', 'c', 'a', 's', 't', '-', 'c', 'o', 'n', 's', 'o', 'l', 'e', '-', 't', 'o', '-', 'o', 'p', 's'] {
        Some(PropertyKey::BroadcastConsoleToOps)
    } else if s == seq!['p', 'r', 'e', 'v', 'i', 'e', 'w', 's', '-', 'c', 'h', 'a', 't'] {
        Some(PropertyKey::PreviewsChat)
    } else if s == seq!['s', 'p', 'a', 'w', 'n', '-', 'n', 'p', 'c', 's'] {
        Some(PropertyKey::SpawnNpcs)
    } else if s == seq!['s', 'p', 'a', 'w', 'n', '-', 'a', 'n', 'i', 'm', 'a', 'l', 's'] {
        Some(PropertyKey::SpawnAnimals)
    } else if s == seq!['f', 'u', 'n', 'c', 't', 'i', 'o', 'n', '-', 'p', 'e', 'r', 'm', 'i', 's', 's', 'i', 'o', 'n', '-', 'l', 'e', 'v', 'e', 'l'] {
        Some(PropertyKey::FunctionPermissionLevel)
    } else if s == seq!['i', 'n', 'i', 't', 'i', 'a', 'l', '-', 'e', 'n', 'a', 'b', 'l', 'e', 'd', '-', 'p', 'a', 'c', 'k', 's'] {
        Some(PropertyKey::InitialEnabledPacks)
    } else if s == seq!['l', 'e', 'v', 'e', 'l', '-', 't', 'y', 'p', 'e'] {
        Some(PropertyKey::LevelType)
    } else if s == seq!['t', 'e', 'x', 't', '-', 'f', 'i', 'l', 't', 'e', 'r', 'i', 'n', 'g', '-', 'c', 'o', 'n', 'f', 'i', 'g'] {
        Some(PropertyKey::TextFilteringConfig)
    } else if s == seq!['s', 'p', 'a', 'w', 'n', '-', 'm', 'o', 'n', 's', 't', 'e', 'r', 's'] {
        Some(PropertyKey::SpawnMonsters)
    } else if s == seq!['e', 'n', 'f', 'o', 'r', 'c', 'e', '-', 'w', 'h', 'i', 't', 'e', 'l', 'i', 's', 't'] {
        Some(PropertyKey::EnforceWhitelist)
    } else if s == seq!['s', 'p', 'a', 'w', 'n', '-', 'p', 'r', 'o', 't', 'e', 'c', 't', 'i', 'o', 'n'] {
        Some(PropertyKey::SpawnProtection)
    } else if s == seq!['r', 'e', 's', 'o', 'u', 'r', 'c', 'e', '-', 'p', 'a', 'c', 'k', '-', 's', 'h', 'a', '1'] {
        Some(PropertyKey::ResourcePackSha1)
    } else if s == seq!['m', 'a', 'x', '-', 'w', 'o', 'r', 'l', 'd', '-', 's', 'i', 'z', 'e'] {
        Some(PropertyKey::MaxWorldSize)
    } else if s == seq!['m', 'a', 'x', '-', 'b', 'u', 'i', 'l', 'd', '-', 'h', 'e', 'i', 'g', 'h', 't'] {
        Some(PropertyKey::MaxBuildHeight)
    } else {
        None
    }
}

/// The known key a text names, if any.
pub fn key_of(s: &[char]) -> (res: Option<PropertyKey>)
    ensures
        res == spec_key_of(s@),
{
    if chars_eq(s, &['e', 'n', 'a', 'b', 'l', 'e', '-', 'j', 'm', 'x', '-', 'm', 'o', 'n', 'i', 't', 'o', 'r', 'i', 'n', 'g']) {
        return Some(PropertyKey::EnableJmxMonitoring);
    }
    if chars_eq(s, &['r', 'c', 'o', 'n', '.', 'p', 'o', 'r', 't']) {
        return Some(PropertyKey::RconPort);
    }
    if chars_eq(s, &['l', 'e', 'v', 'e', 'l', '-', 's', 'e', 'e', 'd']) {
        return Some(PropertyKey::LevelSeed);
    }
    if chars_eq(s, &['g', 'a', 'm', 'e', 'm', 'o', 'd', 'e']) {
        return Some(PropertyKey::Gamemode);
    }
    if chars_eq(s, &['e', 'n', 'a', 'b', 'l', 'e', '-', 'c', 'o', 'm', 'm', 'a', 'n', 'd', '-', 'b', 'l', 'o', 'c', 'k']) {
        return Some(PropertyKey::EnableCommandBlock);
    }
    if chars_eq(s, &['e', 'n', 'a', 'b', 'l', 'e', '-', 'q', 'u', 'e', 'r', 'y']) {
        return Some(PropertyKey::EnableQuery);
    }
    if chars_eq(s, &['g', 'e', 'n', 'e', 'r', 'a', 't', 'o', 'r', '-', 's', 'e', 't', 't', 'i', 'n', 'g', 's']) {
        return Some(PropertyKey::GeneratorSettings);
    }
    if chars_eq(s, &['e', 'n', 'f', 'o', 'r', 'c', 'e', '-', 's', 'e', 'c', 'u', 'r', 'e', '-', 'p', 'r', 'o', 'f', 'i', 'l', 'e']) {
        return Some(PropertyKey::EnforceSecureProfile);
    }
    if chars_eq(s, &['l', 'e', 'v', 'e', 'l', '-', 'n', 'a', 'm', 'e']) {
        return Some(PropertyKey::LevelName);
    }
    if chars_eq(s, &['m', 'o', 't', 'd']) {
        return Some(PropertyKey::Motd);
    }
    if chars_eq(s, &['q', 'u', 'e', 'r', 'y', '.', 'p', 'o', 'r', 't']) {
        return Some(PropertyKey::QueryPort);
    }
    if chars_eq(s, &['p', 'v', 'p']) {
        return Some(PropertyKey::Pvp);
    }
    if chars_eq(s, &['g', 'e', 'n', 'e', 'r', 'a', 't', 'e', '-', 's', 't', 'r', 'u', 'c', 't', 'u', 'r', 'e', 's']) {
        return Some(PropertyKey::GenerateStructures);
    }
    if chars_eq(s, &['m', 'a', 'x', '-', 'c', 'h', 'a', 'i', 'n', 'e', 'd', '-', 'n', 'e', 'i', 'g', 'h', 'b', 'o', 'r', '-', 'u', 'p', 'd', 'a', 't', 'e', 's']) {
        return Some(PropertyKey::MaxChainedNeighborUpdates);
    }
    if chars_eq(s, &['d', 'i', 'f', 'f', 'i', 'c', 'u', 'l', 't', 'y']) {
        return Some(PropertyKey::Difficulty);
    }
    if chars_eq(s, &['n', 'e', 't', 'w', 'o', 'r', 'k', '-', 'c', 'o', 'm', 'p', 'r', 'e', 's', 's', 'i', 'o', 'n', '-', 't', 'h', 'r', 'e', 's', 'h', 'o', 'l', 'd']) {
        return Some(PropertyKey::NetworkCompressionThreshold);
    }
    if chars_eq(s, &['r', 'e', 'q', 'u', 'i', 'r', 'e', '-', 'r', 'e', 's', 'o', 'u', 'r', 'c', 'e', '-', 'p', 'a', 'c', 'k']) {
        return Some(PropertyKey::RequireResourcePack);
    }
    if chars_eq(s, &['m', 'a', 'x', '-', 't', 'i', 'c', 'k', '-', 't', 'i', 'm', 'e']) {
        return Some(PropertyKey::MaxTickTime);
    }
    if chars_eq(s, &['m', 'a', 'x', '-', 'p', 'l', 'a', 'y', 'e', 'r', 's']) {
        return Some(PropertyKey::MaxPlayers);
    }
    if chars_eq(s, &['u', 's', 'e', '-', 'n', 'a', 't', 'i', 'v', 'e', '-', 't', 'r', 'a', 'n', 's', 'p', 'o', 'r', 't']) {
        return Some(PropertyKey::UseNativeTransport);
    }
    if chars_eq(s, &['o', 'n', 'l', 'i', 'n', 'e', '-', 'm', 'o', 'd', 'e']) {
        return Some(PropertyKey::OnlineMode);
    }
    if chars_eq(s, &['e', 'n', 'a', 'b', 'l', 'e', '-', 's', 't', 'a', 't', 'u', 's']) {
        return Some(PropertyKey::EnableStatus);
    }
    if chars_eq(s, &['a', 'l', 'l', 'o', 'w', '-', 'f', 'l', 'i', 'g', 'h', 't']) {
        return Some(PropertyKey::AllowFlight);
    }
    if chars_eq(s, &['i', 'n', 'i', 't', 'i', 'a', 'l', '-', 'd', 'i', 's', 'a', 'b', 'l', 'e', 'd', '-', 'p', 'a', 'c', 'k', 's']) {
        return Some(PropertyKey::InitialDisabledPacks);
    }
    if chars_eq(s, &['b', 'r', 'o', 'a', 'd', 'c', 'a', 's', 't', '-', 'r', 'c', 'o', 'n', '-', 't', 'o', '-', 'o', 'p', 's']) {
        return Some(PropertyKey::BroadcastRconToOps);
    }
    if chars_eq(s, &['v', 'i', 'e', 'w', '-', 'd', 'i', 's', 't', 'a', 'n', 'c', 'e']) {
        return Some(PropertyKey::ViewDistance);
    }
    if chars_eq(s, &['r', 'e', 's', 'o', 'u', 'r', 'c', 'e', '-', 'p', 'a', 'c', 'k', '-', 'p', 'r', 'o', 'm', 'p', 't']) {
        return Some(PropertyKey::ResourcePackPrompt);
    }
    if chars_eq(s, &['s', 'e', 'r', 'v', 'e', 'r', '-', 'i', 'p']) {
        return Some(PropertyKey::ServerIp);
    }
    if chars_eq(s, &['a', 'l', 'l', 'o', 'w', '-', 'n', 'e', 't', 'h', 'e', 'r']) {
        return Some(PropertyKey::AllowNether);
    }
    if chars_eq(s, &['s', 'e', 'r', 'v', 'e', 'r', '-', 'p', 'o', 'r', 't']) {
        return Some(PropertyKey::ServerPort);
    }
    if chars_eq(s, &['e', 'n', 'a', 'b', 'l', 'e', '-', 'r', 'c', 'o', 'n']) {
        return Some(PropertyKey::EnableRcon);
    }
    if chars_eq(s, &['s', 'y', 'n', 'c', '-', 'c', 'h', 'u', 'n', 'k', '-', 'w', 'r', 'i', 't', 'e', 's']) {
        return Some(PropertyKey::SyncChunkWrites);
    }
    if chars_eq(s, &['o', 'p', '-', 'p', 'e', 'r', 'm', 'i', 's', 's', 'i', 'o', 'n', '-', 'l', 'e', 'v', 'e', 'l']) {
        return Some(PropertyKey::OpPermissionLevel);
    }
    if chars_eq(s, &['p', 'r', 'e', 'v', 'e', 'n', 't', '-', 'p', 'r', 'o', 'x', 'y', '-', 'c', 'o', 'n', 'n', 'e', 'c', 't', 'i', 'o', 'n', 's']) {
        return Some(PropertyKey::PreventProxyConnections);
    }
    if chars_eq(s, &['h', 'i', 'd', 'e', '-', 'o', 'n', 'l', 'i', 'n', 'e', '-', 'p', 'l', 'a', 'y', 'e', 'r', 's']) {
        return Some(PropertyKey::HideOnlinePlayers);
    }
    if chars_eq(s, &['r', 'e', 's', 'o', 'u', 'r', 'c', 'e', '-', 'p', 'a', 'c', 'k']) {
        return Some(PropertyKey::ResourcePack);
    }
    if chars_eq(s, &['e', 'n', 't', 'i', 't', 'y', '-', 'b', 'r', 'o', 'a', 'd', 'c', 'a', 's', 't', '-', 'r', 'a', 'n', 'g', 'e', '-', 'p', 'e', 'r', 'c', 'e', 'n', 't', 'a', 'g', 'e']) {
        return Some(PropertyKey::EntityBroadcastRangePercentage);
    }
    if chars_eq(s, &['s', 'i', 'm', 'u', 'l', 'a', 't', 'i', 'o', 'n', '-', 'd', 'i', 's', 't', 'a', 'n', 'c', 'e']) {
        return Some(PropertyKey::SimulationDistance);
    }
    if chars_eq(s, &['r', 'c', 'o', 'n', '.', 'p', 'a', 's', 's', 'w', 'o', 'r', 'd']) {
        return Some(PropertyKey::RconPassword);
    }
    if chars_eq(s, &['p', 'l', 'a', 'y', 'e', 'r', '-', 'i', 'd', 'l', 'e', '-', 't', 'i', 'm', 'e', 'o', 'u', 't']) {
        return Some(PropertyKey::PlayerIdleTimeout);
    }
    if chars_eq(s, &['f', 'o', 'r', 'c', 'e', '-', 'g', 'a', 'm', 'e', 'm', 'o', 'd', 'e']) {
        return Some(PropertyKey::ForceGamemode);
    }
    if chars_eq(s, &['r', 'a', 't', 'e', '-', 'l', 'i', 'm', 'i', 't']) {
        return Some(PropertyKey::RateLimit);
    }
    if chars_eq(s, &['h', 'a', 'r', 'd', 'c', 'o', 'r', 'e']) {
        return Some(PropertyKey::Hardcore);
    }
    if chars_eq(s, &['w', 'h', 'i', 't', 'e', '-', 'l', 'i', 's', 't']) {
        return Some(PropertyKey::WhiteList);
    }
    if chars_eq(s, &['b', 'r', 'o', 'a', 'd', 'c', 'a', 's', 't', '-', 'c', 'o', 'n', 's', 'o', 'l', 'e', '-', 't', 'o', '-', 'o', 'p', 's']) {
        return Some(PropertyKey::BroadcastConsoleToOps);
    }
    if chars_eq(s, &['p', 'r', 'e', 'v', 'i', 'e', 'w', 's', '-', 'c', 'h', 'a', 't']) {
        return Some(PropertyKey::PreviewsChat);
    }
    if chars_eq(s, &['s', 'p', 'a', 'w', 'n', '-', 'n', 'p', 'c', 's']) {
        return Some(PropertyKey::SpawnNpcs);
    }
    if chars_eq(s, &['s', 'p', 'a', 'w', 'n', '-', 'a', 'n', 'i', 'm', 'a', 'l', 's']) {
        return Some(PropertyKey::SpawnAnimals);
    }
    if chars_eq(s, &['f', 'u', 'n', 'c', 't', 'i', 'o', 'n', '-', 'p', 'e', 'r', 'm', 'i', 's', 's', 'i', 'o', 'n', '-', 'l', 'e', 'v', 'e', 'l']) {
        return Some(PropertyKey::FunctionPermissionLevel);
    }
    if chars_eq(s, &['i', 'n', 'i', 't', 'i', 'a', 'l', '-', 'e', 'n', 'a', 'b', 'l', 'e', 'd', '-', 'p', 'a', 'c', 'k', 's']) {
        return Some(PropertyKey::InitialEnabledPacks);
    }
    if chars_eq(s, &['l', 'e', 'v', 'e', 'l', '-', 't', 'y', 'p', 'e']) {
        return Some(PropertyKey::LevelType);
    }
    if chars_eq(s, &['t', 'e', 'x', 't', '-', 'f', 'i', 'l', 't', 'e', 'r', 'i', 'n', 'g', '-', 'c', 'o', 'n', 'f', 'i', 'g']) {
        return Some(PropertyKey::TextFilteringConfig);
    }
    if chars_eq(s, &['s', 'p', 'a', 'w', 'n', '-', 'm', 'o', 'n', 's', 't', 'e', 'r', 's']) {
        return Some(PropertyKey::SpawnMonsters);
    }
    if chars_eq(s, &['e', 'n', 'f', 'o', 'r', 'c', 'e', '-', 'w', 'h', 'i', 't', 'e', 'l', 'i', 's', 't']) {
        return Some(PropertyKey::EnforceWhitelist);
    }
    if chars_eq(s, &['s', 'p', 'a', 'w', 'n', '-', 'p', 'r', 'o', 't', 'e', 'c', 't', 'i', 'o', 'n']) {
        return Some(PropertyKey::SpawnProtection);
    }
    if chars_eq(s, &['r', 'e', 's', 'o', 'u', 'r', 'c', 'e', '-', 'p', 'a', 'c', 'k', '-', 's', 'h', 'a', '1']) {
        return Some(PropertyKey::ResourcePackSha1);
    }
    if chars_eq(s, &['m', 'a', 'x', '-', 'w', 'o', 'r', 'l', 'd', '-', 's', 'i', 'z', 'e']) {
        return Some(PropertyKey::MaxWorldSize);
    }
    if chars_eq(s, &['m', 'a', 'x', '-', 'b', 'u', 'i', 'l', 'd', '-', 'h', 'e', 'i', 'g', 'h', 't']) {
        return Some(PropertyKey::MaxBuildHeight);
    }
    None
}

/// Every key's text names that key and holds no `=`.
#[verifier::rlimit(60)]
pub proof fn lemma_key_text(k: PropertyKey)
    ensures
        spec_key_of(spec_key_text(k)) == Some(k),
        !spec_key_text(k).contains('='),
        spec_key_text(k).len() > 0,
{
    match k {
        PropertyKey::EnableJmxMonitoring => {
            assert(spec_key_of(seq!['e', 'n', 'a', 'b', 'l', 'e', '-', 'j', 'm', 'x', '-', 'm', 'o', 'n', 'i', 't', 'o', 'r', 'i', 'n', 'g']) == Some(PropertyKey::EnableJmxMonitoring));
        },
        PropertyKey::RconPort => {
            assert(spec_key_of(seq!['r', 'c', 'o', 'n', '.', 'p', 'o', 'r', 't']) == Some(PropertyKey::RconPort));
        },
        PropertyKey::LevelSeed => {
            assert(spec_key_of(seq!['l', 'e', 'v', 'e', 'l', '-', 's', 'e', 'e', 'd']) == Some(PropertyKey::LevelSeed));
        },
        PropertyKey::Gamemode => {
            assert(spec_key_of(seq!['g', 'a', 'm', 'e', 'm', 'o', 'd', 'e']) == Some(PropertyKey::Gamemode));
        },
        PropertyKey::EnableCommandBlock => {
            assert(spec_key_of(seq!['e', 'n', 'a', 'b', 'l', 'e', '-', 'c', 'o', 'm', 'm', 'a', 'n', 'd', '-', 'b', 'l', 'o', 'c', 'k']) == Some(PropertyKey::EnableCommandBlock));
        },
        PropertyKey::EnableQuery => {
            assert(spec_key_of(seq!['e', 'n', 'a', 'b', 'l', 'e', '-', 'q', 'u', 'e', 'r', 'y']) == Some(PropertyKey::EnableQuery));
        },
        PropertyKey::GeneratorSettings => {
            assert(spec_key_of(seq!['g', 'e', 'n', 'e', 'r', 'a', 't', 'o', 'r', '-', 's', 'e', 't', 't', 'i', 'n', 'g', 's']) == Some(PropertyKey::GeneratorSettings));
        },
        PropertyKey::EnforceSecureProfile => {
            assert(spec_key_of(seq!['e', 'n', 'f', 'o', 'r', 'c', 'e', '-', 's', 'e', 'c', 'u', 'r', 'e', '-', 'p', 'r', 'o', 'f', 'i', 'l', 'e']) == Some(PropertyKey::EnforceSecureProfile));
        },
        PropertyKey::LevelName => {
            assert(spec_key_of(seq!['l', 'e', 'v', 'e', 'l', '-', 'n', 'a', 'm', 'e']) == Some(PropertyKey::LevelName));
        },
        PropertyKey::Motd => {
            assert(spec_key_of(seq!['m', 'o', 't', 'd']) == Some(PropertyKey::Motd));
        },
        PropertyKey::QueryPort => {
            assert(spec_key_of(seq!['q', 'u', 'e', 'r', 'y', '.', 'p', 'o', 'r', 't']) == Some(PropertyKey::QueryPort));
        },
        PropertyKey::Pvp => {
            assert(spec_key_of(seq!['p', 'v', 'p']) == Some(PropertyKey::Pvp));
        },
        PropertyKey::GenerateStructures => {
            assert(spec_key_of(seq!['g', 'e', 'n', 'e', 'r', 'a', 't', 'e', '-', 's', 't', 'r', 'u', 'c', 't', 'u', 'r', 'e', 's']) == Some(PropertyKey::GenerateStructures));
        },
        PropertyKey::MaxChainedNeighborUpdates => {
            assert(spec_key_of(seq!['m', 'a', 'x', '-', 'c', 'h', 'a', 'i', 'n', 'e', 'd', '-', 'n', 'e', 'i', 'g', 'h', 'b', 'o', 'r', '-', 'u', 'p', 'd', 'a', 't', 'e', 's']) == Some(PropertyKey::MaxChainedNeighborUpdates));
        },
        PropertyKey::Difficulty => {
            assert(spec_key_of(seq!['d', 'i', 'f', 'f', 'i', 'c', 'u', 'l', 't', 'y']) == Some(PropertyKey::Difficulty));
        },
        PropertyKey::NetworkCompressionThreshold => {
            assert(spec_key_of(seq!['n', 'e', 't', 'w', 'o', 'r', 'k', '-', 'c', 'o', 'm', 'p', 'r', 'e', 's', 's', 'i', 'o', 'n', '-', 't', 'h', 'r', 'e', 's', 'h', 'o', 'l', 'd']) == Some(PropertyKey::NetworkCompressionThreshold));
        },
        PropertyKey::RequireResourcePack => {
            assert(spec_key_of(seq!['r', 'e', 'q', 'u', 'i', 'r', 'e', '-', 'r', 'e', 's', 'o', 'u', 'r', 'c', 'e', '-', 'p', 'a', 'c', 'k']) == Some(PropertyKey::RequireResourcePack));
        },
        PropertyKey::MaxTickTime => {
            assert(spec_key_of(seq!['m', 'a', 'x', '-', 't', 'i', 'c', 'k', '-', 't', 'i', 'm', 'e']) == Some(PropertyKey::MaxTickTime));
        },
        PropertyKey::MaxPlayers => {
            assert(spec_key_of(seq!['m', 'a', 'x', '-', 'p', 'l', 'a', 'y', 'e', 'r', 's']) == Some(PropertyKey::MaxPlayers));
        },
        PropertyKey::UseNativeTransport => {
            assert(spec_key_of(seq!['u', 's', 'e', '-', 'n', 'a', 't', 'i', 'v', 'e', '-', 't', 'r', 'a', 'n', 's', 'p', 'o', 'r', 't']) == Some(PropertyKey::UseNativeTransport));
        },
        PropertyKey::OnlineMode => {
            assert(spec_key_of(seq!['o', 'n', 'l', 'i', 'n', 'e', '-', 'm', 'o', 'd', 'e']) == Some(PropertyKey::OnlineMode));
        },
        PropertyKey::EnableStatus => {
            assert(spec_key_of(seq!['e', 'n', 'a', 'b', 'l', 'e', '-', 's', 't', 'a', 't', 'u', 's']) == Some(PropertyKey::EnableStatus));
        },
        PropertyKey::AllowFlight => {
            assert(spec_key_of(seq!['a', 'l', 'l', 'o', 'w', '-', 'f', 'l', 'i', 'g', 'h', 't']) == Some(PropertyKey::AllowFlight));
        },
        PropertyKey::InitialDisabledPacks => {
            assert(spec_key_of(seq!['i', 'n', 'i', 't', 'i', 'a', 'l', '-', 'd', 'i', 's', 'a', 'b', 'l', 'e', 'd', '-', 'p', 'a', 'c', 'k', 's']) == Some(PropertyKey::InitialDisabledPacks));
        },
        PropertyKey::BroadcastRconToOps => {
            assert(spec_key_of(seq!['b', 'r', 'o', 'a', 'd', 'c', 'a', 's', 't', '-', 'r', 'c', 'o', 'n', '-', 't', 'o', '-', 'o', 'p', 's']) == Some(PropertyKey::BroadcastRconToOps));
        },
        PropertyKey::ViewDistance => {
            assert(spec_key_of(seq!['v', 'i', 'e', 'w', '-', 'd', 'i', 's', 't', 'a', 'n', 'c', 'e']) == Some(PropertyKey::ViewDistance));
        },
        PropertyKey::ResourcePackPrompt => {
            assert(spec_key_of(seq!['r', 'e', 's', 'o', 'u', 'r', 'c', 'e', '-', 'p', 'a', 'c', 'k', '-', 'p', 'r', 'o', 'm', 'p', 't']) == Some(PropertyKey::ResourcePackPrompt));
        },
        PropertyKey::ServerIp => {
            assert(spec_key_of(seq!['s', 'e', 'r', 'v', 'e', 'r', '-', 'i', 'p']) == Some(PropertyKey::ServerIp));
        },
        PropertyKey::AllowNether => {
            assert(spec_key_of(seq!['a', 'l', 'l', 'o', 'w', '-', 'n', 'e', 't', 'h', 'e', 'r']) == Some(PropertyKey::AllowNether));
        },
        PropertyKey::ServerPort => {
            assert(spec_key_of(seq!['s', 'e', 'r', 'v', 'e', 'r', '-', 'p', 'o', 'r', 't']) == Some(PropertyKey::ServerPort));
        },
        PropertyKey::EnableRcon => {
            assert(spec_key_of(seq!['e', 'n', 'a', 'b', 'l', 'e', '-', 'r', 'c', 'o', 'n']) == Some(PropertyKey::EnableRcon));
        },
        PropertyKey::SyncChunkWrites => {
            assert(spec_key_of(seq!['s', 'y', 'n', 'c', '-', 'c', 'h', 'u', 'n', 'k', '-', 'w', 'r', 'i', 't', 'e', 's']) == Some(PropertyKey::SyncChunkWrites));
        },
        PropertyKey::OpPermissionLevel => {
            assert(spec_key_of(seq!['o', 'p', '-', 'p', 'e', 'r', 'm', 'i', 's', 's', 'i', 'o', 'n', '-', 'l', 'e', 'v', 'e', 'l']) == Some(PropertyKey::OpPermissionLevel));
        },
        PropertyKey::PreventProxyConnections => {
            assert(spec_key_of(seq!['p', 'r', 'e', 'v', 'e', 'n', 't', '-', 'p', 'r', 'o', 'x', 'y', '-', 'c', 'o', 'n', 'n', 'e', 'c', 't', 'i', 'o', 'n', 's']) == Some(PropertyKey::PreventProxyConnections));
        },
        PropertyKey::HideOnlinePlayers => {
            assert(spec_key_of(seq!['h', 'i', 'd', 'e', '-', 'o', 'n', 'l', 'i', 'n', 'e', '-', 'p', 'l', 'a', 'y', 'e', 'r', 's']) == Some(PropertyKey::HideOnlinePlayers));
        },
        PropertyKey::ResourcePack => {
            assert(seq!['r', 'e', 's', 'o', 'u', 'r', 'c', 'e', '-', 'p', 'a', 'c', 'k', '-', 'p', 'r', 'o', 'm', 'p', 't'].len() != seq!['r', 'e', 's', 'o', 'u', 'r', 'c', 'e', '-', 'p', 'a', 'c', 'k'].len());
            assert(spec_key_of(seq!['r', 'e', 's', 'o', 'u', 'r', 'c', 'e', '-', 'p', 'a', 'c', 'k']) == Some(PropertyKey::ResourcePack));
        },
        PropertyKey::EntityBroadcastRangePercentage => {
            assert(spec_key_of(seq!['e', 'n', 't', 'i', 't', 'y', '-', 'b', 'r', 'o', 'a', 'd', 'c', 'a', 's', 't', '-', 'r', 'a', 'n', 'g', 'e', '-', 'p', 'e', 'r', 'c', 'e', 'n', 't', 'a', 'g', 'e']) == Some(PropertyKey::EntityBroadcastRangePercentage));
        },
        PropertyKey::SimulationDistance => {
            assert(spec_key_of(seq!['s', 'i', 'm', 'u', 'l', 'a', 't', 'i', 'o', 'n', '-', 'd', 'i', 's', 't', 'a', 'n', 'c', 'e']) == Some(PropertyKey::SimulationDistance));
        },
        PropertyKey::RconPassword => {
            assert(spec_key_of(seq!['r', 'c', 'o', 'n', '.', 'p', 'a', 's', 's', 'w', 'o', 'r', 'd']) == Some(PropertyKey::RconPassword));
        },
        PropertyKey::PlayerIdleTimeout => {
            assert(spec_key_of(seq!['p', 'l', 'a', 'y', 'e', 'r', '-', 'i', 'd', 'l', 'e', '-', 't', 'i', 'm', 'e', 'o', 'u', 't']) == Some(PropertyKey::PlayerIdleTimeout));
        },
        PropertyKey::ForceGamemode => {
            assert(spec_key_of(seq!['f', 'o', 'r', 'c', 'e', '-', 'g', 'a', 'm', 'e', 'm', 'o', 'd', 'e']) == Some(PropertyKey::ForceGamemode));
        },
        PropertyKey::RateLimit => {
            assert(spec_key_of(seq!['r', 'a', 't', 'e', '-', 'l', 'i', 'm', 'i', 't']) == Some(PropertyKey::RateLimit));
        },
        PropertyKey::Hardcore => {
            assert(spec_key_of(seq!['h', 'a', 'r', 'd', 'c', 'o', 'r', 'e']) == Some(PropertyKey::Hardcore));
        },
        PropertyKey::WhiteList => {
            assert(spec_key_of(seq!['w', 'h', 'i', 't', 'e', '-', 'l', 'i', 's', 't']) == Some(PropertyKey::WhiteList));
        },
        PropertyKey::BroadcastConsoleToOps => {
            assert(spec_key_of(seq!['b', 'r', 'o', 'a', 'd', 'c', 'a', 's', 't', '-', 'c', 'o', 'n', 's', 'o', 'l', 'e', '-', 't', 'o', '-', 'o', 'p', 's']) == Some(PropertyKey::BroadcastConsoleToOps));
        },
        PropertyKey::PreviewsChat => {
            assert(spec_key_of(seq!['p', 'r', 'e', 'v', 'i', 'e', 'w', 's', '-', 'c', 'h', 'a', 't']) == Some(PropertyKey::PreviewsChat));
        },
        PropertyKey::SpawnNpcs => {
            assert(spec_key_of(seq!['s', 'p', 'a', 'w', 'n', '-', 'n', 'p', 'c', 's']) == Some(PropertyKey::SpawnNpcs));
        },
        PropertyKey::SpawnAnimals => {
            assert(spec_key_of(seq!['s', 'p', 'a', 'w', 'n', '-', 'a', 'n', 'i', 'm', 'a', 'l', 's']) == Some(PropertyKey::SpawnAnimals));
        },
        PropertyKey::FunctionPermissionLevel => {
            assert(spec_key_of(seq!['f', 'u', 'n', 'c', 't', 'i', 'o', 'n', '-', 'p', 'e', 'r', 'm', 'i', 's', 's', 'i', 'o', 'n', '-', 'l', 'e', 'v', 'e', 'l']) == Some(PropertyKey::FunctionPermissionLevel));
        },
        PropertyKey::InitialEnabledPacks => {
            assert(spec_key_of(seq!['i', 'n', 'i', 't', 'i', 'a', 'l', '-', 'e', 'n', 'a', 'b', 'l', 'e', 'd', '-', 'p', 'a', 'c', 'k', 's']) == Some(PropertyKey::InitialEnabledPacks));
        },
        PropertyKey::LevelType => {
            assert(spec_key_of(seq!['l', 'e', 'v', 'e', 'l', '-', 't', 'y', 'p', 'e']) == Some(PropertyKey::LevelType));
        },
        PropertyKey::TextFilteringConfig => {
            assert(spec_key_of(seq!['t', 'e', 'x', 't', '-', 'f', 'i', 'l', 't', 'e', 'r', 'i', 'n', 'g', '-', 'c', 'o', 'n', 'f', 'i', 'g']) == Some(PropertyKey::TextFilteringConfig));
        },
        PropertyKey::SpawnMonsters => {
            assert(spec_key_of(seq!['s', 'p', 'a', 'w', 'n', '-', 'm', 'o', 'n', 's', 't', 'e', 'r', 's']) == Some(PropertyKey::SpawnMonsters));
        },
        PropertyKey::EnforceWhitelist => {
            assert(spec_key_of(seq!['e', 'n', 'f', 'o', 'r', 'c', 'e', '-', 'w', 'h', 'i', 't', 'e', 'l', 'i', 's', 't']) == Some(PropertyKey::EnforceWhitelist));
        },
        PropertyKey::SpawnProtection => {
            assert(spec_key_of(seq!['s', 'p', 'a', 'w', 'n', '-', 'p', 'r', 'o', 't', 'e', 'c', 't', 'i', 'o', 'n']) == Some(PropertyKey::SpawnProtection));
        },
        PropertyKey::ResourcePackSha1 => {
            assert(seq!['r', 'e', 's', 'o', 'u', 'r', 'c', 'e', '-', 'p', 'a', 'c', 'k'].len() != seq!['r', 'e', 's', 'o', 'u', 'r', 'c', 'e', '-', 'p', 'a', 'c', 'k', '-', 's', 'h', 'a', '1'].len());
            assert(spec_key_of(seq!['r', 'e', 's', 'o', 'u', 'r', 'c', 'e', '-', 'p', 'a', 'c', 'k', '-', 's', 'h', 'a', '1']) == Some(PropertyKey::ResourcePackSha1));
        },
        PropertyKey::MaxWorldSize => {
            assert(spec_key_of(seq!['m', 'a', 'x', '-', 'w', 'o', 'r', 'l', 'd', '-', 's', 'i', 'z', 'e']) == Some(PropertyKey::MaxWorldSize));
        },
        PropertyKey::MaxBuildHeight => {
            assert(spec_key_of(seq!['m', 'a', 'x', '-', 'b', 'u', 'i', 'l', 'd', '-', 'h', 'e', 'i', 'g', 'h', 't']) == Some(PropertyKey::MaxBuildHeight));
        },
    }
}

#[derive(Debug, Clone, PartialEq, Eq)]
pub enum ServerPropertySetting {
    EnableJmxMonitoring(bool),
    RconPort(u16),
    LevelSeed(String),
    Gamemode(Gamemode),
    EnableCommandBlock(bool),
    EnableQuery(bool),
    GeneratorSettings(String),
    EnforceSecureProfile(bool),
    LevelName(String),
    Motd(String),
    QueryPort(u16),
    Pvp(bool),
    GenerateStructures(bool),
    MaxChainedNeighborUpdates(u32),
    Difficulty(Difficulty),
    NetworkCompressionThreshold(u32),
    RequireResourcePack(bool),
    MaxTickTime(u32),
    MaxPlayers(u32),
    UseNativeTransport(bool),
    OnlineMode(bool),
    EnableStatus(bool),
    AllowFlight(bool),
    InitialDisabledPacks(String),
    BroadcastRconToOps(bool),
    ViewDistance(u32),
    ResourcePackPrompt(String),
    ServerIp(String),
    AllowNether(bool),
    ServerPort(u16),
    EnableRcon(bool),
    SyncChunkWrites(bool),
    OpPermissionLevel(u32),
    PreventProxyConnections(bool),
    HideOnlinePlayers(bool),
    ResourcePack(String),
    EntityBroadcastRangePercentage(u32),
    SimulationDistance(u32),
    RconPassword(String),
    PlayerIdleTimeout(u32),
    ForceGamemode(bool),
    RateLimit(u32),
    Hardcore(bool),
    WhiteList(bool),
    BroadcastConsoleToOps(bool),
    PreviewsChat(bool),
    SpawnNpcs(bool),
    SpawnAnimals(bool),
    FunctionPermissionLevel(u32),
    InitialEnabledPacks(String),
    LevelType(String),
    TextFilteringConfig(String),
    SpawnMonsters(bool),
    EnforceWhitelist(bool),
    SpawnProtection(u32),
    ResourcePackSha1(String),
    MaxWorldSize(u32),
    MaxBuildHeight(u32),
    Unknown(String, String),
}

/// The mathematical value of a server property.
pub enum ServerPropertyView {
    EnableJmxMonitoring(bool),
    RconPort(u16),
    LevelSeed(Seq<char>),
    Gamemode(Gamemode),
    EnableCommandBlock(bool),
    EnableQuery(bool),
    GeneratorSettings(Seq<char>),
    EnforceSecureProfile(bool),
    LevelName(Seq<char>),
    Motd(Seq<char>),
    QueryPort(u16),
    Pvp(bool),
    GenerateStructures(bool),
    MaxChainedNeighborUpdates(u32),
    Difficulty(Difficulty),
    NetworkCompressionThreshold(u32),
    RequireResourcePack(bool),
    MaxTickTime(u32),
    MaxPlayers(u32),
    UseNativeTransport(bool),
    OnlineMode(bool),
    EnableStatus(bool),
    AllowFlight(bool),
    InitialDisabledPacks(Seq<char>),
    BroadcastRconToOps(bool),
    ViewDistance(u32),
    ResourcePackPrompt(Seq<char>),
    ServerIp(Seq<char>),
    AllowNether(bool),
    ServerPort(u16),
    EnableRcon(bool),
    SyncChunkWrites(bool),
    OpPermissionLevel(u32),
    PreventProxyConnections(bool),
    HideOnlinePlayers(bool),
    ResourcePack(Seq<char>),
    EntityBroadcastRangePercentage(u32),
    SimulationDistance(u32),
    RconPassword(Seq<char>),
    PlayerIdleTimeout(u32),
    ForceGamemode(bool),
    RateLimit(u32),
    Hardcore(bool),
    WhiteList(bool),
    BroadcastConsoleToOps(bool),
    PreviewsChat(bool),
    SpawnNpcs(bool),
    SpawnAnimals(bool),
    FunctionPermissionLevel(u32),
    InitialEnabledPacks(Seq<char>),
    LevelType(Seq<char>),
    TextFilteringConfig(Seq<char>),
    SpawnMonsters(bool),
    EnforceWhitelist(bool),
    SpawnProtection(u32),
    ResourcePackSha1(Seq<char>),
    MaxWorldSize(u32),
    MaxBuildHeight(u32),
    Unknown(Seq<char>, Seq<char>),
}

impl View for ServerPropertySetting {
    type V = ServerPropertyView;

    open spec fn view(&self) -> ServerPropertyView {
        match self {
            ServerPropertySetting::EnableJmxMonitoring(x) => ServerPropertyView::EnableJmxMonitoring(*x),
            ServerPropertySetting::RconPort(x) => ServerPropertyView::RconPort(*x),
            ServerPropertySetting::LevelSeed(x) => ServerPropertyView::LevelSeed(x@),
            ServerPropertySetting::Gamemode(x) => ServerPropertyView::Gamemode(*x),
            ServerPropertySetting::EnableCommandBlock(x) => ServerPropertyView::EnableCommandBlock(*x),
            ServerPropertySetting::EnableQuery(x) => ServerPropertyView::EnableQuery(*x),
            ServerPropertySetting::GeneratorSettings(x) => ServerPropertyView::GeneratorSettings(x@),
            ServerPropertySetting::EnforceSecureProfile(x) => ServerPropertyView::EnforceSecureProfile(*x),
            ServerPropertySetting::LevelName(x) => ServerPropertyView::LevelName(x@),
            ServerPropertySetting::Motd(x) => ServerPropertyView::Motd(x@),
            ServerPropertySetting::QueryPort(x) => ServerPropertyView::QueryPort(*x),
            ServerPropertySetting::Pvp(x) => ServerPropertyView::Pvp(*x),
            ServerPropertySetting::GenerateStructures(x) => ServerPropertyView::GenerateStructures(*x),
            ServerPropertySetting::MaxChainedNeighborUpdates(x) => ServerPropertyView::MaxChainedNeighborUpdates(*x),
            ServerPropertySetting::Difficulty(x) => ServerPropertyView::Difficulty(*x),
            ServerPropertySetting::NetworkCompressionThreshold(x) => ServerPropertyView::NetworkCompressionThreshold(*x),
            ServerPropertySetting::RequireResourcePack(x) => ServerPropertyView::RequireResourcePack(*x),
            ServerPropertySetting::MaxTickTime(x) => ServerPropertyView::MaxTickTime(*x),
            ServerPropertySetting::MaxPlayers(x) => ServerPropertyView::MaxPlayers(*x),
            ServerPropertySetting::UseNativeTransport(x) => ServerPropertyView::UseNativeTransport(*x),
            ServerPropertySetting::OnlineMode(x) => ServerPropertyView::OnlineMode(*x),
            ServerPropertySetting::EnableStatus(x) => ServerPropertyView::EnableStatus(*x),
            ServerPropertySetting::AllowFlight(x) => ServerPropertyView::AllowFlight(*x),
            ServerPropertySetting::InitialDisabledPacks(x) => ServerPropertyView::InitialDisabledPacks(x@),
            ServerPropertySetting::BroadcastRconToOps(x) => ServerPropertyView::BroadcastRconToOps(*x),
            ServerPropertySetting::ViewDistance(x) => ServerPropertyView::ViewDistance(*x),
            ServerPropertySetting::ResourcePackPrompt(x) => ServerPropertyView::ResourcePackPrompt(x@),
            ServerPropertySetting::ServerIp(x) => ServerPropertyView::ServerIp(x@),
            ServerPropertySetting::AllowNether(x) => ServerPropertyView::AllowNether(*x),
            ServerPropertySetting::ServerPort(x) => ServerPropertyView::ServerPort(*x),
            ServerPropertySetting::EnableRcon(x) => ServerPropertyView::EnableRcon(*x),
            ServerPropertySetting::SyncChunkWrites(x) => ServerPropertyView::SyncChunkWrites(*x),
            ServerPropertySetting::OpPermissionLevel(x) => ServerPropertyView::OpPermissionLevel(*x),
            ServerPropertySetting::PreventProxyConnections(x) => ServerPropertyView::PreventProxyConnections(*x),
            ServerPropertySetting::HideOnlinePlayers(x) => ServerPropertyView::HideOnlinePlayers(*x),
            ServerPropertySetting::ResourcePack(x) => ServerPropertyView::ResourcePack(x@),
            ServerPropertySetting::EntityBroadcastRangePercentage(x) => ServerPropertyView::EntityBroadcastRangePercentage(*x),
            ServerPropertySetting::SimulationDistance(x) => ServerPropertyView::SimulationDistance(*x),
            ServerPropertySetting::RconPassword(x) => ServerPropertyView::RconPassword(x@),
            ServerPropertySetting::PlayerIdleTimeout(x) => ServerPropertyView::PlayerIdleTimeout(*x),
            ServerPropertySetting::ForceGamemode(x) => ServerPropertyView::ForceGamemode(*x),
            ServerPropertySetting::RateLimit(x) => ServerPropertyView::RateLimit(*x),
            ServerPropertySetting::Hardcore(x) => ServerPropertyView::Hardcore(*x),
            ServerPropertySetting::WhiteList(x) => ServerPropertyView::WhiteList(*x),
            ServerPropertySetting::BroadcastConsoleToOps(x) => ServerPropertyView::BroadcastConsoleToOps(*x),
            ServerPropertySetting::PreviewsChat(x) => ServerPropertyView::PreviewsChat(*x),
            ServerPropertySetting::SpawnNpcs(x) => ServerPropertyView::SpawnNpcs(*x),
            ServerPropertySetting::SpawnAnimals(x) => ServerPropertyView::SpawnAnimals(*x),
            ServerPropertySetting::FunctionPermissionLevel(x) => ServerPropertyView::FunctionPermissionLevel(*x),
            ServerPropertySetting::InitialEnabledPacks(x) => ServerPropertyView::InitialEnabledPacks(x@),
            ServerPropertySetting::LevelType(x) => ServerPropertyView::LevelType(x@),
            ServerPropertySetting::TextFilteringConfig(x) => ServerPropertyView::TextFilteringConfig(x@),
            ServerPropertySetting::SpawnMonsters(x) => ServerPropertyView::SpawnMonsters(*x),
            ServerPropertySetting::EnforceWhitelist(x) => ServerPropertyView::EnforceWhitelist(*x),
            ServerPropertySetting::SpawnProtection(x) => ServerPropertyView::SpawnProtection(*x),
            ServerPropertySetting::ResourcePackSha1(x) => ServerPropertyView::ResourcePackSha1(x@),
            ServerPropertySetting::MaxWorldSize(x) => ServerPropertyView::MaxWorldSize(*x),
            ServerPropertySetting::MaxBuildHeight(x) => ServerPropertyView::MaxBuildHeight(*x),
            ServerPropertySetting::Unknown(k, x) => ServerPropertyView::Unknown(k@, x@),
        }
    }
}

/// The known key of a property; `None` for an unknown one.
pub open spec fn spec_property_key(p: ServerPropertyView) -> Option<PropertyKey> {
    match p {
        ServerPropertyView::EnableJmxMonitoring(_) => Some(PropertyKey::EnableJmxMonitoring),
        ServerPropertyView::RconPort(_) => Some(PropertyKey::RconPort),
        ServerPropertyView::LevelSeed(_) => Some(PropertyKey::LevelSeed),
        ServerPropertyView::Gamemode(_) => Some(PropertyKey::Gamemode),
        ServerPropertyView::EnableCommandBlock(_) => Some(PropertyKey::EnableCommandBlock),
        ServerPropertyView::EnableQuery(_) => Some(PropertyKey::EnableQuery),
        ServerPropertyView::GeneratorSettings(_) => Some(PropertyKey::GeneratorSettings),
        ServerPropertyView::EnforceSecureProfile(_) => Some(PropertyKey::EnforceSecureProfile),
        ServerPropertyView::LevelName(_) => Some(PropertyKey::LevelName),
        ServerPropertyView::Motd(_) => Some(PropertyKey::Motd),
        ServerPropertyView::QueryPort(_) => Some(PropertyKey::QueryPort),
        ServerPropertyView::Pvp(_) => Some(PropertyKey::Pvp),
        ServerPropertyView::GenerateStructures(_) => Some(PropertyKey::GenerateStructures),
        ServerPropertyView::MaxChainedNeighborUpdates(_) => Some(PropertyKey::MaxChainedNeighborUpdates),
        ServerPropertyView::Difficulty(_) => Some(PropertyKey::Difficulty),
        ServerPropertyView::NetworkCompressionThreshold(_) => Some(PropertyKey::NetworkCompressionThreshold),
        ServerPropertyView::RequireResourcePack(_) => Some(PropertyKey::RequireResourcePack),
        ServerPropertyView::MaxTickTime(_) => Some(PropertyKey::MaxTickTime),
        ServerPropertyView::MaxPlayers(_) => Some(PropertyKey::MaxPlayers),
        ServerPropertyView::UseNativeTransport(_) => Some(PropertyKey::UseNativeTransport),
        ServerPropertyView::OnlineMode(_) => Some(PropertyKey::OnlineMode),
        ServerPropertyView::EnableStatus(_) => Some(PropertyKey::EnableStatus),
        ServerPropertyView::AllowFlight(_) => Some(PropertyKey::AllowFlight),
        ServerPropertyView::InitialDisabledPacks(_) => Some(PropertyKey::InitialDisabledPacks),
        ServerPropertyView::BroadcastRconToOps(_) => Some(PropertyKey::BroadcastRconToOps),
        ServerPropertyView::ViewDistance(_) => Some(PropertyKey::ViewDistance),
        ServerPropertyView::ResourcePackPrompt(_) => Some(PropertyKey::ResourcePackPrompt),
        ServerPropertyView::ServerIp(_) => Some(PropertyKey::ServerIp),
        ServerPropertyView::AllowNether(_) => Some(PropertyKey::AllowNether),
        ServerPropertyView::ServerPort(_) => Some(PropertyKey::ServerPort),
        ServerPropertyView::EnableRcon(_) => Some(PropertyKey::EnableRcon),
        ServerPropertyView::SyncChunkWrites(_) => Some(PropertyKey::SyncChunkWrites),
        ServerPropertyView::OpPermissionLevel(_) => Some(PropertyKey::OpPermissionLevel),
        ServerPropertyView::PreventProxyConnections(_) => Some(PropertyKey::PreventProxyConnections),
        ServerPropertyView::HideOnlinePlayers(_) => Some(PropertyKey::HideOnlinePlayers),
        ServerPropertyView::ResourcePack(_) => Some(PropertyKey::ResourcePack),
        ServerPropertyView::EntityBroadcastRangePercentage(_) => Some(PropertyKey::EntityBroadcastRangePercentage),
        ServerPropertyView::SimulationDistance(_) => Some(PropertyKey::SimulationDistance),
        ServerPropertyView::RconPassword(_) => Some(PropertyKey::RconPassword),
        ServerPropertyView::PlayerIdleTimeout(_) => Some(PropertyKey::PlayerIdleTimeout),
        ServerPropertyView::ForceGamemode(_) => Some(PropertyKey::ForceGamemode),
        ServerPropertyView::RateLimit(_) => Some(PropertyKey::RateLimit),
        ServerPropertyView::Hardcore(_) => Some(PropertyKey::Hardcore),
        ServerPropertyView::WhiteList(_) => Some(PropertyKey::WhiteList),
        ServerPropertyView::BroadcastConsoleToOps(_) => Some(PropertyKey::BroadcastConsoleToOps),
        ServerPropertyView::PreviewsChat(_) => Some(PropertyKey::PreviewsChat),
        ServerPropertyView::SpawnNpcs(_) => Some(PropertyKey::SpawnNpcs),
        ServerPropertyView::SpawnAnimals(_) => Some(PropertyKey::SpawnAnimals),
        ServerPropertyView::FunctionPermissionLevel(_) => Some(PropertyKey::FunctionPermissionLevel),
        ServerPropertyView::InitialEnabledPacks(_) => Some(PropertyKey::InitialEnabledPacks),
        ServerPropertyView::LevelType(_) => Some(PropertyKey::LevelType),
        ServerPropertyView::TextFilteringConfig(_) => Some(PropertyKey::TextFilteringConfig),
        ServerPropertyView::SpawnMonsters(_) => Some(PropertyKey::SpawnMonsters),
        ServerPropertyView::EnforceWhitelist(_) => Some(PropertyKey::EnforceWhitelist),
        ServerPropertyView::SpawnProtection(_) => Some(PropertyKey::SpawnProtection),
        ServerPropertyView::ResourcePackSha1(_) => Some(PropertyKey::ResourcePackSha1),
        ServerPropertyView::MaxWorldSize(_) => Some(PropertyKey::MaxWorldSize),
        ServerPropertyView::MaxBuildHeight(_) => Some(PropertyKey::MaxBuildHeight),
        ServerPropertyView::Unknown(_, _) => None,
    }
}

/// The key a property is written under.
pub open spec fn spec_identifier(p: ServerPropertyView) -> Seq<char> {
    match spec_property_key(p) {
        Some(k) => spec_key_text(k),
        None => p->Unknown_0,
    }
}

/// The text of a property's value.
pub open spec fn spec_property_value_text(p: ServerPropertyView) -> Seq<char> {
    match p {
        ServerPropertyView::EnableJmxMonitoring(x) => spec_bool_text(x),
        ServerPropertyView::RconPort(x) => spec_decimal(x as nat),
        ServerPropertyView::LevelSeed(x) => x,
        ServerPropertyView::Gamemode(x) => spec_gamemode_text(x),
        ServerPropertyView::EnableCommandBlock(x) => spec_bool_text(x),
        ServerPropertyView::EnableQuery(x) => spec_bool_text(x),
        ServerPropertyView::GeneratorSettings(x) => x,
        ServerPropertyView::EnforceSecureProfile(x) => spec_bool_text(x),
        ServerPropertyView::LevelName(x) => x,
        ServerPropertyView::Motd(x) => x,
        ServerPropertyView::QueryPort(x) => spec_decimal(x as nat),
        ServerPropertyView::Pvp(x) => spec_bool_text(x),
        ServerPropertyView::GenerateStructures(x) => spec_bool_text(x),
        ServerPropertyView::MaxChainedNeighborUpdates(x) => spec_decimal(x as nat),
        ServerPropertyView::Difficulty(x) => spec_difficulty_text(x),
        ServerPropertyView::NetworkCompressionThreshold(x) => spec_decimal(x as nat),
        ServerPropertyView::RequireResourcePack(x) => spec_bool_text(x),
        ServerPropertyView::MaxTickTime(x) => spec_decimal(x as nat),
        ServerPropertyView::MaxPlayers(x) => spec_decimal(x as nat),
        ServerPropertyView::UseNativeTransport(x) => spec_bool_text(x),
        ServerPropertyView::OnlineMode(x) => spec_bool_text(x),
        ServerPropertyView::EnableStatus(x) => spec_bool_text(x),
        ServerPropertyView::AllowFlight(x) => spec_bool_text(x),
        ServerPropertyView::InitialDisabledPacks(x) => x,
        ServerPropertyView::BroadcastRconToOps(x) => spec_bool_text(x),
        ServerPropertyView::ViewDistance(x) => spec_decimal(x as nat),
        ServerPropertyView::ResourcePackPrompt(x) => x,
        ServerPropertyView::ServerIp(x) => x,
        ServerPropertyView::AllowNether(x) => spec_bool_text(x),
        ServerPropertyView::ServerPort(x) => spec_decimal(x as nat),
        ServerPropertyView::EnableRcon(x) => spec_bool_text(x),
        ServerPropertyView::SyncChunkWrites(x) => spec_bool_text(x),
        ServerPropertyView::OpPermissionLevel(x) => spec_decimal(x as nat),
        ServerPropertyView::PreventProxyConnections(x) => spec_bool_text(x),
        ServerPropertyView::HideOnlinePlayers(x) => spec_bool_text(x),
        ServerPropertyView::ResourcePack(x) => x,
        ServerPropertyView::EntityBroadcastRangePercentage(x) => spec_decimal(x as nat),
        ServerPropertyView::SimulationDistance(x) => spec_decimal(x as nat),
        ServerPropertyView::RconPassword(x) => x,
        ServerPropertyView::PlayerIdleTimeout(x) => spec_decimal(x as nat),
        ServerPropertyView::ForceGamemode(x) => spec_bool_text(x),
        ServerPropertyView::RateLimit(x) => spec_decimal(x as nat),
        ServerPropertyView::Hardcore(x) => spec_bool_text(x),
        ServerPropertyView::WhiteList(x) => spec_bool_text(x),
        ServerPropertyView::BroadcastConsoleToOps(x) => spec_bool_text(x),
        ServerPropertyView::PreviewsChat(x) => spec_bool_text(x),
        ServerPropertyView::SpawnNpcs(x) => spec_bool_text(x),
        ServerPropertyView::SpawnAnimals(x) => spec_bool_text(x),
        ServerPropertyView::FunctionPermissionLevel(x) => spec_decimal(x as nat),
        ServerPropertyView::InitialEnabledPacks(x) => x,
        ServerPropertyView::LevelType(x) => x,
        ServerPropertyView::TextFilteringConfig(x) => x,
        ServerPropertyView::SpawnMonsters(x) => spec_bool_text(x),
        ServerPropertyView::EnforceWhitelist(x) => spec_bool_text(x),
        ServerPropertyView::SpawnProtection(x) => spec_decimal(x as nat),
        ServerPropertyView::ResourcePackSha1(x) => x,
        ServerPropertyView::MaxWorldSize(x) => spec_decimal(x as nat),
        ServerPropertyView::MaxBuildHeight(x) => spec_decimal(x as nat),
        ServerPropertyView::Unknown(_, x) => x,
    }
}

/// The `key=value` line of a property.
pub open spec fn spec_to_line(p: ServerPropertyView) -> Seq<char> {
    spec_identifier(p) + seq!['='] + spec_property_value_text(p)
}

/// The property a known key and a value text give, if the text is a valid
/// value for the key.
pub open spec fn spec_value_for(k: PropertyKey, value: Seq<char>) -> Option<ServerPropertyView> {
    match k {
        PropertyKey::EnableJmxMonitoring => match spec_parse_bool(value) { Some(x) => Some(ServerPropertyView::EnableJmxMonitoring(x)), None => None },
        PropertyKey::RconPort => match spec_parse_unsigned(value, u16::MAX as nat) { Some(x) => Some(ServerPropertyView::RconPort(x as u16)), None => None },
        PropertyKey::LevelSeed => Some(ServerPropertyView::LevelSeed(value)),
        PropertyKey::Gamemode => match spec_parse_gamemode(value) { Some(x) => Some(ServerPropertyView::Gamemode(x)), None => None },
        PropertyKey::EnableCommandBlock => match spec_parse_bool(value) { Some(x) => Some(ServerPropertyView::EnableCommandBlock(x)), None => None },
        PropertyKey::EnableQuery => match spec_parse_bool(value) { Some(x) => Some(ServerPropertyView::EnableQuery(x)), None => None },
        PropertyKey::GeneratorSettings => Some(ServerPropertyView::GeneratorSettings(value)),
        PropertyKey::EnforceSecureProfile => match spec_parse_bool(value) { Some(x) => Some(ServerPropertyView::EnforceSecureProfile(x)), None => None },
        PropertyKey::LevelName => Some(ServerPropertyView::LevelName(value)),
        PropertyKey::Motd => Some(ServerPropertyView::Motd(value)),
        PropertyKey::QueryPort => match spec_parse_unsigned(value, u16::MAX as nat) { Some(x) => Some(ServerPropertyView::QueryPort(x as u16)), None => None },
        PropertyKey::Pvp => match spec_parse_bool(value) { Some(x) => Some(ServerPropertyView::Pvp(x)), None => None },
        PropertyKey::GenerateStructures => match spec_parse_bool(value) { Some(x) => Some(ServerPropertyView::GenerateStructures(x)), None => None },
        PropertyKey::MaxChainedNeighborUpdates => match spec_parse_unsigned(value, u32::MAX as nat) { Some(x) => Some(ServerPropertyView::MaxChainedNeighborUpdates(x as u32)), None => None },
        PropertyKey::Difficulty => match spec_parse_difficulty(value) { Some(x) => Some(ServerPropertyView::Difficulty(x)), None => None },
        PropertyKey::NetworkCompressionThreshold => match spec_parse_unsigned(value, u32::MAX as nat) { Some(x) => Some(ServerPropertyView::NetworkCompressionThreshold(x as u32)), None => None },
        PropertyKey::RequireResourcePack => match spec_parse_bool(value) { Some(x) => Some(ServerPropertyView::RequireResourcePack(x)), None => None },
        PropertyKey::MaxTickTime => match spec_parse_unsigned(value, u32::MAX as nat) { Some(x) => Some(ServerPropertyView::MaxTickTime(x as u32)), None => None },
        PropertyKey::MaxPlayers => match spec_parse_unsigned(value, u32::MAX as nat) { Some(x) => Some(ServerPropertyView::MaxPlayers(x as u32)), None => None },
        PropertyKey::UseNativeTransport => match spec_parse_bool(value) { Some(x) => Some(ServerPropertyView::UseNativeTransport(x)), None => None },
        PropertyKey::OnlineMode => match spec_parse_bool(value) { Some(x) => Some(ServerPropertyView::OnlineMode(x)), None => None },
        PropertyKey::EnableStatus => match spec_parse_bool(value) { Some(x) => Some(ServerPropertyView::EnableStatus(x)), None => None },
        PropertyKey::AllowFlight => match spec_parse_bool(value) { Some(x) => Some(ServerPropertyView::AllowFlight(x)), None => None },
        PropertyKey::InitialDisabledPacks => Some(ServerPropertyView::InitialDisabledPacks(value)),
        PropertyKey::BroadcastRconToOps => match spec_parse_bool(value) { Some(x) => Some(ServerPropertyView::BroadcastRconToOps(x)), None => None },
        PropertyKey::ViewDistance => match spec_parse_unsigned(value, u32::MAX as nat) { Some(x) => Some(ServerPropertyView::ViewDistance(x as u32)), None => None },
        PropertyKey::ResourcePackPrompt => Some(ServerPropertyView::ResourcePackPrompt(value)),
        PropertyKey::ServerIp => Some(ServerPropertyView::ServerIp(value)),
        PropertyKey::AllowNether => match spec_parse_bool(value) { Some(x) => Some(ServerPropertyView::AllowNether(x)), None => None },
        PropertyKey::ServerPort => match spec_parse_unsigned(value, u16::MAX as nat) { Some(x) => Some(ServerPropertyView::ServerPort(x as u16)), None => None },
        PropertyKey::EnableRcon => match spec_parse_bool(value) { Some(x) => Some(ServerPropertyView::EnableRcon(x)), None => None },
        PropertyKey::SyncChunkWrites => match spec_parse_bool(value) { Some(x) => Some(ServerPropertyView::SyncChunkWrites(x)), None => None },
        PropertyKey::OpPermissionLevel => match spec_parse_unsigned(value, u32::MAX as nat) { Some(x) => Some(ServerPropertyView::OpPermissionLevel(x as u32)), None => None },
        PropertyKey::PreventProxyConnections => match spec_parse_bool(value) { Some(x) => Some(ServerPropertyView::PreventProxyConnections(x)), None => None },
        PropertyKey::HideOnlinePlayers => match spec_parse_bool(value) { Some(x) => Some(ServerPropertyView::HideOnlinePlayers(x)), None => None },
        PropertyKey::ResourcePack => Some(ServerPropertyView::ResourcePack(value)),
        PropertyKey::EntityBroadcastRangePercentage => match spec_parse_unsigned(value, u32::MAX as nat) { Some(x) => Some(ServerPropertyView::EntityBroadcastRangePercentage(x as u32)), None => None },
        PropertyKey::SimulationDistance => match spec_parse_unsigned(value, u32::MAX as nat) { Some(x) => Some(ServerPropertyView::SimulationDistance(x as u32)), None => None },
        PropertyKey::RconPassword => Some(ServerPropertyView::RconPassword(value)),
        PropertyKey::PlayerIdleTimeout => match spec_parse_unsigned(value, u32::MAX as nat) { Some(x) => Some(ServerPropertyView::PlayerIdleTimeout(x as u32)), None => None },
        PropertyKey::ForceGamemode => match spec_parse_bool(value) { Some(x) => Some(ServerPropertyView::ForceGamemode(x)), None => None },
        PropertyKey::RateLimit => match spec_parse_unsigned(value, u32::MAX as nat) { Some(x) => Some(ServerPropertyView::RateLimit(x as u32)), None => None },
        PropertyKey::Hardcore => match spec_parse_bool(value) { Some(x) => Some(ServerPropertyView::Hardcore(x)), None => None },
        PropertyKey::WhiteList => match spec_parse_bool(value) { Some(x) => Some(ServerPropertyView::WhiteList(x)), None => None },
        PropertyKey::BroadcastConsoleToOps => match spec_parse_bool(value) { Some(x) => Some(ServerPropertyView::BroadcastConsoleToOps(x)), None => None },
        PropertyKey::PreviewsChat => match spec_parse_bool(value) { Some(x) => Some(ServerPropertyView::PreviewsChat(x)), None => None },
        PropertyKey::SpawnNpcs => match spec_parse_bool(value) { Some(x) => Some(ServerPropertyView::SpawnNpcs(x)), None => None },
        PropertyKey::SpawnAnimals => match spec_parse_bool(value) { Some(x) => Some(ServerPropertyView::SpawnAnimals(x)), None => None },
        PropertyKey::FunctionPermissionLevel => match spec_parse_unsigned(value, u32::MAX as nat) { Some(x) => Some(ServerPropertyView::FunctionPermissionLevel(x as u32)), None => None },
        PropertyKey::InitialEnabledPacks => Some(ServerPropertyView::InitialEnabledPacks(value)),
        PropertyKey::LevelType => Some(ServerPropertyView::LevelType(value)),
        PropertyKey::TextFilteringConfig => Some(ServerPropertyView::TextFilteringConfig(value)),
        PropertyKey::SpawnMonsters => match spec_parse_bool(value) { Some(x) => Some(ServerPropertyView::SpawnMonsters(x)), None => None },
        PropertyKey::EnforceWhitelist => match spec_parse_bool(value) { Some(x) => Some(ServerPropertyView::EnforceWhitelist(x)), None => None },
        PropertyKey::SpawnProtection => match spec_parse_unsigned(value, u32::MAX as nat) { Some(x) => Some(ServerPropertyView::SpawnProtection(x as u32)), None => None },
        PropertyKey::ResourcePackSha1 => Some(ServerPropertyView::ResourcePackSha1(value)),
        PropertyKey::MaxWorldSize => match spec_parse_unsigned(value, u32::MAX as nat) { Some(x) => Some(ServerPropertyView::MaxWorldSize(x as u32)), None => None },
        PropertyKey::MaxBuildHeight => match spec_parse_unsigned(value, u32::MAX as nat) { Some(x) => Some(ServerPropertyView::MaxBuildHeight(x as u32)), None => None },
    }
}

/// The property a key and a value text give: a known key needs a valid value,
/// any other key gives an unknown property holding the texts.
#[verifier::opaque]
pub open spec fn spec_from_key_val(key: Seq<char>, value: Seq<char>) -> Option<ServerPropertyView> {
    match spec_key_of(key) {
        Some(k) => spec_value_for(k, value),
        None => Some(ServerPropertyView::Unknown(key, value)),
    }
}

/// The property a `server.properties` line gives: the key is the text before
/// the first `=`, the value the text between it and the next `=` (or the end).
/// A line without `=` gives none.
pub open spec fn spec_from_line(line: Seq<char>) -> Option<ServerPropertyView> {
    match spec_find(line, '=') {
        None => None,
        Some(i) => {
            let rest = line.subrange(i + 1, line.len() as int);
            let value = match spec_find(rest, '=') {
                Some(j) => rest.subrange(0, j),
                None => rest,
            };
            spec_from_key_val(line.subrange(0, i), value)
        },
    }
}

/// The name of a property, as shown to users. An unknown key is shown with its
/// first character in upper case.
pub open spec fn spec_property_name(p: ServerPropertyView) -> Seq<char> {
    match p {
        ServerPropertyView::EnableJmxMonitoring(_) => "Enable JMX Monitoring"@,
        ServerPropertyView::RconPort(_) => "Rcon Port"@,
        ServerPropertyView::LevelSeed(_) => "Level Seed"@,
        ServerPropertyView::Gamemode(_) => "Gamemode"@,
        ServerPropertyView::EnableCommandBlock(_) => "Enable Command Block"@,
        ServerPropertyView::EnableQuery(_) => "Enable Query"@,
        ServerPropertyView::GeneratorSettings(_) => "Generator Settings"@,
        ServerPropertyView::EnforceSecureProfile(_) => "Enforce Secure Profile"@,
        ServerPropertyView::LevelName(_) => "Level Name"@,
        ServerPropertyView::Motd(_) => "Motd"@,
        ServerPropertyView::QueryPort(_) => "Query Port"@,
        ServerPropertyView::Pvp(_) => "Pvp"@,
        ServerPropertyView::GenerateStructures(_) => "Generate Structures"@,
        ServerPropertyView::MaxChainedNeighborUpdates(_) => "Max Chained Neighbor Updates"@,
        ServerPropertyView::Difficulty(_) => "Difficulty"@,
        ServerPropertyView::NetworkCompressionThreshold(_) => "Network Compression Threshold"@,
        ServerPropertyView::RequireResourcePack(_) => "Require Resource Pack"@,
        ServerPropertyView::MaxTickTime(_) => "Max Tick Time"@,
        ServerPropertyView::MaxPlayers(_) => "Max Players"@,
        ServerPropertyView::UseNativeTransport(_) => "Use Native Transport"@,
        ServerPropertyView::OnlineMode(_) => "Online Mode"@,
        ServerPropertyView::EnableStatus(_) => "Enable Status"@,
        ServerPropertyView::AllowFlight(_) => "Allow Flight"@,
        ServerPropertyView::InitialDisabledPacks(_) => "Initial Disabled Packs"@,
        ServerPropertyView::BroadcastRconToOps(_) => "Broadcast Rcon To Ops"@,
        ServerPropertyView::ViewDistance(_) => "View Distance"@,
        ServerPropertyView::ResourcePackPrompt(_) => "Resource Pack Prompt"@,
        ServerPropertyView::ServerIp(_) => "Server Ip"@,
        ServerPropertyView::AllowNether(_) => "Allow Nether"@,
        ServerPropertyView::ServerPort(_) => "Server Port"@,
        ServerPropertyView::EnableRcon(_) => "Enable Rcon"@,
        ServerPropertyView::SyncChunkWrites(_) => "Sync Chunk Writes"@,
        ServerPropertyView::OpPermissionLevel(_) => "Op Permission Level"@,
        ServerPropertyView::PreventProxyConnections(_) => "Prevent Proxy Connections"@,
        ServerPropertyView::HideOnlinePlayers(_) => "Hide Online Players"@,
        ServerPropertyView::ResourcePack(_) => "Resource Pack"@,
        ServerPropertyView::EntityBroadcastRangePercentage(_) => "Entity Broadcast Range Percentage"@,
        ServerPropertyView::SimulationDistance(_) => "Simulation Distance"@,
        ServerPropertyView::RconPassword(_) => "Rcon Password"@,
        ServerPropertyView::PlayerIdleTimeout(_) => "Player Idle Timeout"@,
        ServerPropertyView::ForceGamemode(_) => "Force Gamemode"@,
        ServerPropertyView::RateLimit(_) => "Rate Limit"@,
        ServerPropertyView::Hardcore(_) => "Hardcore"@,
        ServerPropertyView::WhiteList(_) => "White List"@,
        ServerPropertyView::BroadcastConsoleToOps(_) => "Broadcast Console To Ops"@,
        ServerPropertyView::PreviewsChat(_) => "Previews Chat"@,
        ServerPropertyView::SpawnNpcs(_) => "Spawn Npcs"@,
        ServerPropertyView::SpawnAnimals(_) => "Spawn Animals"@,
        ServerPropertyView::FunctionPermissionLevel(_) => "Function Permission Level"@,
        ServerPropertyView::InitialEnabledPacks(_) => "Initial Enabled Packs"@,
        ServerPropertyView::LevelType(_) => "Level Type"@,
        ServerPropertyView::TextFilteringConfig(_) => "Text Filtering Config"@,
        ServerPropertyView::SpawnMonsters(_) => "Spawn Monsters"@,
        ServerPropertyView::EnforceWhitelist(_) => "Enforce Whitelist"@,
        ServerPropertyView::SpawnProtection(_) => "Spawn Protection"@,
        ServerPropertyView::ResourcePackSha1(_) => "Resource Pack Sha1"@,
        ServerPropertyView::MaxWorldSize(_) => "Max World Size"@,
        ServerPropertyView::MaxBuildHeight(_) => "Max Build Height"@,
        ServerPropertyView::Unknown(k, _) => spec_char_to_uppercase(k[0]) + k.drop_first(),
    }
}

/// The description of a property, as shown to users.
pub open spec fn spec_property_description(p: ServerPropertyView) -> Seq<char> {
    match p {
        ServerPropertyView::EnableJmxMonitoring(_) => "Expose JMX metrics for monitoring."@,
        ServerPropertyView::RconPort(_) => "Port for RCON connections."@,
        ServerPropertyView::LevelSeed(_) => "Seed for the level. If left blank, a random seed will be used."@,
        ServerPropertyView::Gamemode(_) => "Gamemode for the server. Applied when the player joined the server for the first time. Changing this value will not change the gamemode of existing players."@,
        ServerPropertyView::EnableCommandBlock(_) => "Enable command blocks."@,
        ServerPropertyView::EnableQuery(_) => "Enables GameSpy4 protocol server listener. Used to get information about server."@,
        ServerPropertyView::GeneratorSettings(_) => "A JSON string that will be used to configure the world generator. If left blank, the default generator will be used."@,
        ServerPropertyView::EnforceSecureProfile(_) => "Enforce the use of secure authentication."@,
        ServerPropertyView::LevelName(_) => "The folder name for the world. Defaults to world."@,
        ServerPropertyView::Motd(_) => "The message of the day."@,
        ServerPropertyView::QueryPort(_) => "Port for GameSpy4 protocol server listener."@,
        ServerPropertyView::Pvp(_) => "Enable PVP."@,
        ServerPropertyView::GenerateStructures(_) => "Enable generation of structures."@,
        ServerPropertyView::MaxChainedNeighborUpdates(_) => "Maximum number of chained neighbor updates."@,
        ServerPropertyView::Difficulty(_) => "Difficulty of the server."@,
        ServerPropertyView::NetworkCompressionThreshold(_) => "A threshold for network compression. If the size of a packet exceeds this value, it will be compressed."@,
        ServerPropertyView::RequireResourcePack(_) => "Require clients to download resource packs."@,
        ServerPropertyView::MaxTickTime(_) => "Maximum time in milliseconds that a single tick may take before the server watchdog stops the server with a timeout error."@,
        ServerPropertyView::MaxPlayers(_) => "Maximum number of players that can be connected to the server at the same time."@,
        ServerPropertyView::UseNativeTransport(_) => "Use native transport."@,
        ServerPropertyView::OnlineMode(_) => "Enable online mode."@,
        ServerPropertyView::EnableStatus(_) => "Enable status."@,
        ServerPropertyView::AllowFlight(_) => "Allow flight."@,
        ServerPropertyView::InitialDisabledPacks(_) => "A list of resource packs that will be disabled by default."@,
        ServerPropertyView::BroadcastRconToOps(_) => "Send rcon console command outputs to all online operators."@,
        ServerPropertyView::ViewDistance(_) => "Sets the amount of world data the server sends the client, measured in chunks in each direction of the player (radius, not diameter). It determines the server-side viewing distance."@,
        ServerPropertyView::ResourcePackPrompt(_) => "Prompt clients to download resource packs."@,
        ServerPropertyView::ServerIp(_) => "The IP address of the server. If left blank, the server will listen on all addresses."@,
        ServerPropertyView::AllowNether(_) => "Allow nether."@,
        ServerPropertyView::ServerPort(_) => "The port of the server."@,
        ServerPropertyView::EnableRcon(_) => "Enables remote access to the server console. Not recommended to expose RCON to the internet."@,
        ServerPropertyView::SyncChunkWrites(_) => "Sync chunk writes."@,
        ServerPropertyView::OpPermissionLevel(_) => "The permission level for operators."@,
        ServerPropertyView::PreventProxyConnections(_) => "Prevent connections from proxy servers."@,
        ServerPropertyView::HideOnlinePlayers(_) => "Hide online players."@,
        ServerPropertyView::ResourcePack(_) => "The URL of the resource pack that will be used by default."@,
        ServerPropertyView::EntityBroadcastRangePercentage(_) => "The percentage of the world that entities can be broadcasted to."@,
        ServerPropertyView::SimulationDistance(_) => "The distance in blocks that players will be able to interact with entities."@,
        ServerPropertyView::RconPassword(_) => "The password for RCON connections."@,
        ServerPropertyView::PlayerIdleTimeout(_) => "The number of minutes before a player is kicked for being idle."@,
        ServerPropertyView::ForceGamemode(_) => "Force players to join in the specified gamemode."@,
        ServerPropertyView::RateLimit(_) => "The maximum number of packets per second that the server will accept from a single IP address."@,
        ServerPropertyView::Hardcore(_) => "Enable hardcore mode."@,
        ServerPropertyView::WhiteList(_) => "Enable whitelist."@,
        ServerPropertyView::BroadcastConsoleToOps(_) => "Send console command outputs to all online operators."@,
        ServerPropertyView::PreviewsChat(_) => "Enable chat."@,
        ServerPropertyView::SpawnNpcs(_) => "Enable spawning of NPCs."@,
        ServerPropertyView::SpawnAnimals(_) => "Enable spawning of animals."@,
        ServerPropertyView::FunctionPermissionLevel(_) => "The permission level for functions."@,
        ServerPropertyView::InitialEnabledPacks(_) => "A list of resource packs that will be enabled by default."@,
        ServerPropertyView::LevelType(_) => "The type of world to generate."@,
        ServerPropertyView::TextFilteringConfig(_) => "The path to the text filtering configuration file."@,
        ServerPropertyView::SpawnMonsters(_) => "Enable spawning of hostile mobs."@,
        ServerPropertyView::EnforceWhitelist(_) => "Enforce the use of the whitelist."@,
        ServerPropertyView::SpawnProtection(_) => "The radius of the spawn protection area."@,
        ServerPropertyView::ResourcePackSha1(_) => "The SHA1 hash of the resource pack that will be used by default."@,
        ServerPropertyView::MaxWorldSize(_) => "The maximum size of the world in blocks."@,
        ServerPropertyView::MaxBuildHeight(_) => "The maximum height of the world in blocks."@,
        ServerPropertyView::Unknown(k, x) => "Unknown property: "@ + k + " = "@ + x
            + ". Please report this to the developers."@,
    }
}

/// Whether a property can be shown by name: an unknown key must not be empty.
pub open spec fn spec_has_name(p: ServerPropertyView) -> bool {
    match p {
        ServerPropertyView::Unknown(k, _) => k.len() > 0,
        _ => true,
    }
}

/// The manifest entry that describes a property.
pub open spec fn spec_property_manifest(p: ServerPropertyView) -> SettingManifestView {
    let value = spec_property_manifest_value(p);
    SettingManifestView {
        setting_id: spec_identifier(p),
        name: spec_property_name(p),
        description: spec_property_description(p),
        value: Some(value),
        value_type: spec_property_manifest_type(p),
        default_value: None,
        is_secret: p is RconPassword,
        is_required: true,
        is_mutable: true,
    }
}

/// The value a property's manifest entry holds.
pub open spec fn spec_property_manifest_value(p: ServerPropertyView) -> ConfigurableValueView {
    match p {
        ServerPropertyView::EnableJmxMonitoring(x) => ConfigurableValueView::Boolean(x),
        ServerPropertyView::RconPort(x) => ConfigurableValueView::UnsignedInteger(x as u32),
        ServerPropertyView::LevelSeed(x) => ConfigurableValueView::String(x),
        ServerPropertyView::Gamemode(x) => ConfigurableValueView::Enum(spec_gamemode_text(x)),
        ServerPropertyView::EnableCommandBlock(x) => ConfigurableValueView::Boolean(x),
        ServerPropertyView::EnableQuery(x) => ConfigurableValueView::Boolean(x),
        ServerPropertyView::GeneratorSettings(x) => ConfigurableValueView::String(x),
        ServerPropertyView::EnforceSecureProfile(x) => ConfigurableValueView::Boolean(x),
        ServerPropertyView::LevelName(x) => ConfigurableValueView::String(x),
        ServerPropertyView::Motd(x) => ConfigurableValueView::String(x),
        ServerPropertyView::QueryPort(x) => ConfigurableValueView::UnsignedInteger(x as u32),
        ServerPropertyView::Pvp(x) => ConfigurableValueView::Boolean(x),
        ServerPropertyView::GenerateStructures(x) => ConfigurableValueView::Boolean(x),
        ServerPropertyView::MaxChainedNeighborUpdates(x) => ConfigurableValueView::UnsignedInteger(x as u32),
        ServerPropertyView::Difficulty(x) => ConfigurableValueView::Enum(spec_difficulty_text(x)),
        ServerPropertyView::NetworkCompressionThreshold(x) => ConfigurableValueView::UnsignedInteger(x as u32),
        ServerPropertyView::RequireResourcePack(x) => ConfigurableValueView::Boolean(x),
        ServerPropertyView::MaxTickTime(x) => ConfigurableValueView::UnsignedInteger(x as u32),
        ServerPropertyView::MaxPlayers(x) => ConfigurableValueView::UnsignedInteger(x as u32),
        ServerPropertyView::UseNativeTransport(x) => ConfigurableValueView::Boolean(x),
        ServerPropertyView::OnlineMode(x) => ConfigurableValueView::Boolean(x),
        ServerPropertyView::EnableStatus(x) => ConfigurableValueView::Boolean(x),
        ServerPropertyView::AllowFlight(x) => ConfigurableValueView::Boolean(x),
        ServerPropertyView::InitialDisabledPacks(x) => ConfigurableValueView::String(x),
        ServerPropertyView::BroadcastRconToOps(x) => ConfigurableValueView::Boolean(x),
        ServerPropertyView::ViewDistance(x) => ConfigurableValueView::UnsignedInteger(x as u32),
        ServerPropertyView::ResourcePackPrompt(x) => ConfigurableValueView::String(x),
        ServerPropertyView::ServerIp(x) => ConfigurableValueView::String(x),
        ServerPropertyView::AllowNether(x) => ConfigurableValueView::Boolean(x),
        ServerPropertyView::ServerPort(x) => ConfigurableValueView::UnsignedInteger(x as u32),
        ServerPropertyView::EnableRcon(x) => ConfigurableValueView::Boolean(x),
        ServerPropertyView::SyncChunkWrites(x) => ConfigurableValueView::Boolean(x),
        ServerPropertyView::OpPermissionLevel(x) => ConfigurableValueView::UnsignedInteger(x as u32),
        ServerPropertyView::PreventProxyConnections(x) => ConfigurableValueView::Boolean(x),
        ServerPropertyView::HideOnlinePlayers(x) => ConfigurableValueView::Boolean(x),
        ServerPropertyView::ResourcePack(x) => ConfigurableValueView::String(x),
        ServerPropertyView::EntityBroadcastRangePercentage(x) => ConfigurableValueView::UnsignedInteger(x as u32),
        ServerPropertyView::SimulationDistance(x) => ConfigurableValueView::UnsignedInteger(x as u32),
        ServerPropertyView::RconPassword(x) => ConfigurableValueView::String(x),
        ServerPropertyView::PlayerIdleTimeout(x) => ConfigurableValueView::UnsignedInteger(x as u32),
        ServerPropertyView::ForceGamemode(x) => ConfigurableValueView::Boolean(x),
        ServerPropertyView::RateLimit(x) => ConfigurableValueView::UnsignedInteger(x as u32),
        ServerPropertyView::Hardcore(x) => ConfigurableValueView::Boolean(x),
        ServerPropertyView::WhiteList(x) => ConfigurableValueView::Boolean(x),
        ServerPropertyView::BroadcastConsoleToOps(x) => ConfigurableValueView::Boolean(x),
        ServerPropertyView::PreviewsChat(x) => ConfigurableValueView::Boolean(x),
        ServerPropertyView::SpawnNpcs(x) => ConfigurableValueView::Boolean(x),
        ServerPropertyView::SpawnAnimals(x) => ConfigurableValueView::Boolean(x),
        ServerPropertyView::FunctionPermissionLevel(x) => ConfigurableValueView::UnsignedInteger(x as u32),
        ServerPropertyView::InitialEnabledPacks(x) => ConfigurableValueView::String(x),
        ServerPropertyView::LevelType(x) => ConfigurableValueView::String(x),
        ServerPropertyView::TextFilteringConfig(x) => ConfigurableValueView::String(x),
        ServerPropertyView::SpawnMonsters(x) => ConfigurableValueView::Boolean(x),
        ServerPropertyView::EnforceWhitelist(x) => ConfigurableValueView::Boolean(x),
        ServerPropertyView::SpawnProtection(x) => ConfigurableValueView::UnsignedInteger(x as u32),
        ServerPropertyView::ResourcePackSha1(x) => ConfigurableValueView::String(x),
        ServerPropertyView::MaxWorldSize(x) => ConfigurableValueView::UnsignedInteger(x as u32),
        ServerPropertyView::MaxBuildHeight(x) => ConfigurableValueView::UnsignedInteger(x as u32),
        ServerPropertyView::Unknown(_, x) => ConfigurableValueView::String(x),
    }
}

pub open spec fn spec_gamemode_options() -> Seq<Seq<char>> {
    seq![seq!['s', 'u', 'r', 'v', 'i', 'v', 'a', 'l'], seq!['c', 'r', 'e', 'a', 't', 'i', 'v', 'e'],
        seq!['a', 'd', 'v', 'e', 'n', 't', 'u', 'r', 'e'], seq!['s', 'p', 'e', 'c', 't', 'a', 't', 'o', 'r']]
}

pub open spec fn spec_difficulty_options() -> Seq<Seq<char>> {
    seq![seq!['p', 'e', 'a', 'c', 'e', 'f', 'u', 'l'], seq!['e', 'a', 's', 'y'],
        seq!['n', 'o', 'r', 'm', 'a', 'l'], seq!['h', 'a', 'r', 'd']]
}

/// The difficulties are written `peaceful`, `easy`, `normal` and `hard`,
/// in lower case: the text of each is one of the options its manifest entry
/// offers, it reads back as that difficulty, and only those texts are read.
pub proof fn lemma_difficulty_texts(d: Difficulty, s: Seq<char>)
    ensures
        spec_difficulty_options() == seq!["peaceful"@, "easy"@, "normal"@, "hard"@],
        spec_difficulty_options().contains(spec_difficulty_text(d)),
        spec_parse_difficulty(spec_difficulty_text(d)) == Some(d),
        forall|i: int|
            0 <= i < spec_difficulty_text(d).len() ==> 'a' <= #[trigger] spec_difficulty_text(d)[i]
                <= 'z',
        spec_parse_difficulty(s) is Some <==> spec_difficulty_options().contains(s),
{
    reveal_strlit("peaceful");
    reveal_strlit("easy");
    reveal_strlit("normal");
    reveal_strlit("hard");
    let o = spec_difficulty_options();
    assert(o[0] =~= "peaceful"@);
    assert(o[1] =~= "easy"@);
    assert(o[2] =~= "normal"@);
    assert(o[3] =~= "hard"@);
    assert(o =~= seq!["peaceful"@, "easy"@, "normal"@, "hard"@]);
    let k: int = match d {
        Difficulty::Peaceful => 0,
        Difficulty::Easy => 1,
        Difficulty::Normal => 2,
        Difficulty::Hard => 3,
    };
    assert(o[k] == spec_difficulty_text(d));
    if spec_parse_difficulty(s) is Some {
        let x = spec_parse_difficulty(s)->0;
        let j: int = match x {
            Difficulty::Peaceful => 0,
            Difficulty::Easy => 1,
            Difficulty::Normal => 2,
            Difficulty::Hard => 3,
        };
        assert(o[j] == s);
    }
    if o.contains(s) {
        let j = choose|j: int| 0 <= j < o.len() && o[j] == s;
        assert(j == 0 || j == 1 || j == 2 || j == 3);
    }
}

/// The gamemodes are written `survival`, `creative`, `adventure` and
/// `spectator`, in lower case: the text of each is one of the options its
/// manifest entry offers, it reads back as that gamemode, and only those
/// texts are read.
pub proof fn lemma_gamemode_texts(g: Gamemode, s: Seq<char>)
    ensures
        spec_gamemode_options() == seq!["survival"@, "creative"@, "adventure"@, "spectator"@],
        spec_gamemode_options().contains(spec_gamemode_text(g)),
        spec_parse_gamemode(spec_gamemode_text(g)) == Some(g),
        forall|i: int|
            0 <= i < spec_gamemode_text(g).len() ==> 'a' <= #[trigger] spec_gamemode_text(g)[i] <= 'z',
        spec_parse_gamemode(s) is Some <==> spec_gamemode_options().contains(s),
{
    reveal_strlit("survival");
    reveal_strlit("creative");
    reveal_strlit("adventure");
    reveal_strlit("spectator");
    let o = spec_gamemode_options();
    assert(o[0] =~= "survival"@);
    assert(o[1] =~= "creative"@);
    assert(o[2] =~= "adventure"@);
    assert(o[3] =~= "spectator"@);
    assert(o =~= seq!["survival"@, "creative"@, "adventure"@, "spectator"@]);
    let k: int = match g {
        Gamemode::Survival => 0,
        Gamemode::Creative => 1,
        Gamemode::Adventure => 2,
        Gamemode::Spectator => 3,
    };
    assert(o[k] == spec_gamemode_text(g));
    if spec_parse_gamemode(s) is Some {
        let x = spec_parse_gamemode(s)->0;
        let j: int = match x {
            Gamemode::Survival => 0,
            Gamemode::Creative => 1,
            Gamemode::Adventure => 2,
            Gamemode::Spectator => 3,
        };
        assert(o[j] == s);
    }
    if o.contains(s) {
        let j = choose|j: int| 0 <= j < o.len() && o[j] == s;
        assert(j == 0 || j == 1 || j == 2 || j == 3);
    }
}

/// The type a property's manifest entry declares.
pub open spec fn spec_property_manifest_type(p: ServerPropertyView) -> ConfigurableValueTypeView {
    match p {
        ServerPropertyView::RconPort(_) => ConfigurableValueTypeView::UnsignedInteger { min: Some(0), max: Some(65535) },
        ServerPropertyView::Gamemode(_) => ConfigurableValueTypeView::Enum { options: spec_gamemode_options() },
        ServerPropertyView::QueryPort(_) => ConfigurableValueTypeView::UnsignedInteger { min: Some(0), max: Some(65535) },
        ServerPropertyView::Difficulty(_) => ConfigurableValueTypeView::Enum { options: spec_difficulty_options() },
        _ => spec_infer_type(spec_property_manifest_value(p)),
    }
}

/// What reading a property back from a manifest entry gives: the entry must
/// hold a value; known keys take the value of the kind they expect, and keys
/// that are not read back become unknown properties holding the value's text.
pub open spec fn spec_property_from_manifest(m: SettingManifestView) -> Result<ServerPropertyView, ErrorKind> {
    match m.value {
        None => Err(ErrorKind::Internal),
        Some(v) => match spec_key_of(m.setting_id) {
            Some(k) => spec_manifest_value_for(k, m.setting_id, v),
            None => Ok(ServerPropertyView::Unknown(m.setting_id, spec_value_text(v))),
        },
    }
}

pub open spec fn spec_manifest_value_for(k: PropertyKey, id: Seq<char>, v: ConfigurableValueView) -> Result<ServerPropertyView, ErrorKind> {
    match k {
        PropertyKey::EnableJmxMonitoring => match v { ConfigurableValueView::Boolean(b) => Ok(ServerPropertyView::EnableJmxMonitoring(b)), _ => Err(ErrorKind::BadRequest) },
        PropertyKey::RconPort => match v { ConfigurableValueView::UnsignedInteger(u) => if u <= u16::MAX { Ok(ServerPropertyView::RconPort(u as u16)) } else { Err(ErrorKind::Internal) }, _ => Err(ErrorKind::BadRequest) },
        PropertyKey::LevelSeed => match v { ConfigurableValueView::String(s) => Ok(ServerPropertyView::LevelSeed(s)), _ => Err(ErrorKind::BadRequest) },
        PropertyKey::Gamemode => match v { ConfigurableValueView::String(s) => match spec_parse_gamemode(s) { Some(g) => Ok(ServerPropertyView::Gamemode(g)), None => Err(ErrorKind::Internal) }, _ => Err(ErrorKind::BadRequest) },
        PropertyKey::EnableCommandBlock => match v { ConfigurableValueView::Boolean(b) => Ok(ServerPropertyView::EnableCommandBlock(b)), _ => Err(ErrorKind::BadRequest) },
        PropertyKey::EnableQuery => match v { ConfigurableValueView::Boolean(b) => Ok(ServerPropertyView::EnableQuery(b)), _ => Err(ErrorKind::BadRequest) },
        PropertyKey::GeneratorSettings => match v { ConfigurableValueView::String(s) => Ok(ServerPropertyView::GeneratorSettings(s)), _ => Err(ErrorKind::BadRequest) },
        PropertyKey::EnforceSecureProfile => match v { ConfigurableValueView::Boolean(b) => Ok(ServerPropertyView::EnforceSecureProfile(b)), _ => Err(ErrorKind::BadRequest) },
        PropertyKey::LevelName => match v { ConfigurableValueView::String(s) => Ok(ServerPropertyView::LevelName(s)), _ => Err(ErrorKind::BadRequest) },
        PropertyKey::Motd => match v { ConfigurableValueView::String(s) => Ok(ServerPropertyView::Motd(s)), _ => Err(ErrorKind::BadRequest) },
        PropertyKey::QueryPort => match v { ConfigurableValueView::UnsignedInteger(u) => if u <= u16::MAX { Ok(ServerPropertyView::QueryPort(u as u16)) } else { Err(ErrorKind::Internal) }, _ => Err(ErrorKind::BadRequest) },
        PropertyKey::Pvp => match v { ConfigurableValueView::Boolean(b) => Ok(ServerPropertyView::Pvp(b)), _ => Err(ErrorKind::BadRequest) },
        PropertyKey::GenerateStructures => match v { ConfigurableValueView::Boolean(b) => Ok(ServerPropertyView::GenerateStructures(b)), _ => Err(ErrorKind::BadRequest) },
        PropertyKey::MaxChainedNeighborUpdates => match v { ConfigurableValueView::Integer(i) => if i >= 0 { Ok(ServerPropertyView::MaxChainedNeighborUpdates(i as u32)) } else { Err(ErrorKind::Internal) }, _ => Err(ErrorKind::BadRequest) },
        PropertyKey::Difficulty => Ok(ServerPropertyView::Unknown(id, spec_value_text(v))),
        PropertyKey::NetworkCompressionThreshold => Ok(ServerPropertyView::Unknown(id, spec_value_text(v))),
        PropertyKey::RequireResourcePack => Ok(ServerPropertyView::Unknown(id, spec_value_text(v))),
        PropertyKey::MaxTickTime => match v { ConfigurableValueView::UnsignedInteger(u) => Ok(ServerPropertyView::MaxTickTime(u)), _ => Err(ErrorKind::BadRequest) },
        PropertyKey::MaxPlayers => match v { ConfigurableValueView::UnsignedInteger(u) => Ok(ServerPropertyView::MaxPlayers(u)), _ => Err(ErrorKind::BadRequest) },
        PropertyKey::UseNativeTransport => match v { ConfigurableValueView::Boolean(b) => Ok(ServerPropertyView::UseNativeTransport(b)), _ => Err(ErrorKind::BadRequest) },
        PropertyKey::OnlineMode => match v { ConfigurableValueView::Boolean(b) => Ok(ServerPropertyView::OnlineMode(b)), _ => Err(ErrorKind::BadRequest) },
        PropertyKey::EnableStatus => match v { ConfigurableValueView::Boolean(b) => Ok(ServerPropertyView::EnableStatus(b)), _ => Err(ErrorKind::BadRequest) },
        PropertyKey::AllowFlight => match v { ConfigurableValueView::Boolean(b) => Ok(ServerPropertyView::AllowFlight(b)), _ => Err(ErrorKind::BadRequest) },
        PropertyKey::InitialDisabledPacks => match v { ConfigurableValueView::String(s) => Ok(ServerPropertyView::InitialDisabledPacks(s)), _ => Err(ErrorKind::BadRequest) },
        PropertyKey::BroadcastRconToOps => match v { ConfigurableValueView::Boolean(b) => Ok(ServerPropertyView::BroadcastRconToOps(b)), _ => Err(ErrorKind::BadRequest) },
        PropertyKey::ViewDistance => match v { ConfigurableValueView::UnsignedInteger(u) => Ok(ServerPropertyView::ViewDistance(u)), _ => Err(ErrorKind::BadRequest) },
        PropertyKey::ResourcePackPrompt => match v { ConfigurableValueView::String(s) => Ok(ServerPropertyView::ResourcePackPrompt(s)), _ => Err(ErrorKind::BadRequest) },
        PropertyKey::ServerIp => match v { ConfigurableValueView::String(s) => Ok(ServerPropertyView::ServerIp(s)), _ => Err(ErrorKind::BadRequest) },
        PropertyKey::AllowNether => match v { ConfigurableValueView::Boolean(b) => Ok(ServerPropertyView::AllowNether(b)), _ => Err(ErrorKind::BadRequest) },
        PropertyKey::ServerPort => match v { ConfigurableValueView::UnsignedInteger(u) => if u <= u16::MAX { Ok(ServerPropertyView::ServerPort(u as u16)) } else { Err(ErrorKind::Internal) }, _ => Err(ErrorKind::BadRequest) },
        PropertyKey::EnableRcon => match v { ConfigurableValueView::Boolean(b) => Ok(ServerPropertyView::EnableRcon(b)), _ => Err(ErrorKind::BadRequest) },
        PropertyKey::SyncChunkWrites => match v { ConfigurableValueView::Boolean(b) => Ok(ServerPropertyView::SyncChunkWrites(b)), _ => Err(ErrorKind::BadRequest) },
        PropertyKey::OpPermissionLevel => match v { ConfigurableValueView::UnsignedInteger(u) => Ok(ServerPropertyView::OpPermissionLevel(u)), _ => Err(ErrorKind::BadRequest) },
        PropertyKey::PreventProxyConnections => match v { ConfigurableValueView::Boolean(b) => Ok(ServerPropertyView::PreventProxyConnections(b)), _ => Err(ErrorKind::BadRequest) },
        PropertyKey::HideOnlinePlayers => match v { ConfigurableValueView::Boolean(b) => Ok(ServerPropertyView::HideOnlinePlayers(b)), _ => Err(ErrorKind::BadRequest) },
        PropertyKey::ResourcePack => match v { ConfigurableValueView::String(s) => Ok(ServerPropertyView::ResourcePack(s)), _ => Err(ErrorKind::BadRequest) },
        PropertyKey::EntityBroadcastRangePercentage => match v { ConfigurableValueView::UnsignedInteger(u) => Ok(ServerPropertyView::EntityBroadcastRangePercentage(u)), _ => Err(ErrorKind::BadRequest) },
        PropertyKey::SimulationDistance => match v { ConfigurableValueView::UnsignedInteger(u) => Ok(ServerPropertyView::SimulationDistance(u)), _ => Err(ErrorKind::BadRequest) },
        PropertyKey::RconPassword => match v { ConfigurableValueView::String(s) => Ok(ServerPropertyView::RconPassword(s)), _ => Err(ErrorKind::BadRequest) },
        PropertyKey::PlayerIdleTimeout => Ok(ServerPropertyView::Unknown(id, spec_value_text(v))),
        PropertyKey::ForceGamemode => Ok(ServerPropertyView::Unknown(id, spec_value_text(v))),
        PropertyKey::RateLimit => match v { ConfigurableValueView::UnsignedInteger(u) => Ok(ServerPropertyView::RateLimit(u)), _ => Err(ErrorKind::BadRequest) },
        PropertyKey::Hardcore => match v { ConfigurableValueView::Boolean(b) => Ok(ServerPropertyView::Hardcore(b)), _ => Err(ErrorKind::BadRequest) },
        PropertyKey::WhiteList => match v { ConfigurableValueView::Boolean(b) => Ok(ServerPropertyView::WhiteList(b)), _ => Err(ErrorKind::BadRequest) },
        PropertyKey::BroadcastConsoleToOps => match v { ConfigurableValueView::Boolean(b) => Ok(ServerPropertyView::BroadcastConsoleToOps(b)), _ => Err(ErrorKind::BadRequest) },
        PropertyKey::PreviewsChat => match v { ConfigurableValueView::Boolean(b) => Ok(ServerPropertyView::PreviewsChat(b)), _ => Err(ErrorKind::BadRequest) },
        PropertyKey::SpawnNpcs => match v { ConfigurableValueView::Boolean(b) => Ok(ServerPropertyView::SpawnNpcs(b)), _ => Err(ErrorKind::BadRequest) },
        PropertyKey::SpawnAnimals => match v { ConfigurableValueView::Boolean(b) => Ok(ServerPropertyView::SpawnAnimals(b)), _ => Err(ErrorKind::BadRequest) },
        PropertyKey::FunctionPermissionLevel => match v { ConfigurableValueView::UnsignedInteger(u) => Ok(ServerPropertyView::FunctionPermissionLevel(u)), _ => Err(ErrorKind::BadRequest) },
        PropertyKey::InitialEnabledPacks => match v { ConfigurableValueView::String(s) => Ok(ServerPropertyView::InitialEnabledPacks(s)), _ => Err(ErrorKind::BadRequest) },
        PropertyKey::LevelType => match v { ConfigurableValueView::String(s) => Ok(ServerPropertyView::LevelType(s)), _ => Err(ErrorKind::BadRequest) },
        PropertyKey::TextFilteringConfig => match v { ConfigurableValueView::String(s) => Ok(ServerPropertyView::TextFilteringConfig(s)), _ => Err(ErrorKind::BadRequest) },
        PropertyKey::SpawnMonsters => match v { ConfigurableValueView::Boolean(b) => Ok(ServerPropertyView::SpawnMonsters(b)), _ => Err(ErrorKind::BadRequest) },
        PropertyKey::EnforceWhitelist => Ok(ServerPropertyView::Unknown(id, spec_value_text(v))),
        PropertyKey::SpawnProtection => match v { ConfigurableValueView::UnsignedInteger(u) => Ok(ServerPropertyView::SpawnProtection(u)), _ => Err(ErrorKind::BadRequest) },
        PropertyKey::ResourcePackSha1 => match v { ConfigurableValueView::String(s) => Ok(ServerPropertyView::ResourcePackSha1(s)), _ => Err(ErrorKind::BadRequest) },
        PropertyKey::MaxWorldSize => match v { ConfigurableValueView::UnsignedInteger(u) => Ok(ServerPropertyView::MaxWorldSize(u)), _ => Err(ErrorKind::BadRequest) },
        PropertyKey::MaxBuildHeight => match v { ConfigurableValueView::UnsignedInteger(u) => Ok(ServerPropertyView::MaxBuildHeight(u)), _ => Err(ErrorKind::BadRequest) },
    }
}

fn invalid_value() -> (e: Error)
    ensures
        e.kind == ErrorKind::Internal,
{
    Error::new(ErrorKind::Internal, "Invalid value for a server property")
}

impl ServerPropertySetting {
    pub fn get_section_id() -> (s: &'static str)
        ensures
            s@ == "server_properties_section"@,
    {
        "server_properties_section"
    }

    /// The key this property is written under.
    pub fn get_identifier(&self) -> (s: String)
        ensures
            s@ == spec_identifier(self@),
    {
        match self {
            ServerPropertySetting::EnableJmxMonitoring(_) => string_from_chars(&['e', 'n', 'a', 'b', 'l', 'e', '-', 'j', 'm', 'x', '-', 'm', 'o', 'n', 'i', 't', 'o', 'r', 'i', 'n', 'g']),
            ServerPropertySetting::RconPort(_) => string_from_chars(&['r', 'c', 'o', 'n', '.', 'p', 'o', 'r', 't']),
            ServerPropertySetting::LevelSeed(_) => string_from_chars(&['l', 'e', 'v', 'e', 'l', '-', 's', 'e', 'e', 'd']),
            ServerPropertySetting::Gamemode(_) => string_from_chars(&['g', 'a', 'm', 'e', 'm', 'o', 'd', 'e']),
            ServerPropertySetting::EnableCommandBlock(_) => string_from_chars(&['e', 'n', 'a', 'b', 'l', 'e', '-', 'c', 'o', 'm', 'm', 'a', 'n', 'd', '-', 'b', 'l', 'o', 'c', 'k']),
            ServerPropertySetting::EnableQuery(_) => string_from_chars(&['e', 'n', 'a', 'b', 'l', 'e', '-', 'q', 'u', 'e', 'r', 'y']),
            ServerPropertySetting::GeneratorSettings(_) => string_from_chars(&['g', 'e', 'n', 'e', 'r', 'a', 't', 'o', 'r', '-', 's', 'e', 't', 't', 'i', 'n', 'g', 's']),
            ServerPropertySetting::EnforceSecureProfile(_) => string_from_chars(&['e', 'n', 'f', 'o', 'r', 'c', 'e', '-', 's', 'e', 'c', 'u', 'r', 'e', '-', 'p', 'r', 'o', 'f', 'i', 'l', 'e']),
            ServerPropertySetting::LevelName(_) => string_from_chars(&['l', 'e', 'v', 'e', 'l', '-', 'n', 'a', 'm', 'e']),
            ServerPropertySetting::Motd(_) => string_from_chars(&['m', 'o', 't', 'd']),
            ServerPropertySetting::QueryPort(_) => string_from_chars(&['q', 'u', 'e', 'r', 'y', '.', 'p', 'o', 'r', 't']),
            ServerPropertySetting::Pvp(_) => string_from_chars(&['p', 'v', 'p']),
            ServerPropertySetting::GenerateStructures(_) => string_from_chars(&['g', 'e', 'n', 'e', 'r', 'a', 't', 'e', '-', 's', 't', 'r', 'u', 'c', 't', 'u', 'r', 'e', 's']),
            ServerPropertySetting::MaxChainedNeighborUpdates(_) => string_from_chars(&['m', 'a', 'x', '-', 'c', 'h', 'a', 'i', 'n', 'e', 'd', '-', 'n', 'e', 'i', 'g', 'h', 'b', 'o', 'r', '-', 'u', 'p', 'd', 'a', 't', 'e', 's']),
            ServerPropertySetting::Difficulty(_) => string_from_chars(&['d', 'i', 'f', 'f', 'i', 'c', 'u', 'l', 't', 'y']),
            ServerPropertySetting::NetworkCompressionThreshold(_) => string_from_chars(&['n', 'e', 't', 'w', 'o', 'r', 'k', '-', 'c', 'o', 'm', 'p', 'r', 'e', 's', 's', 'i', 'o', 'n', '-', 't', 'h', 'r', 'e', 's', 'h', 'o', 'l', 'd']),
            ServerPropertySetting::RequireResourcePack(_) => string_from_chars(&['r', 'e', 'q', 'u', 'i', 'r', 'e', '-', 'r', 'e', 's', 'o', 'u', 'r', 'c', 'e', '-', 'p', 'a', 'c', 'k']),
            ServerPropertySetting::MaxTickTime(_) => string_from_chars(&['m', 'a', 'x', '-', 't', 'i', 'c', 'k', '-', 't', 'i', 'm', 'e']),
            ServerPropertySetting::MaxPlayers(_) => string_from_chars(&['m', 'a', 'x', '-', 'p', 'l', 'a', 'y', 'e', 'r', 's']),
            ServerPropertySetting::UseNativeTransport(_) => string_from_chars(&['u', 's', 'e', '-', 'n', 'a', 't', 'i', 'v', 'e', '-', 't', 'r', 'a', 'n', 's', 'p', 'o', 'r', 't']),
            ServerPropertySetting::OnlineMode(_) => string_from_chars(&['o', 'n', 'l', 'i', 'n', 'e', '-', 'm', 'o', 'd', 'e']),
            ServerPropertySetting::EnableStatus(_) => string_from_chars(&['e', 'n', 'a', 'b', 'l', 'e', '-', 's', 't', 'a', 't', 'u', 's']),
            ServerPropertySetting::AllowFlight(_) => string_from_chars(&['a', 'l', 'l', 'o', 'w', '-', 'f', 'l', 'i', 'g', 'h', 't']),
            ServerPropertySetting::InitialDisabledPacks(_) => string_from_chars(&['i', 'n', 'i', 't', 'i', 'a', 'l', '-', 'd', 'i', 's', 'a', 'b', 'l', 'e', 'd', '-', 'p', 'a', 'c', 'k', 's']),
            ServerPropertySetting::BroadcastRconToOps(_) => string_from_chars(&['b', 'r', 'o', 'a', 'd', 'c', 'a', 's', 't', '-', 'r', 'c', 'o', 'n', '-', 't', 'o', '-', 'o', 'p', 's']),
            ServerPropertySetting::ViewDistance(_) => string_from_chars(&['v', 'i', 'e', 'w', '-', 'd', 'i', 's', 't', 'a', 'n', 'c', 'e']),
            ServerPropertySetting::ResourcePackPrompt(_) => string_from_chars(&['r', 'e', 's', 'o', 'u', 'r', 'c', 'e', '-', 'p', 'a', 'c', 'k', '-', 'p', 'r', 'o', 'm', 'p', 't']),
            ServerPropertySetting::ServerIp(_) => string_from_chars(&['s', 'e', 'r', 'v', 'e', 'r', '-', 'i', 'p']),
            ServerPropertySetting::AllowNether(_) => string_from_chars(&['a', 'l', 'l', 'o', 'w', '-', 'n', 'e', 't', 'h', 'e', 'r']),
            ServerPropertySetting::ServerPort(_) => string_from_chars(&['s', 'e', 'r', 'v', 'e', 'r', '-', 'p', 'o', 'r', 't']),
            ServerPropertySetting::EnableRcon(_) => string_from_chars(&['e', 'n', 'a', 'b', 'l', 'e', '-', 'r', 'c', 'o', 'n']),
            ServerPropertySetting::SyncChunkWrites(_) => string_from_chars(&['s', 'y', 'n', 'c', '-', 'c', 'h', 'u', 'n', 'k', '-', 'w', 'r', 'i', 't', 'e', 's']),
            ServerPropertySetting::OpPermissionLevel(_) => string_from_chars(&['o', 'p', '-', 'p', 'e', 'r', 'm', 'i', 's', 's', 'i', 'o', 'n', '-', 'l', 'e', 'v', 'e', 'l']),
            ServerPropertySetting::PreventProxyConnections(_) => string_from_chars(&['p', 'r', 'e', 'v', 'e', 'n', 't', '-', 'p', 'r', 'o', 'x', 'y', '-', 'c', 'o', 'n', 'n', 'e', 'c', 't', 'i', 'o', 'n', 's']),
            ServerPropertySetting::HideOnlinePlayers(_) => string_from_chars(&['h', 'i', 'd', 'e', '-', 'o', 'n', 'l', 'i', 'n', 'e', '-', 'p', 'l', 'a', 'y', 'e', 'r', 's']),
            ServerPropertySetting::ResourcePack(_) => string_from_chars(&['r', 'e', 's', 'o', 'u', 'r', 'c', 'e', '-', 'p', 'a', 'c', 'k']),
            ServerPropertySetting::EntityBroadcastRangePercentage(_) => string_from_chars(&['e', 'n', 't', 'i', 't', 'y', '-', 'b', 'r', 'o', 'a', 'd', 'c', 'a', 's', 't', '-', 'r', 'a', 'n', 'g', 'e', '-', 'p', 'e', 'r', 'c', 'e', 'n', 't', 'a', 'g', 'e']),
            ServerPropertySetting::SimulationDistance(_) => string_from_chars(&['s', 'i', 'm', 'u', 'l', 'a', 't', 'i', 'o', 'n', '-', 'd', 'i', 's', 't', 'a', 'n', 'c', 'e']),
            ServerPropertySetting::RconPassword(_) => string_from_chars(&['r', 'c', 'o', 'n', '.', 'p', 'a', 's', 's', 'w', 'o', 'r', 'd']),
            ServerPropertySetting::PlayerIdleTimeout(_) => string_from_chars(&['p', 'l', 'a', 'y', 'e', 'r', '-', 'i', 'd', 'l', 'e', '-', 't', 'i', 'm', 'e', 'o', 'u', 't']),
            ServerPropertySetting::ForceGamemode(_) => string_from_chars(&['f', 'o', 'r', 'c', 'e', '-', 'g', 'a', 'm', 'e', 'm', 'o', 'd', 'e']),
            ServerPropertySetting::RateLimit(_) => string_from_chars(&['r', 'a', 't', 'e', '-', 'l', 'i', 'm', 'i', 't']),
            ServerPropertySetting::Hardcore(_) => string_from_chars(&['h', 'a', 'r', 'd', 'c', 'o', 'r', 'e']),
            ServerPropertySetting::WhiteList(_) => string_from_chars(&['w', 'h', 'i', 't', 'e', '-', 'l', 'i', 's', 't']),
            ServerPropertySetting::BroadcastConsoleToOps(_) => string_from_chars(&['b', 'r', 'o', 'a', 'd', 'c', 'a', 's', 't', '-', 'c', 'o', 'n', 's', 'o', 'l', 'e', '-', 't', 'o', '-', 'o', 'p', 's']),
            ServerPropertySetting::PreviewsChat(_) => string_from_chars(&['p', 'r', 'e', 'v', 'i', 'e', 'w', 's', '-', 'c', 'h', 'a', 't']),
            ServerPropertySetting::SpawnNpcs(_) => string_from_chars(&['s', 'p', 'a', 'w', 'n', '-', 'n', 'p', 'c', 's']),
            ServerPropertySetting::SpawnAnimals(_) => string_from_chars(&['s', 'p', 'a', 'w', 'n', '-', 'a', 'n', 'i', 'm', 'a', 'l', 's']),
            ServerPropertySetting::FunctionPermissionLevel(_) => string_from_chars(&['f', 'u', 'n', 'c', 't', 'i', 'o', 'n', '-', 'p', 'e', 'r', 'm', 'i', 's', 's', 'i', 'o', 'n', '-', 'l', 'e', 'v', 'e', 'l']),
            ServerPropertySetting::InitialEnabledPacks(_) => string_from_chars(&['i', 'n', 'i', 't', 'i', 'a', 'l', '-', 'e', 'n', 'a', 'b', 'l', 'e', 'd', '-', 'p', 'a', 'c', 'k', 's']),
            ServerPropertySetting::LevelType(_) => string_from_chars(&['l', 'e', 'v', 'e', 'l', '-', 't', 'y', 'p', 'e']),
            ServerPropertySetting::TextFilteringConfig(_) => string_from_chars(&['t', 'e', 'x', 't', '-', 'f', 'i', 'l', 't', 'e', 'r', 'i', 'n', 'g', '-', 'c', 'o', 'n', 'f', 'i', 'g']),
            ServerPropertySetting::SpawnMonsters(_) => string_from_chars(&['s', 'p', 'a', 'w', 'n', '-', 'm', 'o', 'n', 's', 't', 'e', 'r', 's']),
            ServerPropertySetting::EnforceWhitelist(_) => string_from_chars(&['e', 'n', 'f', 'o', 'r', 'c', 'e', '-', 'w', 'h', 'i', 't', 'e', 'l', 'i', 's', 't']),
            ServerPropertySetting::SpawnProtection(_) => string_from_chars(&['s', 'p', 'a', 'w', 'n', '-', 'p', 'r', 'o', 't', 'e', 'c', 't', 'i', 'o', 'n']),
            ServerPropertySetting::ResourcePackSha1(_) => string_from_chars(&['r', 'e', 's', 'o', 'u', 'r', 'c', 'e', '-', 'p', 'a', 'c', 'k', '-', 's', 'h', 'a', '1']),
            ServerPropertySetting::MaxWorldSize(_) => string_from_chars(&['m', 'a', 'x', '-', 'w', 'o', 'r', 'l', 'd', '-', 's', 'i', 'z', 'e']),
            ServerPropertySetting::MaxBuildHeight(_) => string_from_chars(&['m', 'a', 'x', '-', 'b', 'u', 'i', 'l', 'd', '-', 'h', 'e', 'i', 'g', 'h', 't']),
            ServerPropertySetting::Unknown(k, _) => k.clone(),
        }
    }

    /// The name shown to users.
    pub fn get_name(&self) -> (s: String)
        requires
            spec_has_name(self@),
        ensures
            s@ == spec_property_name(self@),
    {
        match self {
            ServerPropertySetting::EnableJmxMonitoring(_) => String::from_str("Enable JMX Monitoring"),
            ServerPropertySetting::RconPort(_) => String::from_str("Rcon Port"),
            ServerPropertySetting::LevelSeed(_) => String::from_str("Level Seed"),
            ServerPropertySetting::Gamemode(_) => String::from_str("Gamemode"),
            ServerPropertySetting::EnableCommandBlock(_) => String::from_str("Enable Command Block"),
            ServerPropertySetting::EnableQuery(_) => String::from_str("Enable Query"),
            ServerPropertySetting::GeneratorSettings(_) => String::from_str("Generator Settings"),
            ServerPropertySetting::EnforceSecureProfile(_) => String::from_str("Enforce Secure Profile"),
            ServerPropertySetting::LevelName(_) => String::from_str("Level Name"),
            ServerPropertySetting::Motd(_) => String::from_str("Motd"),
            ServerPropertySetting::QueryPort(_) => String::from_str("Query Port"),
            ServerPropertySetting::Pvp(_) => String::from_str("Pvp"),
            ServerPropertySetting::GenerateStructures(_) => String::from_str("Generate Structures"),
            ServerPropertySetting::MaxChainedNeighborUpdates(_) => String::from_str("Max Chained Neighbor Updates"),
            ServerPropertySetting::Difficulty(_) => String::from_str("Difficulty"),
            ServerPropertySetting::NetworkCompressionThreshold(_) => String::from_str("Network Compression Threshold"),
            ServerPropertySetting::RequireResourcePack(_) => String::from_str("Require Resource Pack"),
            ServerPropertySetting::MaxTickTime(_) => String::from_str("Max Tick Time"),
            ServerPropertySetting::MaxPlayers(_) => String::from_str("Max Players"),
            ServerPropertySetting::UseNativeTransport(_) => String::from_str("Use Native Transport"),
            ServerPropertySetting::OnlineMode(_) => String::from_str("Online Mode"),
            ServerPropertySetting::EnableStatus(_) => String::from_str("Enable Status"),
            ServerPropertySetting::AllowFlight(_) => String::from_str("Allow Flight"),
            ServerPropertySetting::InitialDisabledPacks(_) => String::from_str("Initial Disabled Packs"),
            ServerPropertySetting::BroadcastRconToOps(_) => String::from_str("Broadcast Rcon To Ops"),
            ServerPropertySetting::ViewDistance(_) => String::from_str("View Distance"),
            ServerPropertySetting::ResourcePackPrompt(_) => String::from_str("Resource Pack Prompt"),
            ServerPropertySetting::ServerIp(_) => String::from_str("Server Ip"),
            ServerPropertySetting::AllowNether(_) => String::from_str("Allow Nether"),
            ServerPropertySetting::ServerPort(_) => String::from_str("Server Port"),
            ServerPropertySetting::EnableRcon(_) => String::from_str("Enable Rcon"),
            ServerPropertySetting::SyncChunkWrites(_) => String::from_str("Sync Chunk Writes"),
            ServerPropertySetting::OpPermissionLevel(_) => String::from_str("Op Permission Level"),
            ServerPropertySetting::PreventProxyConnections(_) => String::from_str("Prevent Proxy Connections"),
            ServerPropertySetting::HideOnlinePlayers(_) => String::from_str("Hide Online Players"),
            ServerPropertySetting::ResourcePack(_) => String::from_str("Resource Pack"),
            ServerPropertySetting::EntityBroadcastRangePercentage(_) => String::from_str("Entity Broadcast Range Percentage"),
            ServerPropertySetting::SimulationDistance(_) => String::from_str("Simulation Distance"),
            ServerPropertySetting::RconPassword(_) => String::from_str("Rcon Password"),
            ServerPropertySetting::PlayerIdleTimeout(_) => String::from_str("Player Idle Timeout"),
            ServerPropertySetting::ForceGamemode(_) => String::from_str("Force Gamemode"),
            ServerPropertySetting::RateLimit(_) => String::from_str("Rate Limit"),
            ServerPropertySetting::Hardcore(_) => String::from_str("Hardcore"),
            ServerPropertySetting::WhiteList(_) => String::from_str("White List"),
            ServerPropertySetting::BroadcastConsoleToOps(_) => String::from_str("Broadcast Console To Ops"),
            ServerPropertySetting::PreviewsChat(_) => String::from_str("Previews Chat"),
            ServerPropertySetting::SpawnNpcs(_) => String::from_str("Spawn Npcs"),
            ServerPropertySetting::SpawnAnimals(_) => String::from_str("Spawn Animals"),
            ServerPropertySetting::FunctionPermissionLevel(_) => String::from_str("Function Permission Level"),
            ServerPropertySetting::InitialEnabledPacks(_) => String::from_str("Initial Enabled Packs"),
            ServerPropertySetting::LevelType(_) => String::from_str("Level Type"),
            ServerPropertySetting::TextFilteringConfig(_) => String::from_str("Text Filtering Config"),
            ServerPropertySetting::SpawnMonsters(_) => String::from_str("Spawn Monsters"),
            ServerPropertySetting::EnforceWhitelist(_) => String::from_str("Enforce Whitelist"),
            ServerPropertySetting::SpawnProtection(_) => String::from_str("Spawn Protection"),
            ServerPropertySetting::ResourcePackSha1(_) => String::from_str("Resource Pack Sha1"),
            ServerPropertySetting::MaxWorldSize(_) => String::from_str("Max World Size"),
            ServerPropertySetting::MaxBuildHeight(_) => String::from_str("Max Build Height"),
            ServerPropertySetting::Unknown(k, _) => {
                let c = str_chars(k.as_str());
                let mut s = char_to_uppercase(c[0]);
                let rest = chars_range(c.as_slice(), 1, c.len());
                let r = string_from_chars(rest.as_slice());
                push_str(&mut s, r.as_str());
                assert(rest@ =~= k@.drop_first());
                s
            },
        }
    }

    /// A short description shown to users.
    pub fn get_description(&self) -> (s: String)
        ensures
            s@ == spec_property_description(self@),
    {
        match self {
            ServerPropertySetting::EnableJmxMonitoring(_) => String::from_str("Expose JMX metrics for monitoring."),
            ServerPropertySetting::RconPort(_) => String::from_str("Port for RCON connections."),
            ServerPropertySetting::LevelSeed(_) => String::from_str("Seed for the level. If left blank, a random seed will be used."),
            ServerPropertySetting::Gamemode(_) => String::from_str("Gamemode for the server. Applied when the player joined the server for the first time. Changing this value will not change the gamemode of existing players."),
            ServerPropertySetting::EnableCommandBlock(_) => String::from_str("Enable command blocks."),
            ServerPropertySetting::EnableQuery(_) => String::from_str("Enables GameSpy4 protocol server listener. Used to get information about server."),
            ServerPropertySetting::GeneratorSettings(_) => String::from_str("A JSON string that will be used to configure the world generator. If left blank, the default generator will be used."),
            ServerPropertySetting::EnforceSecureProfile(_) => String::from_str("Enforce the use of secure authentication."),
            ServerPropertySetting::LevelName(_) => String::from_str("The folder name for the world. Defaults to world."),
            ServerPropertySetting::Motd(_) => String::from_str("The message of the day."),
            ServerPropertySetting::QueryPort(_) => String::from_str("Port for GameSpy4 protocol server listener."),
            ServerPropertySetting::Pvp(_) => String::from_str("Enable PVP."),
            ServerPropertySetting::GenerateStructures(_) => String::from_str("Enable generation of structures."),
            ServerPropertySetting::MaxChainedNeighborUpdates(_) => String::from_str("Maximum number of chained neighbor updates."),
            ServerPropertySetting::Difficulty(_) => String::from_str("Difficulty of the server."),
            ServerPropertySetting::NetworkCompressionThreshold(_) => String::from_str("A threshold for network compression. If the size of a packet exceeds this value, it will be compressed."),
            ServerPropertySetting::RequireResourcePack(_) => String::from_str("Require clients to download resource packs."),
            ServerPropertySetting::MaxTickTime(_) => String::from_str("Maximum time in milliseconds that a single tick may take before the server watchdog stops the server with a timeout error."),
            ServerPropertySetting::MaxPlayers(_) => String::from_str("Maximum number of players that can be connected to the server at the same time."),
            ServerPropertySetting::UseNativeTransport(_) => String::from_str("Use native transport."),
            ServerPropertySetting::OnlineMode(_) => String::from_str("Enable online mode."),
            ServerPropertySetting::EnableStatus(_) => String::from_str("Enable status."),
            ServerPropertySetting::AllowFlight(_) => String::from_str("Allow flight."),
            ServerPropertySetting::InitialDisabledPacks(_) => String::from_str("A list of resource packs that will be disabled by default."),
            ServerPropertySetting::BroadcastRconToOps(_) => String::from_str("Send rcon console command outputs to all online operators."),
            ServerPropertySetting::ViewDistance(_) => String::from_str("Sets the amount of world data the server sends the client, measured in chunks in each direction of the player (radius, not diameter). It determines the server-side viewing distance."),
            ServerPropertySetting::ResourcePackPrompt(_) => String::from_str("Prompt clients to download resource packs."),
            ServerPropertySetting::ServerIp(_) => String::from_str("The IP address of the server. If left blank, the server will listen on all addresses."),
            ServerPropertySetting::AllowNether(_) => String::from_str("Allow nether."),
            ServerPropertySetting::ServerPort(_) => String::from_str("The port of the server."),
            ServerPropertySetting::EnableRcon(_) => String::from_str("Enables remote access to the server console. Not recommended to expose RCON to the internet."),
            ServerPropertySetting::SyncChunkWrites(_) => String::from_str("Sync chunk writes."),
            ServerPropertySetting::OpPermissionLevel(_) => String::from_str("The permission level for operators."),
            ServerPropertySetting::PreventProxyConnections(_) => String::from_str("Prevent connections from proxy servers."),
            ServerPropertySetting::HideOnlinePlayers(_) => String::from_str("Hide online players."),
            ServerPropertySetting::ResourcePack(_) => String::from_str("The URL of the resource pack that will be used by default."),
            ServerPropertySetting::EntityBroadcastRangePercentage(_) => String::from_str("The percentage of the world that entities can be broadcasted to."),
            ServerPropertySetting::SimulationDistance(_) => String::from_str("The distance in blocks that players will be able to interact with entities."),
            ServerPropertySetting::RconPassword(_) => String::from_str("The password for RCON connections."),
            ServerPropertySetting::PlayerIdleTimeout(_) => String::from_str("The number of minutes before a player is kicked for being idle."),
            ServerPropertySetting::ForceGamemode(_) => String::from_str("Force players to join in the specified gamemode."),
            ServerPropertySetting::RateLimit(_) => String::from_str("The maximum number of packets per second that the server will accept from a single IP address."),
            ServerPropertySetting::Hardcore(_) => String::from_str("Enable hardcore mode."),
            ServerPropertySetting::WhiteList(_) => String::from_str("Enable whitelist."),
            ServerPropertySetting::BroadcastConsoleToOps(_) => String::from_str("Send console command outputs to all online operators."),
            ServerPropertySetting::PreviewsChat(_) => String::from_str("Enable chat."),
            ServerPropertySetting::SpawnNpcs(_) => String::from_str("Enable spawning of NPCs."),
            ServerPropertySetting::SpawnAnimals(_) => String::from_str("Enable spawning of animals."),
            ServerPropertySetting::FunctionPermissionLevel(_) => String::from_str("The permission level for functions."),
            ServerPropertySetting::InitialEnabledPacks(_) => String::from_str("A list of resource packs that will be enabled by default."),
            ServerPropertySetting::LevelType(_) => String::from_str("The type of world to generate."),
            ServerPropertySetting::TextFilteringConfig(_) => String::from_str("The path to the text filtering configuration file."),
            ServerPropertySetting::SpawnMonsters(_) => String::from_str("Enable spawning of hostile mobs."),
            ServerPropertySetting::EnforceWhitelist(_) => String::from_str("Enforce the use of the whitelist."),
            ServerPropertySetting::SpawnProtection(_) => String::from_str("The radius of the spawn protection area."),
            ServerPropertySetting::ResourcePackSha1(_) => String::from_str("The SHA1 hash of the resource pack that will be used by default."),
            ServerPropertySetting::MaxWorldSize(_) => String::from_str("The maximum size of the world in blocks."),
            ServerPropertySetting::MaxBuildHeight(_) => String::from_str("The maximum height of the world in blocks."),
            ServerPropertySetting::Unknown(k, x) => {
                let mut s = String::from_str("Unknown property: ");
                push_str(&mut s, k.as_str());
                push_str(&mut s, " = ");
                push_str(&mut s, x.as_str());
                push_str(&mut s, ". Please report this to the developers.");
                s
            },
        }
    }

    /// The text of this property's value.
    pub fn value_text(&self) -> (s: String)
        ensures
            s@ == spec_property_value_text(self@),
    {
        match self {
            ServerPropertySetting::EnableJmxMonitoring(x) => bool_text(*x),
            ServerPropertySetting::RconPort(x) => to_decimal(*x as u64),
            ServerPropertySetting::LevelSeed(x) => x.clone(),
            ServerPropertySetting::Gamemode(x) => x.to_string(),
            ServerPropertySetting::EnableCommandBlock(x) => bool_text(*x),
            ServerPropertySetting::EnableQuery(x) => bool_text(*x),
            ServerPropertySetting::GeneratorSettings(x) => x.clone(),
            ServerPropertySetting::EnforceSecureProfile(x) => bool_text(*x),
            ServerPropertySetting::LevelName(x) => x.clone(),
            ServerPropertySetting::Motd(x) => x.clone(),
            ServerPropertySetting::QueryPort(x) => to_decimal(*x as u64),
            ServerPropertySetting::Pvp(x) => bool_text(*x),
            ServerPropertySetting::GenerateStructures(x) => bool_text(*x),
            ServerPropertySetting::MaxChainedNeighborUpdates(x) => to_decimal(*x as u64),
            ServerPropertySetting::Difficulty(x) => x.to_string(),
            ServerPropertySetting::NetworkCompressionThreshold(x) => to_decimal(*x as u64),
            ServerPropertySetting::RequireResourcePack(x) => bool_text(*x),
            ServerPropertySetting::MaxTickTime(x) => to_decimal(*x as u64),
            ServerPropertySetting::MaxPlayers(x) => to_decimal(*x as u64),
            ServerPropertySetting::UseNativeTransport(x) => bool_text(*x),
            ServerPropertySetting::OnlineMode(x) => bool_text(*x),
            ServerPropertySetting::EnableStatus(x) => bool_text(*x),
            ServerPropertySetting::AllowFlight(x) => bool_text(*x),
            ServerPropertySetting::InitialDisabledPacks(x) => x.clone(),
            ServerPropertySetting::BroadcastRconToOps(x) => bool_text(*x),
            ServerPropertySetting::ViewDistance(x) => to_decimal(*x as u64),
            ServerPropertySetting::ResourcePackPrompt(x) => x.clone(),
            ServerPropertySetting::ServerIp(x) => x.clone(),
            ServerPropertySetting::AllowNether(x) => bool_text(*x),
            ServerPropertySetting::ServerPort(x) => to_decimal(*x as u64),
            ServerPropertySetting::EnableRcon(x) => bool_text(*x),
            ServerPropertySetting::SyncChunkWrites(x) => bool_text(*x),
            ServerPropertySetting::OpPermissionLevel(x) => to_decimal(*x as u64),
            ServerPropertySetting::PreventProxyConnections(x) => bool_text(*x),
            ServerPropertySetting::HideOnlinePlayers(x) => bool_text(*x),
            ServerPropertySetting::ResourcePack(x) => x.clone(),
            ServerPropertySetting::EntityBroadcastRangePercentage(x) => to_decimal(*x as u64),
            ServerPropertySetting::SimulationDistance(x) => to_decimal(*x as u64),
            ServerPropertySetting::RconPassword(x) => x.clone(),
            ServerPropertySetting::PlayerIdleTimeout(x) => to_decimal(*x as u64),
            ServerPropertySetting::ForceGamemode(x) => bool_text(*x),
            ServerPropertySetting::RateLimit(x) => to_decimal(*x as u64),
            ServerPropertySetting::Hardcore(x) => bool_text(*x),
            ServerPropertySetting::WhiteList(x) => bool_text(*x),
            ServerPropertySetting::BroadcastConsoleToOps(x) => bool_text(*x),
            ServerPropertySetting::PreviewsChat(x) => bool_text(*x),
            ServerPropertySetting::SpawnNpcs(x) => bool_text(*x),
            ServerPropertySetting::SpawnAnimals(x) => bool_text(*x),
            ServerPropertySetting::FunctionPermissionLevel(x) => to_decimal(*x as u64),
            ServerPropertySetting::InitialEnabledPacks(x) => x.clone(),
            ServerPropertySetting::LevelType(x) => x.clone(),
            ServerPropertySetting::TextFilteringConfig(x) => x.clone(),
            ServerPropertySetting::SpawnMonsters(x) => bool_text(*x),
            ServerPropertySetting::EnforceWhitelist(x) => bool_text(*x),
            ServerPropertySetting::SpawnProtection(x) => to_decimal(*x as u64),
            ServerPropertySetting::ResourcePackSha1(x) => x.clone(),
            ServerPropertySetting::MaxWorldSize(x) => to_decimal(*x as u64),
            ServerPropertySetting::MaxBuildHeight(x) => to_decimal(*x as u64),
            ServerPropertySetting::Unknown(_, x) => x.clone(),
        }
    }

    /// The `key=value` line of this property in `server.properties`.
    pub fn to_line(&self) -> (s: String)
        ensures
            s@ == spec_to_line(self@),
    {
        let mut s = self.get_identifier();
        push_char(&mut s, '=');
        let v = self.value_text();
        push_str(&mut s, v.as_str());
        s
    }

    /// The property a key and a value give, from their characters.
    #[verifier::rlimit(40)]
    pub fn from_key_val_chars(key: &[char], value: &[char]) -> (res: Result<ServerPropertySetting, Error>)
        ensures
            match res {
                Ok(p) => spec_from_key_val(key@, value@) == Some(p@),
                Err(e) => spec_from_key_val(key@, value@) is None && e.kind == ErrorKind::Internal,
            },
    {
        proof {
            reveal(spec_from_key_val);
        }
        let k = match key_of(key) {
            Some(k) => k,
            None => {
                return Ok(ServerPropertySetting::Unknown(string_from_chars(key), string_from_chars(value)));
            },
        };
        match k {
            PropertyKey::EnableJmxMonitoring => match parse_bool(value) {
                Some(x) => Ok(ServerPropertySetting::EnableJmxMonitoring(x)),
                None => Err(invalid_value()),
            },
            PropertyKey::RconPort => match parse_u16(value) {
                Some(x) => Ok(ServerPropertySetting::RconPort(x)),
                None => Err(invalid_value()),
            },
            PropertyKey::LevelSeed => Ok(ServerPropertySetting::LevelSeed(string_from_chars(value))),
            PropertyKey::Gamemode => match parse_gamemode(value) {
                Some(x) => Ok(ServerPropertySetting::Gamemode(x)),
                None => Err(invalid_value()),
            },
            PropertyKey::EnableCommandBlock => match parse_bool(value) {
                Some(x) => Ok(ServerPropertySetting::EnableCommandBlock(x)),
                None => Err(invalid_value()),
            },
            PropertyKey::EnableQuery => match parse_bool(value) {
                Some(x) => Ok(ServerPropertySetting::EnableQuery(x)),
                None => Err(invalid_value()),
            },
            PropertyKey::GeneratorSettings => Ok(ServerPropertySetting::GeneratorSettings(string_from_chars(value))),
            PropertyKey::EnforceSecureProfile => match parse_bool(value) {
                Some(x) => Ok(ServerPropertySetting::EnforceSecureProfile(x)),
                None => Err(invalid_value()),
            },
            PropertyKey::LevelName => Ok(ServerPropertySetting::LevelName(string_from_chars(value))),
            PropertyKey::Motd => Ok(ServerPropertySetting::Motd(string_from_chars(value))),
            PropertyKey::QueryPort => match parse_u16(value) {
                Some(x) => Ok(ServerPropertySetting::QueryPort(x)),
                None => Err(invalid_value()),
            },
            PropertyKey::Pvp => match parse_bool(value) {
                Some(x) => Ok(ServerPropertySetting::Pvp(x)),
                None => Err(invalid_value()),
            },
            PropertyKey::GenerateStructures => match parse_bool(value) {
                Some(x) => Ok(ServerPropertySetting::GenerateStructures(x)),
                None => Err(invalid_value()),
            },
            PropertyKey::MaxChainedNeighborUpdates => match parse_u32(value) {
                Some(x) => Ok(ServerPropertySetting::MaxChainedNeighborUpdates(x)),
                None => Err(invalid_value()),
            },
            PropertyKey::Difficulty => match parse_difficulty(value) {
                Some(x) => Ok(ServerPropertySetting::Difficulty(x)),
                None => Err(invalid_value()),
            },
            PropertyKey::NetworkCompressionThreshold => match parse_u32(value) {
                Some(x) => Ok(ServerPropertySetting::NetworkCompressionThreshold(x)),
                None => Err(invalid_value()),
            },
            PropertyKey::RequireResourcePack => match parse_bool(value) {
                Some(x) => Ok(ServerPropertySetting::RequireResourcePack(x)),
                None => Err(invalid_value()),
            },
            PropertyKey::MaxTickTime => match parse_u32(value) {
                Some(x) => Ok(ServerPropertySetting::MaxTickTime(x)),
                None => Err(invalid_value()),
            },
            PropertyKey::MaxPlayers => match parse_u32(value) {
                Some(x) => Ok(ServerPropertySetting::MaxPlayers(x)),
                None => Err(invalid_value()),
            },
            PropertyKey::UseNativeTransport => match parse_bool(value) {
                Some(x) => Ok(ServerPropertySetting::UseNativeTransport(x)),
                None => Err(invalid_value()),
            },
            PropertyKey::OnlineMode => match parse_bool(value) {
                Some(x) => Ok(ServerPropertySetting::OnlineMode(x)),
                None => Err(invalid_value()),
            },
            PropertyKey::EnableStatus => match parse_bool(value) {
                Some(x) => Ok(ServerPropertySetting::EnableStatus(x)),
                None => Err(invalid_value()),
            },
            PropertyKey::AllowFlight => match parse_bool(value) {
                Some(x) => Ok(ServerPropertySetting::AllowFlight(x)),
                None => Err(invalid_value()),
            },
            PropertyKey::InitialDisabledPacks => Ok(ServerPropertySetting::InitialDisabledPacks(string_from_chars(value))),
            PropertyKey::BroadcastRconToOps => match parse_bool(value) {
                Some(x) => Ok(ServerPropertySetting::BroadcastRconToOps(x)),
                None => Err(invalid_value()),
            },
            PropertyKey::ViewDistance => match parse_u32(value) {
                Some(x) => Ok(ServerPropertySetting::ViewDistance(x)),
                None => Err(invalid_value()),
            },
            PropertyKey::ResourcePackPrompt => Ok(ServerPropertySetting::ResourcePackPrompt(string_from_chars(value))),
            PropertyKey::ServerIp => Ok(ServerPropertySetting::ServerIp(string_from_chars(value))),
            PropertyKey::AllowNether => match parse_bool(value) {
                Some(x) => Ok(ServerPropertySetting::AllowNether(x)),
                None => Err(invalid_value()),
            },
            PropertyKey::ServerPort => match parse_u16(value) {
                Some(x) => Ok(ServerPropertySetting::ServerPort(x)),
                None => Err(invalid_value()),
            },
            PropertyKey::EnableRcon => match parse_bool(value) {
                Some(x) => Ok(ServerPropertySetting::EnableRcon(x)),
                None => Err(invalid_value()),
            },
            PropertyKey::SyncChunkWrites => match parse_bool(value) {
                Some(x) => Ok(ServerPropertySetting::SyncChunkWrites(x)),
                None => Err(invalid_value()),
            },
            PropertyKey::OpPermissionLevel => match parse_u32(value) {
                Some(x) => Ok(ServerPropertySetting::OpPermissionLevel(x)),
                None => Err(invalid_value()),
            },
            PropertyKey::PreventProxyConnections => match parse_bool(value) {
                Some(x) => Ok(ServerPropertySetting::PreventProxyConnections(x)),
                None => Err(invalid_value()),
            },
            PropertyKey::HideOnlinePlayers => match parse_bool(value) {
                Some(x) => Ok(ServerPropertySetting::HideOnlinePlayers(x)),
                None => Err(invalid_value()),
            },
            PropertyKey::ResourcePack => Ok(ServerPropertySetting::ResourcePack(string_from_chars(value))),
            PropertyKey::EntityBroadcastRangePercentage => match parse_u32(value) {
                Some(x) => Ok(ServerPropertySetting::EntityBroadcastRangePercentage(x)),
                None => Err(invalid_value()),
            },
            PropertyKey::SimulationDistance => match parse_u32(value) {
                Some(x) => Ok(ServerPropertySetting::SimulationDistance(x)),
                None => Err(invalid_value()),
            },
            PropertyKey::RconPassword => Ok(ServerPropertySetting::RconPassword(string_from_chars(value))),
            PropertyKey::PlayerIdleTimeout => match parse_u32(value) {
                Some(x) => Ok(ServerPropertySetting::PlayerIdleTimeout(x)),
                None => Err(invalid_value()),
            },
            PropertyKey::ForceGamemode => match parse_bool(value) {
                Some(x) => Ok(ServerPropertySetting::ForceGamemode(x)),
                None => Err(invalid_value()),
            },
            PropertyKey::RateLimit => match parse_u32(value) {
                Some(x) => Ok(ServerPropertySetting::RateLimit(x)),
                None => Err(invalid_value()),
            },
            PropertyKey::Hardcore => match parse_bool(value) {
                Some(x) => Ok(ServerPropertySetting::Hardcore(x)),
                None => Err(invalid_value()),
            },
            PropertyKey::WhiteList => match parse_bool(value) {
                Some(x) => Ok(ServerPropertySetting::WhiteList(x)),
                None => Err(invalid_value()),
            },
            PropertyKey::BroadcastConsoleToOps => match parse_bool(value) {
                Some(x) => Ok(ServerPropertySetting::BroadcastConsoleToOps(x)),
                None => Err(invalid_value()),
            },
            PropertyKey::PreviewsChat => match parse_bool(value) {
                Some(x) => Ok(ServerPropertySetting::PreviewsChat(x)),
                None => Err(invalid_value()),
            },
            PropertyKey::SpawnNpcs => match parse_bool(value) {
                Some(x) => Ok(ServerPropertySetting::SpawnNpcs(x)),
                None => Err(invalid_value()),
            },
            PropertyKey::SpawnAnimals => match parse_bool(value) {
                Some(x) => Ok(ServerPropertySetting::SpawnAnimals(x)),
                None => Err(invalid_value()),
            },
            PropertyKey::FunctionPermissionLevel => match parse_u32(value) {
                Some(x) => Ok(ServerPropertySetting::FunctionPermissionLevel(x)),
                None => Err(invalid_value()),
            },
            PropertyKey::InitialEnabledPacks => Ok(ServerPropertySetting::InitialEnabledPacks(string_from_chars(value))),
            PropertyKey::LevelType => Ok(ServerPropertySetting::LevelType(string_from_chars(value))),
            PropertyKey::TextFilteringConfig => Ok(ServerPropertySetting::TextFilteringConfig(string_from_chars(value))),
            PropertyKey::SpawnMonsters => match parse_bool(value) {
                Some(x) => Ok(ServerPropertySetting::SpawnMonsters(x)),
                None => Err(invalid_value()),
            },
            PropertyKey::EnforceWhitelist => match parse_bool(value) {
                Some(x) => Ok(ServerPropertySetting::EnforceWhitelist(x)),
                None => Err(invalid_value()),
            },
            PropertyKey::SpawnProtection => match parse_u32(value) {
                Some(x) => Ok(ServerPropertySetting::SpawnProtection(x)),
                None => Err(invalid_value()),
            },
            PropertyKey::ResourcePackSha1 => Ok(ServerPropertySetting::ResourcePackSha1(string_from_chars(value))),
            PropertyKey::MaxWorldSize => match parse_u32(value) {
                Some(x) => Ok(ServerPropertySetting::MaxWorldSize(x)),
                None => Err(invalid_value()),
            },
            PropertyKey::MaxBuildHeight => match parse_u32(value) {
                Some(x) => Ok(ServerPropertySetting::MaxBuildHeight(x)),
                None => Err(invalid_value()),
            },
        }
    }

    /// The property a key and a value give: a known key needs a valid value
    /// for it, any other key gives an unknown property.
    pub fn from_key_val(key: &str, value: &str) -> (res: Result<ServerPropertySetting, Error>)
        ensures
            match res {
                Ok(p) => spec_from_key_val(key@, value@) == Some(p@),
                Err(e) => spec_from_key_val(key@, value@) is None && e.kind == ErrorKind::Internal,
            },
    {
        let k = str_chars(key);
        let v = str_chars(value);
        Self::from_key_val_chars(k.as_slice(), v.as_slice())
    }

    /// Reads one `key=value` line of `server.properties`.
    pub fn from_str(line: &str) -> (res: Result<ServerPropertySetting, Error>)
        ensures
            match res {
                Ok(p) => spec_from_line(line@) == Some(p@),
                Err(e) => spec_from_line(line@) is None && e.kind == ErrorKind::Internal,
            },
    {
        let c = str_chars(line);
        proof {
            lemma_find(c@, '=');
        }
        let i = match find_char(c.as_slice(), '=') {
            Some(i) => i,
            None => {
                return Err(Error::new(ErrorKind::Internal, "Invalid line, no value"));
            },
        };
        let key = chars_range(c.as_slice(), 0, i);
        let rest = chars_range(c.as_slice(), i + 1, c.len());
        proof {
            lemma_find(rest@, '=');
        }
        let value = match find_char(rest.as_slice(), '=') {
            Some(j) => chars_range(rest.as_slice(), 0, j),
            None => rest,
        };
        Self::from_key_val_chars(key.as_slice(), value.as_slice())
    }

    /// Reads a property back from its manifest entry.
    #[verifier::rlimit(60)]
    pub fn try_from_setting_manifest(value: SettingManifest) -> (res: Result<ServerPropertySetting, Error>)
        ensures
            match res {
                Ok(p) => spec_property_from_manifest(value@) == Ok::<ServerPropertyView, ErrorKind>(p@),
                Err(e) => spec_property_from_manifest(value@) == Err::<ServerPropertyView, ErrorKind>(e.kind),
            },
    {
        let v = match value.get_value() {
            Some(v) => v,
            None => {
                return Err(Error::new(ErrorKind::Internal, "Internal error: value is not set"));
            },
        };
        let id = value.get_identifier();
        let idc = str_chars(id.as_str());
        let k = match key_of(idc.as_slice()) {
            Some(k) => k,
            None => {
                return Ok(ServerPropertySetting::Unknown(id.clone(), v.to_string()));
            },
        };
        match k {
            PropertyKey::EnableJmxMonitoring => Ok(ServerPropertySetting::EnableJmxMonitoring(v.try_as_boolean()?)),
            PropertyKey::RconPort => {
                let u = v.try_as_unsigned_integer()?;
                if u <= 65535 {
                    Ok(ServerPropertySetting::RconPort(u as u16))
                } else {
                    Err(Error::new(ErrorKind::Internal, "Invalid value"))
                }
            },
            PropertyKey::LevelSeed => Ok(ServerPropertySetting::LevelSeed(v.try_as_string()?.clone())),
            PropertyKey::Gamemode => {
                let s = v.try_as_string()?;
                let sc = str_chars(s.as_str());
                match parse_gamemode(sc.as_slice()) {
                    Some(g) => Ok(ServerPropertySetting::Gamemode(g)),
                    None => Err(Error::new(ErrorKind::Internal, "Invalid value")),
                }
            },
            PropertyKey::EnableCommandBlock => Ok(ServerPropertySetting::EnableCommandBlock(v.try_as_boolean()?)),
            PropertyKey::EnableQuery => Ok(ServerPropertySetting::EnableQuery(v.try_as_boolean()?)),
            PropertyKey::GeneratorSettings => Ok(ServerPropertySetting::GeneratorSettings(v.try_as_string()?.clone())),
            PropertyKey::EnforceSecureProfile => Ok(ServerPropertySetting::EnforceSecureProfile(v.try_as_boolean()?)),
            PropertyKey::LevelName => Ok(ServerPropertySetting::LevelName(v.try_as_string()?.clone())),
            PropertyKey::Motd => Ok(ServerPropertySetting::Motd(v.try_as_string()?.clone())),
            PropertyKey::QueryPort => {
                let u = v.try_as_unsigned_integer()?;
                if u <= 65535 {
                    Ok(ServerPropertySetting::QueryPort(u as u16))
                } else {
                    Err(Error::new(ErrorKind::Internal, "Invalid value"))
                }
            },
            PropertyKey::Pvp => Ok(ServerPropertySetting::Pvp(v.try_as_boolean()?)),
            PropertyKey::GenerateStructures => Ok(ServerPropertySetting::GenerateStructures(v.try_as_boolean()?)),
            PropertyKey::MaxChainedNeighborUpdates => {
                let i = v.try_as_integer()?;
                if i >= 0 {
                    Ok(ServerPropertySetting::MaxChainedNeighborUpdates(i as u32))
                } else {
                    Err(Error::new(ErrorKind::Internal, "Invalid value"))
                }
            },
            PropertyKey::Difficulty => Ok(ServerPropertySetting::Unknown(id.clone(), v.to_string())),
            PropertyKey::NetworkCompressionThreshold => Ok(ServerPropertySetting::Unknown(id.clone(), v.to_string())),
            PropertyKey::RequireResourcePack => Ok(ServerPropertySetting::Unknown(id.clone(), v.to_string())),
            PropertyKey::MaxTickTime => Ok(ServerPropertySetting::MaxTickTime(v.try_as_unsigned_integer()?)),
            PropertyKey::MaxPlayers => Ok(ServerPropertySetting::MaxPlayers(v.try_as_unsigned_integer()?)),
            PropertyKey::UseNativeTransport => Ok(ServerPropertySetting::UseNativeTransport(v.try_as_boolean()?)),
            PropertyKey::OnlineMode => Ok(ServerPropertySetting::OnlineMode(v.try_as_boolean()?)),
            PropertyKey::EnableStatus => Ok(ServerPropertySetting::EnableStatus(v.try_as_boolean()?)),
            PropertyKey::AllowFlight => Ok(ServerPropertySetting::AllowFlight(v.try_as_boolean()?)),
            PropertyKey::InitialDisabledPacks => Ok(ServerPropertySetting::InitialDisabledPacks(v.try_as_string()?.clone())),
            PropertyKey::BroadcastRconToOps => Ok(ServerPropertySetting::BroadcastRconToOps(v.try_as_boolean()?)),
            PropertyKey::ViewDistance => Ok(ServerPropertySetting::ViewDistance(v.try_as_unsigned_integer()?)),
            PropertyKey::ResourcePackPrompt => Ok(ServerPropertySetting::ResourcePackPrompt(v.try_as_string()?.clone())),
            PropertyKey::ServerIp => Ok(ServerPropertySetting::ServerIp(v.try_as_string()?.clone())),
            PropertyKey::AllowNether => Ok(ServerPropertySetting::AllowNether(v.try_as_boolean()?)),
            PropertyKey::ServerPort => {
                let u = v.try_as_unsigned_integer()?;
                if u <= 65535 {
                    Ok(ServerPropertySetting::ServerPort(u as u16))
                } else {
                    Err(Error::new(ErrorKind::Internal, "Invalid value"))
                }
            },
            PropertyKey::EnableRcon => Ok(ServerPropertySetting::EnableRcon(v.try_as_boolean()?)),
            PropertyKey::SyncChunkWrites => Ok(ServerPropertySetting::SyncChunkWrites(v.try_as_boolean()?)),
            PropertyKey::OpPermissionLevel => Ok(ServerPropertySetting::OpPermissionLevel(v.try_as_unsigned_integer()?)),
            PropertyKey::PreventProxyConnections => Ok(ServerPropertySetting::PreventProxyConnections(v.try_as_boolean()?)),
            PropertyKey::HideOnlinePlayers => Ok(ServerPropertySetting::HideOnlinePlayers(v.try_as_boolean()?)),
            PropertyKey::ResourcePack => Ok(ServerPropertySetting::ResourcePack(v.try_as_string()?.clone())),
            PropertyKey::EntityBroadcastRangePercentage => Ok(ServerPropertySetting::EntityBroadcastRangePercentage(v.try_as_unsigned_integer()?)),
            PropertyKey::SimulationDistance => Ok(ServerPropertySetting::SimulationDistance(v.try_as_unsigned_integer()?)),
            PropertyKey::RconPassword => Ok(ServerPropertySetting::RconPassword(v.try_as_string()?.clone())),
            PropertyKey::PlayerIdleTimeout => Ok(ServerPropertySetting::Unknown(id.clone(), v.to_string())),
            PropertyKey::ForceGamemode => Ok(ServerPropertySetting::Unknown(id.clone(), v.to_string())),
            PropertyKey::RateLimit => Ok(ServerPropertySetting::RateLimit(v.try_as_unsigned_integer()?)),
            PropertyKey::Hardcore => Ok(ServerPropertySetting::Hardcore(v.try_as_boolean()?)),
            PropertyKey::WhiteList => Ok(ServerPropertySetting::WhiteList(v.try_as_boolean()?)),
            PropertyKey::BroadcastConsoleToOps => Ok(ServerPropertySetting::BroadcastConsoleToOps(v.try_as_boolean()?)),
            PropertyKey::PreviewsChat => Ok(ServerPropertySetting::PreviewsChat(v.try_as_boolean()?)),
            PropertyKey::SpawnNpcs => Ok(ServerPropertySetting::SpawnNpcs(v.try_as_boolean()?)),
            PropertyKey::SpawnAnimals => Ok(ServerPropertySetting::SpawnAnimals(v.try_as_boolean()?)),
            PropertyKey::FunctionPermissionLevel => Ok(ServerPropertySetting::FunctionPermissionLevel(v.try_as_unsigned_integer()?)),
            PropertyKey::InitialEnabledPacks => Ok(ServerPropertySetting::InitialEnabledPacks(v.try_as_string()?.clone())),
            PropertyKey::LevelType => Ok(ServerPropertySetting::LevelType(v.try_as_string()?.clone())),
            PropertyKey::TextFilteringConfig => Ok(ServerPropertySetting::TextFilteringConfig(v.try_as_string()?.clone())),
            PropertyKey::SpawnMonsters => Ok(ServerPropertySetting::SpawnMonsters(v.try_as_boolean()?)),
            PropertyKey::EnforceWhitelist => Ok(ServerPropertySetting::Unknown(id.clone(), v.to_string())),
            PropertyKey::SpawnProtection => Ok(ServerPropertySetting::SpawnProtection(v.try_as_unsigned_integer()?)),
            PropertyKey::ResourcePackSha1 => Ok(ServerPropertySetting::ResourcePackSha1(v.try_as_string()?.clone())),
            PropertyKey::MaxWorldSize => Ok(ServerPropertySetting::MaxWorldSize(v.try_as_unsigned_integer()?)),
            PropertyKey::MaxBuildHeight => Ok(ServerPropertySetting::MaxBuildHeight(v.try_as_unsigned_integer()?)),
        }
    }
}

fn gamemode_options() -> (v: Vec<String>)
    ensures
        v.deep_view() == spec_gamemode_options(),
{
    let mut v: Vec<String> = Vec::new();
    v.push(Gamemode::Survival.to_string());
    v.push(Gamemode::Creative.to_string());
    v.push(Gamemode::Adventure.to_string());
    v.push(Gamemode::Spectator.to_string());
    assert(v.deep_view() =~= spec_gamemode_options());
    v
}

fn difficulty_options() -> (v: Vec<String>)
    ensures
        v.deep_view() == spec_difficulty_options(),
{
    let mut v: Vec<String> = Vec::new();
    v.push(Difficulty::Peaceful.to_string());
    v.push(Difficulty::Easy.to_string());
    v.push(Difficulty::Normal.to_string());
    v.push(Difficulty::Hard.to_string());
    assert(v.deep_view() =~= spec_difficulty_options());
    v
}

impl SettingManifest {
    /// The manifest entry that describes a server property.
    #[verifier::rlimit(60)]
    pub fn from_server_property(value: ServerPropertySetting) -> (m: SettingManifest)
        requires
            spec_has_name(value@),
        ensures
            m@ == spec_property_manifest(value@),
    {
        let id = value.get_identifier();
        let name = value.get_name();
        let description = value.get_description();
        match value {
            ServerPropertySetting::EnableJmxMonitoring(x) => SettingManifest::new_required_value(id, name, description, ConfigurableValue::Boolean(x), None, false, true),
            ServerPropertySetting::RconPort(x) => SettingManifest::new_value_with_type(id, name, description, Some(ConfigurableValue::UnsignedInteger(x as u32)), ConfigurableValueType::UnsignedInteger { min: Some(0), max: Some(65535) }, None, false, true),
            ServerPropertySetting::LevelSeed(x) => SettingManifest::new_required_value(id, name, description, ConfigurableValue::String(x), None, false, true),
            ServerPropertySetting::Gamemode(x) => SettingManifest::new_value_with_type(id, name, description, Some(ConfigurableValue::Enum(x.to_string())), ConfigurableValueType::Enum { options: gamemode_options() }, None, false, true),
            ServerPropertySetting::EnableCommandBlock(x) => SettingManifest::new_required_value(id, name, description, ConfigurableValue::Boolean(x), None, false, true),
            ServerPropertySetting::EnableQuery(x) => SettingManifest::new_required_value(id, name, description, ConfigurableValue::Boolean(x), None, false, true),
            ServerPropertySetting::GeneratorSettings(x) => SettingManifest::new_required_value(id, name, description, ConfigurableValue::String(x), None, false, true),
            ServerPropertySetting::EnforceSecureProfile(x) => SettingManifest::new_required_value(id, name, description, ConfigurableValue::Boolean(x), None, false, true),
            ServerPropertySetting::LevelName(x) => SettingManifest::new_required_value(id, name, description, ConfigurableValue::String(x), None, false, true),
            ServerPropertySetting::Motd(x) => SettingManifest::new_required_value(id, name, description, ConfigurableValue::String(x), None, false, true),
            ServerPropertySetting::QueryPort(x) => SettingManifest::new_value_with_type(id, name, description, Some(ConfigurableValue::UnsignedInteger(x as u32)), ConfigurableValueType::UnsignedInteger { min: Some(0), max: Some(65535) }, None, false, true),
            ServerPropertySetting::Pvp(x) => SettingManifest::new_required_value(id, name, description, ConfigurableValue::Boolean(x), None, false, true),
            ServerPropertySetting::GenerateStructures(x) => SettingManifest::new_required_value(id, name, description, ConfigurableValue::Boolean(x), None, false, true),
            ServerPropertySetting::MaxChainedNeighborUpdates(x) => SettingManifest::new_required_value(id, name, description, ConfigurableValue::UnsignedInteger(x as u32), None, false, true),
            ServerPropertySetting::Difficulty(x) => SettingManifest::new_value_with_type(id, name, description, Some(ConfigurableValue::Enum(x.to_string())), ConfigurableValueType::Enum { options: difficulty_options() }, None, false, true),
            ServerPropertySetting::NetworkCompressionThreshold(x) => SettingManifest::new_required_value(id, name, description, ConfigurableValue::UnsignedInteger(x as u32), None, false, true),
            ServerPropertySetting::RequireResourcePack(x) => SettingManifest::new_required_value(id, name, description, ConfigurableValue::Boolean(x), None, false, true),
            ServerPropertySetting::MaxTickTime(x) => SettingManifest::new_required_value(id, name, description, ConfigurableValue::UnsignedInteger(x as u32), None, false, true),
            ServerPropertySetting::MaxPlayers(x) => SettingManifest::new_required_value(id, name, description, ConfigurableValue::UnsignedInteger(x as u32), None, false, true),
            ServerPropertySetting::UseNativeTransport(x) => SettingManifest::new_required_value(id, name, description, ConfigurableValue::Boolean(x), None, false, true),
            ServerPropertySetting::OnlineMode(x) => SettingManifest::new_required_value(id, name, description, ConfigurableValue::Boolean(x), None, false, true),
            ServerPropertySetting::EnableStatus(x) => SettingManifest::new_required_value(id, name, description, ConfigurableValue::Boolean(x), None, false, true),
            ServerPropertySetting::AllowFlight(x) => SettingManifest::new_required_value(id, name, description, ConfigurableValue::Boolean(x), None, false, true),
            ServerPropertySetting::InitialDisabledPacks(x) => SettingManifest::new_required_value(id, name, description, ConfigurableValue::String(x), None, false, true),
            ServerPropertySetting::BroadcastRconToOps(x) => SettingManifest::new_required_value(id, name, description, ConfigurableValue::Boolean(x), None, false, true),
            ServerPropertySetting::ViewDistance(x) => SettingManifest::new_required_value(id, name, description, ConfigurableValue::UnsignedInteger(x as u32), None, false, true),
            ServerPropertySetting::ResourcePackPrompt(x) => SettingManifest::new_required_value(id, name, description, ConfigurableValue::String(x), None, false, true),
            ServerPropertySetting::ServerIp(x) => SettingManifest::new_required_value(id, name, description, ConfigurableValue::String(x), None, false, true),
            ServerPropertySetting::AllowNether(x) => SettingManifest::new_required_value(id, name, description, ConfigurableValue::Boolean(x), None, false, true),
            ServerPropertySetting::ServerPort(x) => SettingManifest::new_required_value(id, name, description, ConfigurableValue::UnsignedInteger(x as u32), None, false, true),
            ServerPropertySetting::EnableRcon(x) => SettingManifest::new_required_value(id, name, description, ConfigurableValue::Boolean(x), None, false, true),
            ServerPropertySetting::SyncChunkWrites(x) => SettingManifest::new_required_value(id, name, description, ConfigurableValue::Boolean(x), None, false, true),
            ServerPropertySetting::OpPermissionLevel(x) => SettingManifest::new_required_value(id, name, description, ConfigurableValue::UnsignedInteger(x as u32), None, false, true),
            ServerPropertySetting::PreventProxyConnections(x) => SettingManifest::new_required_value(id, name, description, ConfigurableValue::Boolean(x), None, false, true),
            ServerPropertySetting::HideOnlinePlayers(x) => SettingManifest::new_required_value(id, name, description, ConfigurableValue::Boolean(x), None, false, true),
            ServerPropertySetting::ResourcePack(x) => SettingManifest::new_required_value(id, name, description, ConfigurableValue::String(x), None, false, true),
            ServerPropertySetting::EntityBroadcastRangePercentage(x) => SettingManifest::new_required_value(id, name, description, ConfigurableValue::UnsignedInteger(x as u32), None, false, true),
            ServerPropertySetting::SimulationDistance(x) => SettingManifest::new_required_value(id, name, description, ConfigurableValue::UnsignedInteger(x as u32), None, false, true),
            ServerPropertySetting::RconPassword(x) => SettingManifest::new_required_value(id, name, description, ConfigurableValue::String(x), None, true, true),
            ServerPropertySetting::PlayerIdleTimeout(x) => SettingManifest::new_required_value(id, name, description, ConfigurableValue::UnsignedInteger(x as u32), None, false, true),
            ServerPropertySetting::ForceGamemode(x) => SettingManifest::new_required_value(id, name, description, ConfigurableValue::Boolean(x), None, false, true),
            ServerPropertySetting::RateLimit(x) => SettingManifest::new_required_value(id, name, description, ConfigurableValue::UnsignedInteger(x as u32), None, false, true),
            ServerPropertySetting::Hardcore(x) => SettingManifest::new_required_value(id, name, description, ConfigurableValue::Boolean(x), None, false, true),
            ServerPropertySetting::WhiteList(x) => SettingManifest::new_required_value(id, name, description, ConfigurableValue::Boolean(x), None, false, true),
            ServerPropertySetting::BroadcastConsoleToOps(x) => SettingManifest::new_required_value(id, name, description, ConfigurableValue::Boolean(x), None, false, true),
            ServerPropertySetting::PreviewsChat(x) => SettingManifest::new_required_value(id, name, description, ConfigurableValue::Boolean(x), None, false, true),
            ServerPropertySetting::SpawnNpcs(x) => SettingManifest::new_required_value(id, name, description, ConfigurableValue::Boolean(x), None, false, true),
            ServerPropertySetting::SpawnAnimals(x) => SettingManifest::new_required_value(id, name, description, ConfigurableValue::Boolean(x), None, false, true),
            ServerPropertySetting::FunctionPermissionLevel(x) => SettingManifest::new_required_value(id, name, description, ConfigurableValue::UnsignedInteger(x as u32), None, false, true),
            ServerPropertySetting::InitialEnabledPacks(x) => SettingManifest::new_required_value(id, name, description, ConfigurableValue::String(x), None, false, true),
            ServerPropertySetting::LevelType(x) => SettingManifest::new_required_value(id, name, description, ConfigurableValue::String(x), None, false, true),
            ServerPropertySetting::TextFilteringConfig(x) => SettingManifest::new_required_value(id, name, description, ConfigurableValue::String(x), None, false, true),
            ServerPropertySetting::SpawnMonsters(x) => SettingManifest::new_required_value(id, name, description, ConfigurableValue::Boolean(x), None, false, true),
            ServerPropertySetting::EnforceWhitelist(x) => SettingManifest::new_required_value(id, name, description, ConfigurableValue::Boolean(x), None, false, true),
            ServerPropertySetting::SpawnProtection(x) => SettingManifest::new_required_value(id, name, description, ConfigurableValue::UnsignedInteger(x as u32), None, false, true),
            ServerPropertySetting::ResourcePackSha1(x) => SettingManifest::new_required_value(id, name, description, ConfigurableValue::String(x), None, false, true),
            ServerPropertySetting::MaxWorldSize(x) => SettingManifest::new_required_value(id, name, description, ConfigurableValue::UnsignedInteger(x as u32), None, false, true),
            ServerPropertySetting::MaxBuildHeight(x) => SettingManifest::new_required_value(id, name, description, ConfigurableValue::UnsignedInteger(x as u32), None, false, true),
            ServerPropertySetting::Unknown(_, x) => SettingManifest::new_required_value(id, name, description, ConfigurableValue::String(x), None, false, true),
        }
    }
}

/// Whether a property survives being written as a line and read back: its
/// texts must hold no `=`, and an unknown key must not be one of the known keys.
pub open spec fn spec_line_roundtrips(p: ServerPropertyView) -> bool {
    &&& !spec_property_value_text(p).contains('=')
    &&& match p {
        ServerPropertyView::Unknown(k, _) => !k.contains('=') && spec_key_of(k) is None,
        _ => true,
    }
}

proof fn lemma_value_text(p: ServerPropertyView)
    requires
        spec_property_key(p) is Some,
    ensures
        spec_value_for(spec_property_key(p)->0, spec_property_value_text(p)) == Some(p),
{
    match p {
        ServerPropertyView::EnableJmxMonitoring(x) => { lemma_parse_bool_text(x); },
        ServerPropertyView::RconPort(x) => { lemma_parse_decimal(x as nat, u16::MAX as nat); },
        ServerPropertyView::LevelSeed(_) => {},
        ServerPropertyView::Gamemode(x) => { lemma_gamemode_text(x); },
        ServerPropertyView::EnableCommandBlock(x) => { lemma_parse_bool_text(x); },
        ServerPropertyView::EnableQuery(x) => { lemma_parse_bool_text(x); },
        ServerPropertyView::GeneratorSettings(_) => {},
        ServerPropertyView::EnforceSecureProfile(x) => { lemma_parse_bool_text(x); },
        ServerPropertyView::LevelName(_) => {},
        ServerPropertyView::Motd(_) => {},
        ServerPropertyView::QueryPort(x) => { lemma_parse_decimal(x as nat, u16::MAX as nat); },
        ServerPropertyView::Pvp(x) => { lemma_parse_bool_text(x); },
        ServerPropertyView::GenerateStructures(x) => { lemma_parse_bool_text(x); },
        ServerPropertyView::MaxChainedNeighborUpdates(x) => { lemma_parse_decimal(x as nat, u32::MAX as nat); },
        ServerPropertyView::Difficulty(x) => { lemma_difficulty_text(x); },
        ServerPropertyView::NetworkCompressionThreshold(x) => { lemma_parse_decimal(x as nat, u32::MAX as nat); },
        ServerPropertyView::RequireResourcePack(x) => { lemma_parse_bool_text(x); },
        ServerPropertyView::MaxTickTime(x) => { lemma_parse_decimal(x as nat, u32::MAX as nat); },
        ServerPropertyView::MaxPlayers(x) => { lemma_parse_decimal(x as nat, u32::MAX as nat); },
        ServerPropertyView::UseNativeTransport(x) => { lemma_parse_bool_text(x); },
        ServerPropertyView::OnlineMode(x) => { lemma_parse_bool_text(x); },
        ServerPropertyView::EnableStatus(x) => { lemma_parse_bool_text(x); },
        ServerPropertyView::AllowFlight(x) => { lemma_parse_bool_text(x); },
        ServerPropertyView::InitialDisabledPacks(_) => {},
        ServerPropertyView::BroadcastRconToOps(x) => { lemma_parse_bool_text(x); },
        ServerPropertyView::ViewDistance(x) => { lemma_parse_decimal(x as nat, u32::MAX as nat); },
        ServerPropertyView::ResourcePackPrompt(_) => {},
        ServerPropertyView::ServerIp(_) => {},
        ServerPropertyView::AllowNether(x) => { lemma_parse_bool_text(x); },
        ServerPropertyView::ServerPort(x) => { lemma_parse_decimal(x as nat, u16::MAX as nat); },
        ServerPropertyView::EnableRcon(x) => { lemma_parse_bool_text(x); },
        ServerPropertyView::SyncChunkWrites(x) => { lemma_parse_bool_text(x); },
        ServerPropertyView::OpPermissionLevel(x) => { lemma_parse_decimal(x as nat, u32::MAX as nat); },
        ServerPropertyView::PreventProxyConnections(x) => { lemma_parse_bool_text(x); },
        ServerPropertyView::HideOnlinePlayers(x) => { lemma_parse_bool_text(x); },
        ServerPropertyView::ResourcePack(_) => {},
        ServerPropertyView::EntityBroadcastRangePercentage(x) => { lemma_parse_decimal(x as nat, u32::MAX as nat); },
        ServerPropertyView::SimulationDistance(x) => { lemma_parse_decimal(x as nat, u32::MAX as nat); },
        ServerPropertyView::RconPassword(_) => {},
        ServerPropertyView::PlayerIdleTimeout(x) => { lemma_parse_decimal(x as nat, u32::MAX as nat); },
        ServerPropertyView::ForceGamemode(x) => { lemma_parse_bool_text(x); },
        ServerPropertyView::RateLimit(x) => { lemma_parse_decimal(x as nat, u32::MAX as nat); },
        ServerPropertyView::Hardcore(x) => { lemma_parse_bool_text(x); },
        ServerPropertyView::WhiteList(x) => { lemma_parse_bool_text(x); },
        ServerPropertyView::BroadcastConsoleToOps(x) => { lemma_parse_bool_text(x); },
        ServerPropertyView::PreviewsChat(x) => { lemma_parse_bool_text(x); },
        ServerPropertyView::SpawnNpcs(x) => { lemma_parse_bool_text(x); },
        ServerPropertyView::SpawnAnimals(x) => { lemma_parse_bool_text(x); },
        ServerPropertyView::FunctionPermissionLevel(x) => { lemma_parse_decimal(x as nat, u32::MAX as nat); },
        ServerPropertyView::InitialEnabledPacks(_) => {},
        ServerPropertyView::LevelType(_) => {},
        ServerPropertyView::TextFilteringConfig(_) => {},
        ServerPropertyView::SpawnMonsters(x) => { lemma_parse_bool_text(x); },
        ServerPropertyView::EnforceWhitelist(x) => { lemma_parse_bool_text(x); },
        ServerPropertyView::SpawnProtection(x) => { lemma_parse_decimal(x as nat, u32::MAX as nat); },
        ServerPropertyView::ResourcePackSha1(_) => {},
        ServerPropertyView::MaxWorldSize(x) => { lemma_parse_decimal(x as nat, u32::MAX as nat); },
        ServerPropertyView::MaxBuildHeight(x) => { lemma_parse_decimal(x as nat, u32::MAX as nat); },
        ServerPropertyView::Unknown(_, _) => {},
    }
}

/// Writing a property as a `key=value` line and reading the line back gives the
/// same property, whenever its texts hold no `=` and an unknown key is not one
/// of the known keys.
pub proof fn lemma_line_roundtrip(p: ServerPropertyView)
    requires
        spec_line_roundtrips(p),
    ensures
        spec_from_line(spec_to_line(p)) == Some(p),
{
    reveal(spec_from_key_val);
    let id = spec_identifier(p);
    let text = spec_property_value_text(p);
    let line = spec_to_line(p);
    match spec_property_key(p) {
        Some(k) => {
            lemma_key_text(k);
            lemma_value_text(p);
        },
        None => {},
    }
    assert(!id.contains('='));
    assert(line[id.len() as int] == '=');
    assert forall|j: int| 0 <= j < id.len() implies line[j] != '=' by {
        assert(line[j] == id[j]);
        if id[j] == '=' {
            assert(id.contains('='));
        }
    }
    lemma_find_at(line, '=', id.len() as int);
    assert(line.subrange(0, id.len() as int) =~= id);
    assert(line.subrange(id.len() as int + 1, line.len() as int) =~= text);
    lemma_find_none(text, '=');
}

/// Whether a property survives being described in a manifest entry and read
/// back from it. Game mode (kept as an enum value but read as a string),
/// max-chained-neighbor-updates (kept unsigned but read as signed) and the
/// keys that are not read back (difficulty, network-compression-threshold,
/// require-resource-pack, player-idle-timeout, force-gamemode,
/// enforce-whitelist) do not.
pub open spec fn spec_manifest_roundtrips(p: ServerPropertyView) -> bool {
    match p {
        ServerPropertyView::EnableJmxMonitoring(_) => true,
        ServerPropertyView::RconPort(_) => true,
        ServerPropertyView::LevelSeed(_) => true,
        ServerPropertyView::EnableCommandBlock(_) => true,
        ServerPropertyView::EnableQuery(_) => true,
        ServerPropertyView::GeneratorSettings(_) => true,
        ServerPropertyView::EnforceSecureProfile(_) => true,
        ServerPropertyView::LevelName(_) => true,
        ServerPropertyView::Motd(_) => true,
        ServerPropertyView::QueryPort(_) => true,
        ServerPropertyView::Pvp(_) => true,
        ServerPropertyView::GenerateStructures(_) => true,
        ServerPropertyView::MaxTickTime(_) => true,
        ServerPropertyView::MaxPlayers(_) => true,
        ServerPropertyView::UseNativeTransport(_) => true,
        ServerPropertyView::OnlineMode(_) => true,
        ServerPropertyView::EnableStatus(_) => true,
        ServerPropertyView::AllowFlight(_) => true,
        ServerPropertyView::InitialDisabledPacks(_) => true,
        ServerPropertyView::BroadcastRconToOps(_) => true,
        ServerPropertyView::ViewDistance(_) => true,
        ServerPropertyView::ResourcePackPrompt(_) => true,
        ServerPropertyView::ServerIp(_) => true,
        ServerPropertyView::AllowNether(_) => true,
        ServerPropertyView::ServerPort(_) => true,
        ServerPropertyView::EnableRcon(_) => true,
        ServerPropertyView::SyncChunkWrites(_) => true,
        ServerPropertyView::OpPermissionLevel(_) => true,
        ServerPropertyView::PreventProxyConnections(_) => true,
        ServerPropertyView::HideOnlinePlayers(_) => true,
        ServerPropertyView::ResourcePack(_) => true,
        ServerPropertyView::EntityBroadcastRangePercentage(_) => true,
        ServerPropertyView::SimulationDistance(_) => true,
        ServerPropertyView::RconPassword(_) => true,
        ServerPropertyView::RateLimit(_) => true,
        ServerPropertyView::Hardcore(_) => true,
        ServerPropertyView::WhiteList(_) => true,
        ServerPropertyView::BroadcastConsoleToOps(_) => true,
        ServerPropertyView::PreviewsChat(_) => true,
        ServerPropertyView::SpawnNpcs(_) => true,
        ServerPropertyView::SpawnAnimals(_) => true,
        ServerPropertyView::FunctionPermissionLevel(_) => true,
        ServerPropertyView::InitialEnabledPacks(_) => true,
        ServerPropertyView::LevelType(_) => true,
        ServerPropertyView::TextFilteringConfig(_) => true,
        ServerPropertyView::SpawnMonsters(_) => true,
        ServerPropertyView::SpawnProtection(_) => true,
        ServerPropertyView::ResourcePackSha1(_) => true,
        ServerPropertyView::MaxWorldSize(_) => true,
        ServerPropertyView::MaxBuildHeight(_) => true,
        ServerPropertyView::Unknown(k, _) => k.len() > 0 && spec_key_of(k) is None,
        _ => false,
    }
}

/// Describing a property in a manifest entry and reading it back gives the same
/// property, for every property that `spec_manifest_roundtrips` admits.
pub proof fn lemma_manifest_roundtrip(p: ServerPropertyView)
    requires
        spec_manifest_roundtrips(p),
    ensures
        spec_property_from_manifest(spec_property_manifest(p)) == Ok::<ServerPropertyView, ErrorKind>(p),
{
    match spec_property_key(p) {
        Some(k) => {
            lemma_key_text(k);
        },
        None => {},
    }
}

// ---------------------------------------------------------------------------
// The properties file
// ---------------------------------------------------------------------------

/// Whether every setting of a section has a value.
pub open spec fn spec_all_set(section: Seq<SettingManifestView>) -> bool {
    forall|i: int| 0 <= i < section.len() ==> (#[trigger] section[i]).value is Some
}

/// The text of `server.properties` for the server-property section: a
/// `key=value` line for each setting, in order.
pub open spec fn spec_properties_text(section: Seq<SettingManifestView>) -> Seq<char>
    decreases section.len(),
{
    if section.len() == 0 {
        Seq::empty()
    } else {
        spec_properties_text(section.drop_last()) + section.last().setting_id + "="@
            + spec_value_text(section.last().value->0) + "\n"@
    }
}

/// The text of `server.properties` for the server-property section (see
/// [`spec_properties_text`]); every setting must have a value.
pub fn properties_text(section: &Vec<SettingManifest>) -> (s: String)
    requires
        spec_all_set(section@.map_values(|m: SettingManifest| m@)),
    ensures
        s@ == spec_properties_text(section@.map_values(|m: SettingManifest| m@)),
{
    let ghost all = section@.map_values(|m: SettingManifest| m@);
    let mut s = String::new();
    let mut i: usize = 0;
    while i < section.len()
        invariant
            i <= section.len(),
            all == section@.map_values(|m: SettingManifest| m@),
            spec_all_set(all),
            s@ == spec_properties_text(all.take(i as int)),
        decreases section.len() - i,
    {
        assert(all.take(i as int + 1).drop_last() =~= all.take(i as int));
        assert(all[i as int] == section@[i as int]@);
        push_str(&mut s, section[i].get_identifier().as_str());
        push_str(&mut s, "=");
        match section[i].get_value() {
            Some(v) => {
                let t = v.to_string();
                push_str(&mut s, t.as_str());
            },
            None => {},
        }
        push_str(&mut s, "\n");
        i = i + 1;
    }
    assert(all.take(section.len() as int) =~= all);
    s
}

/// The server properties read from the key-value pairs of
/// `server.properties`, in order: a pair that gives no property (a known
/// key with a value it does not take) is skipped.
pub open spec fn spec_read_properties(pairs: Seq<(Seq<char>, Seq<char>)>) -> Seq<ServerPropertyView>
    decreases pairs.len(),
{
    if pairs.len() == 0 {
        Seq::empty()
    } else {
        let rest = spec_read_properties(pairs.drop_last());
        match spec_from_key_val(pairs.last().0, pairs.last().1) {
            Some(p) => rest.push(p),
            None => rest,
        }
    }
}

/// The server properties read from the key-value pairs of
/// `server.properties` (see [`spec_read_properties`]).
pub fn read_properties(pairs: &Vec<(String, String)>) -> (r: Vec<ServerPropertySetting>)
    ensures
        r@.map_values(|p: ServerPropertySetting| p@) == spec_read_properties(
            pairs@.map_values(|kv: (String, String)| (kv.0@, kv.1@)),
        ),
{
    let ghost pv = pairs@.map_values(|kv: (String, String)| (kv.0@, kv.1@));
    let mut r: Vec<ServerPropertySetting> = Vec::new();
    let mut i: usize = 0;
    while i < pairs.len()
        invariant
            i <= pairs.len(),
            pv == pairs@.map_values(|kv: (String, String)| (kv.0@, kv.1@)),
            r@.map_values(|p: ServerPropertySetting| p@) == spec_read_properties(pv.take(i as int)),
        decreases pairs.len() - i,
    {
        assert(pv.take(i as int + 1).drop_last() =~= pv.take(i as int));
        assert(pv[i as int] == (pairs@[i as int].0@, pairs@[i as int].1@));
        let ghost before = r@.map_values(|p: ServerPropertySetting| p@);
        match ServerPropertySetting::from_key_val(pairs[i].0.as_str(), pairs[i].1.as_str()) {
            Ok(p) => {
                r.push(p);
                assert(r@.map_values(|p: ServerPropertySetting| p@) =~= before.push(
                    r@[r@.len() - 1]@,
                ));
            },
            Err(_) => {},
        }
        i = i + 1;
    }
    assert(pv.take(pairs.len() as int) =~= pv);
    r
}

/// Whether a property is read back from its key and value text: all are
/// but an unknown property whose key is a known one.
pub open spec fn spec_key_val_roundtrips(p: ServerPropertyView) -> bool {
    match p {
        ServerPropertyView::Unknown(k, _) => spec_key_of(k) is None,
        _ => true,
    }
}

/// A property is read back from its key and its value text.
pub proof fn lemma_key_val_roundtrip(p: ServerPropertyView)
    requires
        spec_key_val_roundtrips(p),
    ensures
        spec_from_key_val(spec_identifier(p), spec_property_value_text(p)) == Some(p),
{
    reveal(spec_from_key_val);
    match spec_property_key(p) {
        Some(k) => {
            lemma_key_text(k);
            lemma_value_text(p);
        },
        None => {},
    }
}

/// A known key's value, when it parses, gives a property of that key.
proof fn lemma_value_for_keeps_key(k: PropertyKey, v: Seq<char>)
    ensures
        spec_value_for(k, v) matches Some(q) ==> spec_property_key(q) == Some(k),
{
}

/// A text that names a known key is that key's text.
#[verifier::rlimit(60)]
proof fn lemma_key_of_text(s: Seq<char>)
    ensures
        spec_key_of(s) matches Some(k) ==> spec_key_text(k) == s,
{
}

/// A property's key names its kind: read back from its key with any value
/// text, a known property gives a property of the same kind or none; the
/// key of an unknown property is the key it holds.
pub proof fn lemma_identifier_names_kind(p: ServerPropertyView, v: Seq<char>)
    ensures
        p is Unknown ==> spec_identifier(p) == p->Unknown_0,
        !(p is Unknown) ==> (spec_from_key_val(spec_identifier(p), v) matches Some(q)
            ==> spec_property_key(q) == spec_property_key(p)),
{
    reveal(spec_from_key_val);
    match spec_property_key(p) {
        Some(k) => {
            lemma_key_text(k);
            lemma_value_for_keeps_key(k, v);
        },
        None => {},
    }
}

/// A property read from a key and a value text is keyed by that key.
pub proof fn lemma_parsed_property_keyed(key: Seq<char>, v: Seq<char>)
    ensures
        spec_from_key_val(key, v) matches Some(p) ==> spec_identifier(p) == key,
{
    reveal(spec_from_key_val);
    match spec_key_of(key) {
        Some(k) => {
            lemma_key_of_text(key);
            lemma_value_for_keeps_key(k, v);
        },
        None => {},
    }
}

/// The key-value pairs that properties are written as.
pub open spec fn spec_property_pairs(ps: Seq<ServerPropertyView>) -> Seq<(Seq<char>, Seq<char>)> {
    ps.map_values(|p: ServerPropertyView| (spec_identifier(p), spec_property_value_text(p)))
}

/// Reading the key-value pairs that properties are written as gives the
/// properties back, in order.
pub proof fn lemma_read_written_properties(ps: Seq<ServerPropertyView>)
    requires
        forall|i: int| 0 <= i < ps.len() ==> spec_key_val_roundtrips(#[trigger] ps[i]),
    ensures
        spec_read_properties(spec_property_pairs(ps)) == ps,
    decreases ps.len(),
{
    if ps.len() > 0 {
        let init = ps.drop_last();
        assert forall|i: int| 0 <= i < init.len() implies spec_key_val_roundtrips(
            #[trigger] init[i],
        ) by {
            assert(init[i] == ps[i]);
        }
        lemma_read_written_properties(init);
        assert(spec_property_pairs(ps).drop_last() =~= spec_property_pairs(init));
        lemma_key_val_roundtrip(ps.last());
        assert(init.push(ps.last()) =~= ps);
    }
}

// ---------------------------------------------------------------------------
// Remote console
// ---------------------------------------------------------------------------

/// The value of the first setting of a list with the given identifier.
pub open spec fn spec_first_value(settings: Seq<SettingManifestView>, id: Seq<char>) -> Option<
    ConfigurableValueView,
> {
    match crate::manifest::spec_first_setting(settings, id) {
        Some(m) => m.value,
        None => None,
    }
}

/// Where the remote console (RCON) of a started server is reached, from its
/// server properties: the password and the port, when `enable-rcon` is true
/// and both are given.
pub open spec fn spec_rcon_target(settings: Seq<SettingManifestView>) -> Option<(Seq<char>, u32)> {
    match (
        spec_first_value(settings, "enable-rcon"@),
        spec_first_value(settings, "rcon.password"@),
        spec_first_value(settings, "rcon.port"@),
    ) {
        (
            Some(ConfigurableValueView::Boolean(true)),
            Some(ConfigurableValueView::String(password)),
            Some(ConfigurableValueView::UnsignedInteger(port)),
        ) => Some((password, port)),
        _ => None,
    }
}

fn first_value<'a>(settings: &'a Vec<SettingManifest>, id: &str) -> (r: Option<&'a ConfigurableValue>)
    ensures
        match r {
            Some(v) => spec_first_value(settings@.map_values(|m: SettingManifest| m@), id@)
                == Some(v@),
            None => spec_first_value(settings@.map_values(|m: SettingManifest| m@), id@) is None,
        },
{
    let ghost all = settings@.map_values(|m: SettingManifest| m@);
    let mut i: usize = 0;
    assert(all.skip(0) =~= all);
    while i < settings.len()
        invariant
            i <= settings.len(),
            all == settings@.map_values(|m: SettingManifest| m@),
            crate::manifest::spec_first_setting(all, id@) == crate::manifest::spec_first_setting(
                all.skip(i as int),
                id@,
            ),
        decreases settings.len() - i,
    {
        assert(all.skip(i as int).drop_first() =~= all.skip(i as int + 1));
        assert(all.skip(i as int)[0] == settings@[i as int]@);
        if crate::text::str_eq(settings[i].get_identifier().as_str(), id) {
            return settings[i].get_value();
        }
        i = i + 1;
    }
    None
}

/// Where the remote console of a started server is reached (see
/// [`spec_rcon_target`]).
pub fn rcon_target(settings: &Vec<SettingManifest>) -> (r: Option<(String, u32)>)
    ensures
        match r {
            Some((password, port)) => spec_rcon_target(settings@.map_values(|m: SettingManifest| m@))
                == Some((password@, port)),
            None => spec_rcon_target(settings@.map_values(|m: SettingManifest| m@)) is None,
        },
{
    let enabled = first_value(settings, "enable-rcon");
    let password = first_value(settings, "rcon.password");
    let port = first_value(settings, "rcon.port");
    match (enabled, password, port) {
        (
            Some(ConfigurableValue::Boolean(true)),
            Some(ConfigurableValue::String(p)),
            Some(ConfigurableValue::UnsignedInteger(n)),
        ) => Some((p.clone(), *n)),
        _ => None,
    }
}

} // verus!
