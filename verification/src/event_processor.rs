//! Reading a Minecraft server's console: each line is split into timestamp,
//! level and message, the message is searched for a player event (a command,
//! a chat line, a join, a leave, an advancement, an illegal move), and the
//! callbacks registered for what was found are chosen.
//!
//! The callbacks themselves are held as handles of generic types, so that the
//! caller decides what a callback is and how it is run; [`EventProcessor::process`]
//! says which groups of callbacks a line triggers, and with which arguments.
use vstd::prelude::*;
use vstd::string::*;

use crate::matching::{group, regex_captures, spec_group, spec_regex_captures};
use crate::text::{
    contains_str, eq_ignore_case, first_word, spec_contains, spec_eq_ignore_case, spec_first_word,
    str_chars,
};

verus! {

// ---------------------------------------------------------------------------
// Types
// ---------------------------------------------------------------------------

/// The level of a console line.
#[derive(Debug, Clone, Copy, PartialEq, Eq, Structural)]
pub enum Signal {
    Info,
    Warn,
    Error,
}

/// What happened to a player, with its text where there is one.
#[derive(Debug)]
pub enum PlayerEventVarient {
    Joined,
    Left,
    Chat(String),
    Died(String),
    IllegalMove(String),
    Advancement(String),
    Command(String),
}

pub enum PlayerEventVarientView {
    Joined,
    Left,
    Chat(Seq<char>),
    Died(Seq<char>),
    IllegalMove(Seq<char>),
    Advancement(Seq<char>),
    Command(Seq<char>),
}

impl View for PlayerEventVarient {
    type V = PlayerEventVarientView;

    open spec fn view(&self) -> PlayerEventVarientView {
        match self {
            PlayerEventVarient::Joined => PlayerEventVarientView::Joined,
            PlayerEventVarient::Left => PlayerEventVarientView::Left,
            PlayerEventVarient::Chat(s) => PlayerEventVarientView::Chat(s@),
            PlayerEventVarient::Died(s) => PlayerEventVarientView::Died(s@),
            PlayerEventVarient::IllegalMove(s) => PlayerEventVarientView::IllegalMove(s@),
            PlayerEventVarient::Advancement(s) => PlayerEventVarientView::Advancement(s@),
            PlayerEventVarient::Command(s) => PlayerEventVarientView::Command(s@),
        }
    }
}

/// A player event read from a console message.
#[derive(Debug)]
pub struct PlayerEvent {
    pub player: String,
    pub event: PlayerEventVarient,
}

pub struct PlayerEventView {
    pub player: Seq<char>,
    pub event: PlayerEventVarientView,
}

impl View for PlayerEvent {
    type V = PlayerEventView;

    open spec fn view(&self) -> PlayerEventView {
        PlayerEventView { player: self.player@, event: self.event@ }
    }
}

impl DeepView for PlayerEvent {
    type V = PlayerEventView;

    open spec fn deep_view(&self) -> PlayerEventView {
        self@
    }
}

/// A console line split into its parts.
#[derive(Debug)]
pub struct ServerMessage {
    pub timestamp: String,
    pub signal: Signal,
    pub message: String,
    pub player_event: Option<PlayerEvent>,
}

pub struct ServerMessageView {
    pub timestamp: Seq<char>,
    pub signal: Signal,
    pub message: Seq<char>,
    pub player_event: Option<PlayerEventView>,
}

impl View for ServerMessage {
    type V = ServerMessageView;

    open spec fn view(&self) -> ServerMessageView {
        ServerMessageView {
            timestamp: self.timestamp@,
            signal: self.signal,
            message: self.message@,
            player_event: self.player_event.deep_view(),
        }
    }
}

impl DeepView for ServerMessage {
    type V = ServerMessageView;

    open spec fn deep_view(&self) -> ServerMessageView {
        self@
    }
}

// ---------------------------------------------------------------------------
// Patterns
// ---------------------------------------------------------------------------

/// A command a player ran: `[player: command]`.
pub const COMMAND_PATTERN: &'static str = r"\[(\w+): (.+)\]";

/// A chat line: `<player> text`.
pub const CHAT_PATTERN: &'static str = r"^<(.+)> (.+)";

pub const CHALLENGE_PATTERN: &'static str = r"completed the challenge \[(.+)\]";

pub const ADVANCEMENT_PATTERN: &'static str = r"has made the advancement \[(.+)\]";

pub const MOVED_TOO_QUICKLY_PATTERN: &'static str = r"moved too quickly! (.+)";

pub const MOVED_WRONGLY_PATTERN: &'static str = r"moved wrongly!";

/// `[hh:mm:ss] [thread/LEVEL]: message`.
pub const VANILLA_PATTERN: &'static str = r"^\[([0-9][0-9]:[0-9][0-9]:[0-9][0-9])\] \[(.+)/(\w+)\]: (.+)";

/// `[hh:mm:ss] [LEVEL] [thread/source]: message`.
pub const FABRIC_PATTERN: &'static str =
    r"^\[([0-9][0-9]:[0-9][0-9]:[0-9][0-9])\] \[(.+)\] \[(.+)/(.+)\]: (.+)";

/// `[hh:mm:ss LEVEL]: message`.
pub const SPIGOT_PATTERN: &'static str = r"^\[([0-9][0-9]:[0-9][0-9]:[0-9][0-9]) (.+)\]: (.+)";

/// The line a server prints once it has started.
pub const STARTUP_PATTERN: &'static str = r"Done .+! For help, type";

// ---------------------------------------------------------------------------
// Levels
// ---------------------------------------------------------------------------

/// The level a text names, whatever the case of its letters.
pub open spec fn spec_signal(s: Seq<char>) -> Option<Signal> {
    if spec_eq_ignore_case(s, "info"@) {
        Some(Signal::Info)
    } else if spec_eq_ignore_case(s, "warn"@) {
        Some(Signal::Warn)
    } else if spec_eq_ignore_case(s, "error"@) {
        Some(Signal::Error)
    } else {
        None
    }
}

impl Signal {
    /// The level a text names (`info`, `warn` or `error`, in any case).
    pub fn from_str(input: &str) -> (r: Result<Signal, ()>)
        ensures
            match spec_signal(input@) {
                Some(sig) => r == Ok::<Signal, ()>(sig),
                None => r is Err,
            },
    {
        let c = str_chars(input);
        if eq_ignore_case(c.as_slice(), "info") {
            Ok(Signal::Info)
        } else if eq_ignore_case(c.as_slice(), "warn") {
            Ok(Signal::Warn)
        } else if eq_ignore_case(c.as_slice(), "error") {
            Ok(Signal::Error)
        } else {
            Err(())
        }
    }
}

// ---------------------------------------------------------------------------
// Player events
// ---------------------------------------------------------------------------

/// The player event of a message, given what each pattern captured in it.
pub open spec fn spec_player_event_from(
    s: Seq<char>,
    command: Option<Seq<Option<Seq<char>>>>,
    chat: Option<Seq<Option<Seq<char>>>>,
    challenge: Option<Seq<Option<Seq<char>>>>,
    advancement: Option<Seq<Option<Seq<char>>>>,
    too_quickly: Option<Seq<Option<Seq<char>>>>,
    wrongly: Option<Seq<Option<Seq<char>>>>,
) -> Option<PlayerEventView> {
    if command is Some {
        Some(
            PlayerEventView {
                player: spec_group(command, 1),
                event: PlayerEventVarientView::Command(spec_group(command, 2)),
            },
        )
    } else if s.len() > 0 && s[0] == '<' {
        Some(
            PlayerEventView {
                player: spec_group(chat, 1),
                event: PlayerEventVarientView::Chat(spec_group(chat, 2)),
            },
        )
    } else if spec_contains(s, "joined the game"@) {
        Some(PlayerEventView { player: spec_first_word(s), event: PlayerEventVarientView::Joined })
    } else if spec_contains(s, "left the game"@) {
        Some(PlayerEventView { player: spec_first_word(s), event: PlayerEventVarientView::Left })
    } else if advancement is Some || challenge is Some {
        Some(
            PlayerEventView {
                player: spec_first_word(s),
                event: PlayerEventVarientView::Advancement(spec_group(advancement, 1)),
            },
        )
    } else if too_quickly is Some {
        Some(
            PlayerEventView {
                player: spec_first_word(s),
                event: PlayerEventVarientView::IllegalMove(spec_group(too_quickly, 1)),
            },
        )
    } else if wrongly is Some {
        Some(
            PlayerEventView {
                player: spec_first_word(s),
                event: PlayerEventVarientView::IllegalMove("moved wrongly"@),
            },
        )
    } else {
        None
    }
}

/// Whether a message can be read for a player event: it is not empty unless
/// it is a command, a line that starts with `<` is a chat line, and a
/// completed challenge is also worded as an advancement.
pub open spec fn spec_player_event_defined_from(
    s: Seq<char>,
    command: Option<Seq<Option<Seq<char>>>>,
    chat: Option<Seq<Option<Seq<char>>>>,
    challenge: Option<Seq<Option<Seq<char>>>>,
    advancement: Option<Seq<Option<Seq<char>>>>,
) -> bool {
    command is None ==> {
        &&& s.len() > 0
        &&& s[0] == '<' ==> chat is Some
        &&& (s[0] != '<' && !spec_contains(s, "joined the game"@) && !spec_contains(
            s,
            "left the game"@,
        ) && challenge is Some) ==> advancement is Some
    }
}

/// The player event of a console message, if it holds one.
pub open spec fn spec_parse_player_event(s: Seq<char>) -> Option<PlayerEventView> {
    spec_player_event_from(
        s,
        spec_regex_captures(COMMAND_PATTERN@, s),
        spec_regex_captures(CHAT_PATTERN@, s),
        spec_regex_captures(CHALLENGE_PATTERN@, s),
        spec_regex_captures(ADVANCEMENT_PATTERN@, s),
        spec_regex_captures(MOVED_TOO_QUICKLY_PATTERN@, s),
        spec_regex_captures(MOVED_WRONGLY_PATTERN@, s),
    )
}

pub open spec fn spec_player_event_defined(s: Seq<char>) -> bool {
    spec_player_event_defined_from(
        s,
        spec_regex_captures(COMMAND_PATTERN@, s),
        spec_regex_captures(CHAT_PATTERN@, s),
        spec_regex_captures(CHALLENGE_PATTERN@, s),
        spec_regex_captures(ADVANCEMENT_PATTERN@, s),
    )
}

/// Whether a (non-empty) message is a chat line: it starts with `<`.
pub fn is_player_message(s: &String) -> (b: bool)
    requires
        s@.len() > 0,
    ensures
        b == (s@[0] == '<'),
{
    s.as_str().get_char(0) == '<'
}

/// The player event of a message, given what each pattern captured in it.
pub fn player_event_from_captures(
    s: &String,
    command: &Option<Vec<Option<String>>>,
    chat: &Option<Vec<Option<String>>>,
    challenge: &Option<Vec<Option<String>>>,
    advancement: &Option<Vec<Option<String>>>,
    too_quickly: &Option<Vec<Option<String>>>,
    wrongly: &Option<Vec<Option<String>>>,
) -> (r: Option<PlayerEvent>)
    requires
        spec_player_event_defined_from(
            s@,
            command.deep_view(),
            chat.deep_view(),
            challenge.deep_view(),
            advancement.deep_view(),
        ),
    ensures
        r.deep_view() == spec_player_event_from(
            s@,
            command.deep_view(),
            chat.deep_view(),
            challenge.deep_view(),
            advancement.deep_view(),
            too_quickly.deep_view(),
            wrongly.deep_view(),
        ),
{
    if command.is_some() {
        return Some(
            PlayerEvent {
                event: PlayerEventVarient::Command(group(command, 2)),
                player: group(command, 1),
            },
        );
    }
    if is_player_message(s) {
        return Some(
            PlayerEvent {
                player: group(chat, 1),
                event: PlayerEventVarient::Chat(group(chat, 2)),
            },
        );
    }
    let c = str_chars(s.as_str());
    if contains_str(c.as_slice(), "joined the game") {
        Some(PlayerEvent { player: first_word(c.as_slice()), event: PlayerEventVarient::Joined })
    } else if contains_str(c.as_slice(), "left the game") {
        Some(PlayerEvent { player: first_word(c.as_slice()), event: PlayerEventVarient::Left })
    } else if advancement.is_some() || challenge.is_some() {
        Some(
            PlayerEvent {
                player: first_word(c.as_slice()),
                event: PlayerEventVarient::Advancement(group(advancement, 1)),
            },
        )
    } else if too_quickly.is_some() {
        Some(
            PlayerEvent {
                player: first_word(c.as_slice()),
                event: PlayerEventVarient::IllegalMove(group(too_quickly, 1)),
            },
        )
    } else if wrongly.is_some() {
        Some(
            PlayerEvent {
                player: first_word(c.as_slice()),
                event: PlayerEventVarient::IllegalMove(String::from_str("moved wrongly")),
            },
        )
    } else {
        None
    }
}

/// The player event of a console message, if it holds one.
pub fn parse_player_event(s: &String) -> (r: Option<PlayerEvent>)
    requires
        spec_player_event_defined(s@),
    ensures
        r.deep_view() == spec_parse_player_event(s@),
{
    let text = s.as_str();
    let command = regex_captures(COMMAND_PATTERN, text);
    let chat = regex_captures(CHAT_PATTERN, text);
    let challenge = regex_captures(CHALLENGE_PATTERN, text);
    let advancement = regex_captures(ADVANCEMENT_PATTERN, text);
    let too_quickly = regex_captures(MOVED_TOO_QUICKLY_PATTERN, text);
    let wrongly = regex_captures(MOVED_WRONGLY_PATTERN, text);
    player_event_from_captures(s, &command, &chat, &challenge, &advancement, &too_quickly, &wrongly)
}

/// Whether a message can be read for a player event, found by running the
/// patterns on it.
pub fn player_event_defined(s: &String) -> (b: bool)
    ensures
        b == spec_player_event_defined(s@),
{
    let text = s.as_str();
    let command = regex_captures(COMMAND_PATTERN, text);
    if command.is_some() {
        return true;
    }
    let c = str_chars(text);
    if c.len() == 0 {
        return false;
    }
    if c[0] == '<' {
        return regex_captures(CHAT_PATTERN, text).is_some();
    }
    if contains_str(c.as_slice(), "joined the game") || contains_str(
        c.as_slice(),
        "left the game",
    ) {
        return true;
    }
    regex_captures(CHALLENGE_PATTERN, text).is_none() || regex_captures(
        ADVANCEMENT_PATTERN,
        text,
    ).is_some()
}

/// The player event of a message, or `None` for a message that cannot be
/// read (see [`spec_player_event_defined`]).
pub fn try_parse_player_event(s: &String) -> (r: Option<Option<PlayerEvent>>)
    ensures
        match r {
            Some(pe) => spec_player_event_defined(s@) && pe.deep_view()
                == spec_parse_player_event(s@),
            None => !spec_player_event_defined(s@),
        },
{
    if player_event_defined(s) {
        Some(parse_player_event(s))
    } else {
        None
    }
}

// ---------------------------------------------------------------------------
// Console lines
// ---------------------------------------------------------------------------

/// Timestamp, level text and message of a line, from what the three line
/// patterns captured in it (tried in the order Fabric, vanilla, Spigot).
pub open spec fn spec_line_parts(
    fabric: Option<Seq<Option<Seq<char>>>>,
    vanilla: Option<Seq<Option<Seq<char>>>>,
    spigot: Option<Seq<Option<Seq<char>>>>,
) -> Option<(Seq<char>, Seq<char>, Seq<char>)> {
    if fabric is Some {
        Some((spec_group(fabric, 1), spec_group(fabric, 2), spec_group(fabric, 5)))
    } else if vanilla is Some {
        Some((spec_group(vanilla, 1), spec_group(vanilla, 3), spec_group(vanilla, 4)))
    } else if spigot is Some {
        Some((spec_group(spigot, 1), spec_group(spigot, 2), spec_group(spigot, 3)))
    } else {
        None
    }
}

pub open spec fn spec_parts_of(s: Seq<char>) -> Option<(Seq<char>, Seq<char>, Seq<char>)> {
    spec_line_parts(
        spec_regex_captures(FABRIC_PATTERN@, s),
        spec_regex_captures(VANILLA_PATTERN@, s),
        spec_regex_captures(SPIGOT_PATTERN@, s),
    )
}

/// A console line, split: `None` for a line of none of the known shapes.
pub open spec fn spec_parse(s: Seq<char>) -> Option<ServerMessageView> {
    match spec_parts_of(s) {
        Some((timestamp, level, message)) => Some(
            ServerMessageView {
                timestamp,
                signal: spec_signal(level)->0,
                message,
                player_event: spec_parse_player_event(message),
            },
        ),
        None => None,
    }
}

/// Whether a console line can be read: when it has a known shape, its level
/// is `info`, `warn` or `error` and its message can be read for a player
/// event.
pub open spec fn spec_parse_defined(s: Seq<char>) -> bool {
    match spec_parts_of(s) {
        Some((timestamp, level, message)) => spec_signal(level) is Some
            && spec_player_event_defined(message),
        None => true,
    }
}

/// Timestamp, level text and message of a line, from what the three line
/// patterns captured in it.
pub fn line_parts_from_captures(
    fabric: &Option<Vec<Option<String>>>,
    vanilla: &Option<Vec<Option<String>>>,
    spigot: &Option<Vec<Option<String>>>,
) -> (r: Option<(String, String, String)>)
    ensures
        match spec_line_parts(fabric.deep_view(), vanilla.deep_view(), spigot.deep_view()) {
            Some((t, l, m)) => match r {
                Some((rt, rl, rm)) => rt@ == t && rl@ == l && rm@ == m,
                None => false,
            },
            None => r is None,
        },
{
    if fabric.is_some() {
        Some((group(fabric, 1), group(fabric, 2), group(fabric, 5)))
    } else if vanilla.is_some() {
        Some((group(vanilla, 1), group(vanilla, 3), group(vanilla, 4)))
    } else if spigot.is_some() {
        Some((group(spigot, 1), group(spigot, 2), group(spigot, 3)))
    } else {
        None
    }
}

fn line_parts(s: &String) -> (r: Option<(String, String, String)>)
    ensures
        match spec_parts_of(s@) {
            Some((t, l, m)) => match r {
                Some((rt, rl, rm)) => rt@ == t && rl@ == l && rm@ == m,
                None => false,
            },
            None => r is None,
        },
{
    let text = s.as_str();
    let fabric = regex_captures(FABRIC_PATTERN, text);
    let vanilla = regex_captures(VANILLA_PATTERN, text);
    let spigot = regex_captures(SPIGOT_PATTERN, text);
    line_parts_from_captures(&fabric, &vanilla, &spigot)
}

/// A console line split into timestamp, level and message, with the player
/// event of the message; `None` for a line of no known shape.
pub fn parse(s: &String) -> (r: Option<ServerMessage>)
    requires
        spec_parse_defined(s@),
    ensures
        r.deep_view() == spec_parse(s@),
{
    match line_parts(s) {
        Some((timestamp, level, message)) => {
            let signal = match Signal::from_str(level.as_str()) {
                Ok(sig) => sig,
                Err(_) => {
                    assert(false);
                    Signal::Info
                },
            };
            let player_event = parse_player_event(&message);
            Some(ServerMessage { timestamp, signal, message, player_event })
        },
        None => None,
    }
}

/// Whether a console line can be read (see [`spec_parse_defined`]), found by
/// running the patterns on it.
pub fn parse_defined(s: &String) -> (b: bool)
    ensures
        b == spec_parse_defined(s@),
{
    match line_parts(s) {
        Some((_timestamp, level, message)) => Signal::from_str(level.as_str()).is_ok()
            && player_event_defined(&message),
        None => true,
    }
}

/// A console line split into its parts, or `None` for a line that cannot be
/// read (see [`spec_parse_defined`]).
pub fn try_parse(s: &String) -> (r: Option<Option<ServerMessage>>)
    ensures
        match r {
            Some(m) => spec_parse_defined(s@) && m.deep_view() == spec_parse(s@),
            None => !spec_parse_defined(s@),
        },
{
    if parse_defined(s) {
        Some(parse(s))
    } else {
        None
    }
}

// ---------------------------------------------------------------------------
// Callbacks and their dispatch
// ---------------------------------------------------------------------------

/// A group of callbacks to run, with the arguments they are given.
#[derive(Debug)]
pub enum Dispatch {
    ServerMessage(ServerMessage),
    PlayerEvent(PlayerEvent),
    PlayerJoined(String),
    PlayerLeft(String),
    Chat(String, String),
    PlayerDied(String, String),
    PlayerIllegalMoved(String, String),
    PlayerAdvancement(String, String),
    PlayerSendCommand(String, String),
    ServerStartup,
    ServerShutdown,
}

pub enum DispatchView {
    ServerMessage(ServerMessageView),
    PlayerEvent(PlayerEventView),
    PlayerJoined(Seq<char>),
    PlayerLeft(Seq<char>),
    Chat(Seq<char>, Seq<char>),
    PlayerDied(Seq<char>, Seq<char>),
    PlayerIllegalMoved(Seq<char>, Seq<char>),
    PlayerAdvancement(Seq<char>, Seq<char>),
    PlayerSendCommand(Seq<char>, Seq<char>),
    ServerStartup,
    ServerShutdown,
}

impl View for Dispatch {
    type V = DispatchView;

    open spec fn view(&self) -> DispatchView {
        match self {
            Dispatch::ServerMessage(m) => DispatchView::ServerMessage(m@),
            Dispatch::PlayerEvent(e) => DispatchView::PlayerEvent(e@),
            Dispatch::PlayerJoined(p) => DispatchView::PlayerJoined(p@),
            Dispatch::PlayerLeft(p) => DispatchView::PlayerLeft(p@),
            Dispatch::Chat(p, t) => DispatchView::Chat(p@, t@),
            Dispatch::PlayerDied(p, t) => DispatchView::PlayerDied(p@, t@),
            Dispatch::PlayerIllegalMoved(p, t) => DispatchView::PlayerIllegalMoved(p@, t@),
            Dispatch::PlayerAdvancement(p, t) => DispatchView::PlayerAdvancement(p@, t@),
            Dispatch::PlayerSendCommand(p, t) => DispatchView::PlayerSendCommand(p@, t@),
            Dispatch::ServerStartup => DispatchView::ServerStartup,
            Dispatch::ServerShutdown => DispatchView::ServerShutdown,
        }
    }
}

impl DeepView for Dispatch {
    type V = DispatchView;

    open spec fn deep_view(&self) -> DispatchView {
        self@
    }
}

/// The group of callbacks that a player event of the given kind triggers,
/// besides the callbacks for every player event.
pub open spec fn spec_player_dispatch(e: PlayerEventView) -> DispatchView {
    match e.event {
        PlayerEventVarientView::Joined => DispatchView::PlayerJoined(e.player),
        PlayerEventVarientView::Left => DispatchView::PlayerLeft(e.player),
        PlayerEventVarientView::Chat(t) => DispatchView::Chat(e.player, t),
        PlayerEventVarientView::Died(t) => DispatchView::PlayerDied(e.player, t),
        PlayerEventVarientView::IllegalMove(t) => DispatchView::PlayerIllegalMoved(e.player, t),
        PlayerEventVarientView::Advancement(t) => DispatchView::PlayerAdvancement(e.player, t),
        PlayerEventVarientView::Command(t) => DispatchView::PlayerSendCommand(e.player, t),
    }
}

/// The callback groups a console line triggers, in order: nothing for a line
/// of no known shape; else the server-message callbacks, then, when the
/// message holds a player event, the player-event callbacks and those of its
/// kind, or, when it does not and the line is the start-up line, the start-up
/// callbacks.
pub open spec fn spec_dispatch(line: Seq<char>) -> Seq<DispatchView> {
    match spec_parse(line) {
        None => Seq::empty(),
        Some(msg) => match spec_parse_player_event(msg.message) {
            Some(e) => seq![
                DispatchView::ServerMessage(msg),
                DispatchView::PlayerEvent(e),
                spec_player_dispatch(e),
            ],
            None => if spec_regex_captures(STARTUP_PATTERN@, line) is Some {
                seq![DispatchView::ServerMessage(msg), DispatchView::ServerStartup]
            } else {
                seq![DispatchView::ServerMessage(msg)]
            },
        },
    }
}

/// A console line never triggers the shutdown callbacks, whatever it holds
/// (a typed `stop` command included): they are triggered only by
/// [`EventProcessor::notify_server_shutdown`].
pub proof fn lemma_lines_never_shut_down(line: Seq<char>)
    ensures
        forall|i: int|
            0 <= i < spec_dispatch(line).len() ==> !(#[trigger] spec_dispatch(line)[i] is ServerShutdown),
{
}

fn player_dispatch(e: &PlayerEvent) -> (d: Dispatch)
    ensures
        d@ == spec_player_dispatch(e@),
{
    let player = e.player.clone();
    match &e.event {
        PlayerEventVarient::Joined => Dispatch::PlayerJoined(player),
        PlayerEventVarient::Left => Dispatch::PlayerLeft(player),
        PlayerEventVarient::Chat(t) => Dispatch::Chat(player, t.clone()),
        PlayerEventVarient::Died(t) => Dispatch::PlayerDied(player, t.clone()),
        PlayerEventVarient::IllegalMove(t) => Dispatch::PlayerIllegalMoved(player, t.clone()),
        PlayerEventVarient::Advancement(t) => Dispatch::PlayerAdvancement(player, t.clone()),
        PlayerEventVarient::Command(t) => Dispatch::PlayerSendCommand(player, t.clone()),
    }
}

/// The callbacks a console reader has registered, one list per kind of
/// happening. The type parameters are the callback handles, by the arguments
/// they take: a server message, a player event, a player name, a player name
/// and a text, and nothing.
pub struct EventProcessor<MessageFn, PlayerEventFn, PlayerFn, PlayerTextFn, SignalFn> {
    pub on_server_message: Vec<MessageFn>,
    pub on_player_event: Vec<PlayerEventFn>,
    pub on_player_joined: Vec<PlayerFn>,
    pub on_player_left: Vec<PlayerFn>,
    pub on_chat: Vec<PlayerTextFn>,
    pub on_player_died: Vec<PlayerTextFn>,
    pub on_player_illegal_moved: Vec<PlayerTextFn>,
    pub on_player_advancement: Vec<PlayerTextFn>,
    pub on_player_send_command: Vec<PlayerTextFn>,
    pub on_server_startup: Vec<SignalFn>,
    pub on_server_shutdown: Vec<SignalFn>,
    pub on_custom_event: Vec<PlayerFn>,
}

pub struct EventProcessorView<MessageFn, PlayerEventFn, PlayerFn, PlayerTextFn, SignalFn> {
    pub on_server_message: Seq<MessageFn>,
    pub on_player_event: Seq<PlayerEventFn>,
    pub on_player_joined: Seq<PlayerFn>,
    pub on_player_left: Seq<PlayerFn>,
    pub on_chat: Seq<PlayerTextFn>,
    pub on_player_died: Seq<PlayerTextFn>,
    pub on_player_illegal_moved: Seq<PlayerTextFn>,
    pub on_player_advancement: Seq<PlayerTextFn>,
    pub on_player_send_command: Seq<PlayerTextFn>,
    pub on_server_startup: Seq<SignalFn>,
    pub on_server_shutdown: Seq<SignalFn>,
    pub on_custom_event: Seq<PlayerFn>,
}

impl<M, E, P, T, N> View for EventProcessor<M, E, P, T, N> {
    type V = EventProcessorView<M, E, P, T, N>;

    open spec fn view(&self) -> EventProcessorView<M, E, P, T, N> {
        EventProcessorView {
            on_server_message: self.on_server_message@,
            on_player_event: self.on_player_event@,
            on_player_joined: self.on_player_joined@,
            on_player_left: self.on_player_left@,
            on_chat: self.on_chat@,
            on_player_died: self.on_player_died@,
            on_player_illegal_moved: self.on_player_illegal_moved@,
            on_player_advancement: self.on_player_advancement@,
            on_player_send_command: self.on_player_send_command@,
            on_server_startup: self.on_server_startup@,
            on_server_shutdown: self.on_server_shutdown@,
            on_custom_event: self.on_custom_event@,
        }
    }
}

impl<M, E, P, T, N> EventProcessor<M, E, P, T, N> {
    /// A processor with no callback.
    pub fn new() -> (ep: Self)
        ensures
            ep@ == (EventProcessorView::<M, E, P, T, N> {
                on_server_message: Seq::empty(),
                on_player_event: Seq::empty(),
                on_player_joined: Seq::empty(),
                on_player_left: Seq::empty(),
                on_chat: Seq::empty(),
                on_player_died: Seq::empty(),
                on_player_illegal_moved: Seq::empty(),
                on_player_advancement: Seq::empty(),
                on_player_send_command: Seq::empty(),
                on_server_startup: Seq::empty(),
                on_server_shutdown: Seq::empty(),
                on_custom_event: Seq::empty(),
            }),
    {
        EventProcessor {
            on_server_message: Vec::new(),
            on_player_event: Vec::new(),
            on_player_joined: Vec::new(),
            on_player_left: Vec::new(),
            on_chat: Vec::new(),
            on_player_died: Vec::new(),
            on_player_illegal_moved: Vec::new(),
            on_player_advancement: Vec::new(),
            on_player_send_command: Vec::new(),
            on_server_startup: Vec::new(),
            on_server_shutdown: Vec::new(),
            on_custom_event: Vec::new(),
        }
    }

    /// The callback groups a console line triggers (see [`spec_dispatch`]).
    pub fn process(&self, line: &String) -> (r: Vec<Dispatch>)
        requires
            spec_parse_defined(line@),
        ensures
            r.deep_view() == spec_dispatch(line@),
    {
        let mut r: Vec<Dispatch> = Vec::new();
        match parse(line) {
            None => {},
            Some(msg) => {
                let player_event = parse_player_event(&msg.message);
                let ghost msg_view = msg@;
                r.push(Dispatch::ServerMessage(msg));
                match player_event {
                    Some(e) => {
                        let d = player_dispatch(&e);
                        r.push(Dispatch::PlayerEvent(e));
                        r.push(d);
                    },
                    None => {
                        if regex_captures(STARTUP_PATTERN, line.as_str()).is_some() {
                            r.push(Dispatch::ServerStartup);
                        }
                    },
                }
                proof {
                    assert(r.deep_view() =~= spec_dispatch(line@));
                }
            },
        }
        proof {
            assert(r.deep_view() =~= spec_dispatch(line@));
        }
        r
    }

    /// The callback groups a console line triggers, or `None` for a line
    /// that cannot be read (see [`spec_parse_defined`]).
    pub fn try_process(&self, line: &String) -> (r: Option<Vec<Dispatch>>)
        ensures
            match r {
                Some(d) => spec_parse_defined(line@) && d.deep_view() == spec_dispatch(line@),
                None => !spec_parse_defined(line@),
            },
    {
        if parse_defined(line) {
            Some(self.process(line))
        } else {
            None
        }
    }

    /// Registers a callback.
    pub fn on_server_message(&mut self, callback: M)
        ensures
            final(self)@ == (EventProcessorView { on_server_message: old(self)@.on_server_message.push(callback), ..old(self)@ }),
    {
        self.on_server_message.push(callback);
    }

    /// Registers a callback.
    pub fn on_player_event(&mut self, callback: E)
        ensures
            final(self)@ == (EventProcessorView { on_player_event: old(self)@.on_player_event.push(callback), ..old(self)@ }),
    {
        self.on_player_event.push(callback);
    }

    /// Registers a callback.
    pub fn on_player_joined(&mut self, callback: P)
        ensures
            final(self)@ == (EventProcessorView { on_player_joined: old(self)@.on_player_joined.push(callback), ..old(self)@ }),
    {
        self.on_player_joined.push(callback);
    }

    /// Registers a callback.
    pub fn on_player_left(&mut self, callback: P)
        ensures
            final(self)@ == (EventProcessorView { on_player_left: old(self)@.on_player_left.push(callback), ..old(self)@ }),
    {
        self.on_player_left.push(callback);
    }

    /// Registers a callback.
    pub fn on_chat(&mut self, callback: T)
        ensures
            final(self)@ == (EventProcessorView { on_chat: old(self)@.on_chat.push(callback), ..old(self)@ }),
    {
        self.on_chat.push(callback);
    }

    /// Registers a callback.
    pub fn on_player_died(&mut self, callback: T)
        ensures
            final(self)@ == (EventProcessorView { on_player_died: old(self)@.on_player_died.push(callback), ..old(self)@ }),
    {
        self.on_player_died.push(callback);
    }

    /// Registers a callback.
    pub fn on_player_illegal_moved(&mut self, callback: T)
        ensures
            final(self)@ == (EventProcessorView { on_player_illegal_moved: old(self)@.on_player_illegal_moved.push(callback), ..old(self)@ }),
    {
        self.on_player_illegal_moved.push(callback);
    }

    /// Registers a callback.
    pub fn on_player_advancement(&mut self, callback: T)
        ensures
            final(self)@ == (EventProcessorView { on_player_advancement: old(self)@.on_player_advancement.push(callback), ..old(self)@ }),
    {
        self.on_player_advancement.push(callback);
    }

    /// Registers a callback.
    pub fn on_server_startup(&mut self, callback: N)
        ensures
            final(self)@ == (EventProcessorView { on_server_startup: old(self)@.on_server_startup.push(callback), ..old(self)@ }),
    {
        self.on_server_startup.push(callback);
    }

    /// Registers a callback for when the server process has exited (not when a
    /// stop command is sent).
    pub fn on_server_shutdown(&mut self, callback: N)
        ensures
            final(self)@ == (EventProcessorView { on_server_shutdown: old(self)@.on_server_shutdown.push(callback), ..old(self)@ }),
    {
        self.on_server_shutdown.push(callback);
    }

    /// The callback groups that the exit of the server process triggers:
    /// the shutdown callbacks alone.
    pub fn notify_server_shutdown(&mut self) -> (r: Vec<Dispatch>)
        ensures
            final(self)@ == old(self)@,
            r.deep_view() == seq![DispatchView::ServerShutdown],
    {
        let mut r: Vec<Dispatch> = Vec::new();
        r.push(Dispatch::ServerShutdown);
        proof {
            assert(r.deep_view() =~= seq![DispatchView::ServerShutdown]);
        }
        r
    }

    /// Registers a callback.
    pub fn on_player_send_command(&mut self, callback: T)
        ensures
            final(self)@ == (EventProcessorView { on_player_send_command: old(self)@.on_player_send_command.push(callback), ..old(self)@ }),
    {
        self.on_player_send_command.push(callback);
    }
}

} // verus!
