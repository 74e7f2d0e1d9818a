//! What a line of a running Minecraft server's output means: the output
//! itself, the start of the server, system messages (players joining and
//! leaving), player chat, and macro commands typed in the chat
//! (`.macro abort <pid>`, `.macro spawn <name> <args>`).
use vstd::prelude::*;
use vstd::string::*;

use crate::matching::{
    fancy_captures, fancy_is_match, group_opt, spec_fancy_captures, spec_fancy_is_match,
    spec_group_opt,
};
use crate::text::{
    lemma_first_word, lemma_parse_decimal, parse_usize, spec_decimal, spec_is_whitespace, spec_parse_unsigned, spec_words,
    split_whitespace, str_chars,
};

verus! {

/// A system message: `[...]: text`, the text not starting with `<`.
pub const SYSTEM_MESSAGE_PATTERN: &'static str = r"\[.+\]+: (?!<)(.+)";

/// A chat line: `[...]: <player> text`.
pub const PLAYER_MESSAGE_PATTERN: &'static str = r"\[.+\]+: <(.+)> (.+)";

pub const PLAYER_JOINED_PATTERN: &'static str = r"(.+) joined the game";

pub const PLAYER_LEFT_PATTERN: &'static str = r"(.+) left the game";

pub const MACRO_ABORT_PATTERN: &'static str = r"\.macro abort (.+)";

pub const MACRO_SPAWN_PATTERN: &'static str = r"\.macro spawn (.+)";

/// The line a server prints once it has started.
pub const SERVER_STARTED_PATTERN: &'static str = r#"Done \(.+\)!"#;

/// A macro command typed in the chat.
#[derive(Debug)]
pub enum MacroInstruction {
    Abort(usize),
    Spawn { player_name: String, macro_name: String, args: Vec<String> },
}

pub enum MacroInstructionView {
    Abort(usize),
    Spawn { player_name: Seq<char>, macro_name: Seq<char>, args: Seq<Seq<char>> },
}

impl View for MacroInstruction {
    type V = MacroInstructionView;

    open spec fn view(&self) -> MacroInstructionView {
        match self {
            MacroInstruction::Abort(pid) => MacroInstructionView::Abort(*pid),
            MacroInstruction::Spawn { player_name, macro_name, args } => MacroInstructionView::Spawn {
                player_name: player_name@,
                macro_name: macro_name@,
                args: args.deep_view(),
            },
        }
    }
}

impl DeepView for MacroInstruction {
    type V = MacroInstructionView;

    open spec fn deep_view(&self) -> MacroInstructionView {
        self@
    }
}

/// Something to do for a line of output.
#[derive(Debug)]
pub enum ConsoleAction {
    /// Broadcast the line as instance output.
    InstanceOutput(String),
    /// The server has started: move the instance to running.
    ServerStarted,
    /// Broadcast the line as a system message.
    SystemMessage(String),
    /// A player joined: add it to the players.
    PlayerJoined(String),
    /// A player left: remove it from the players.
    PlayerLeft(String),
    /// Broadcast a chat line.
    PlayerMessage { player: String, message: String },
    /// Run the macro command.
    Macro(MacroInstruction),
}

pub enum ConsoleActionView {
    InstanceOutput(Seq<char>),
    ServerStarted,
    SystemMessage(Seq<char>),
    PlayerJoined(Seq<char>),
    PlayerLeft(Seq<char>),
    PlayerMessage { player: Seq<char>, message: Seq<char> },
    Macro(MacroInstructionView),
}

impl View for ConsoleAction {
    type V = ConsoleActionView;

    open spec fn view(&self) -> ConsoleActionView {
        match self {
            ConsoleAction::InstanceOutput(l) => ConsoleActionView::InstanceOutput(l@),
            ConsoleAction::ServerStarted => ConsoleActionView::ServerStarted,
            ConsoleAction::SystemMessage(l) => ConsoleActionView::SystemMessage(l@),
            ConsoleAction::PlayerJoined(p) => ConsoleActionView::PlayerJoined(p@),
            ConsoleAction::PlayerLeft(p) => ConsoleActionView::PlayerLeft(p@),
            ConsoleAction::PlayerMessage { player, message } => ConsoleActionView::PlayerMessage {
                player: player@,
                message: message@,
            },
            ConsoleAction::Macro(m) => ConsoleActionView::Macro(m@),
        }
    }
}

impl DeepView for ConsoleAction {
    type V = ConsoleActionView;

    open spec fn deep_view(&self) -> ConsoleActionView {
        self@
    }
}

// ---------------------------------------------------------------------------
// The parts of a line
// ---------------------------------------------------------------------------

/// The text of a system message (its first group), given whether the pattern
/// matched and what it captured; a failed search counts as no message.
pub open spec fn spec_system_message_from(
    matched: Option<bool>,
    caps: Option<Option<Seq<Option<Seq<char>>>>>,
) -> Option<Seq<char>> {
    if matched == Some(true) {
        match caps {
            Some(Some(groups)) => Some(
                match spec_group_opt(groups, 1) {
                    Some(t) => t,
                    None => Seq::empty(),
                },
            ),
            _ => None,
        }
    } else {
        None
    }
}

pub open spec fn spec_system_message(line: Seq<char>) -> Option<Seq<char>> {
    spec_system_message_from(
        spec_fancy_is_match(SYSTEM_MESSAGE_PATTERN@, line),
        spec_fancy_captures(SYSTEM_MESSAGE_PATTERN@, line),
    )
}

/// The player and text of a chat line, given whether the pattern matched
/// and what it captured.
pub open spec fn spec_player_message_from(
    matched: bool,
    caps: Option<Option<Seq<Option<Seq<char>>>>>,
) -> Option<(Seq<char>, Seq<char>)> {
    if matched {
        match caps {
            Some(Some(groups)) => match (spec_group_opt(groups, 1), spec_group_opt(groups, 2)) {
                (Some(p), Some(m)) => Some((p, m)),
                _ => None,
            },
            _ => None,
        }
    } else {
        None
    }
}

pub open spec fn spec_player_message(line: Seq<char>) -> Option<(Seq<char>, Seq<char>)> {
    spec_player_message_from(
        spec_fancy_is_match(PLAYER_MESSAGE_PATTERN@, line) == Some(true),
        spec_fancy_captures(PLAYER_MESSAGE_PATTERN@, line),
    )
}

/// The first group of a pattern that matched (`None` when it did not, when
/// the search failed, or when the group took no part).
pub open spec fn spec_first_group_from(
    matched: bool,
    caps: Option<Option<Seq<Option<Seq<char>>>>>,
) -> Option<Seq<char>> {
    if matched {
        match caps {
            Some(Some(groups)) => spec_group_opt(groups, 1),
            _ => None,
        }
    } else {
        None
    }
}

pub open spec fn spec_first_group(pattern: Seq<char>, text: Seq<char>) -> Option<Seq<char>> {
    spec_first_group_from(
        spec_fancy_is_match(pattern, text) == Some(true),
        spec_fancy_captures(pattern, text),
    )
}

/// The macro command of a chat message from `player`, given the first group
/// of the abort pattern (when it matched) and of the spawn pattern.
pub open spec fn spec_macro_from(
    player: Seq<char>,
    abort_matched: bool,
    abort: Option<Seq<char>>,
    spawn: Option<Seq<char>>,
) -> Option<MacroInstructionView> {
    if abort_matched {
        match abort {
            Some(t) => match spec_parse_unsigned(t, usize::MAX as nat) {
                Some(n) => Some(MacroInstructionView::Abort(n as usize)),
                None => None,
            },
            None => None,
        }
    } else {
        match spawn {
            Some(t) => if spec_words(t).len() > 0 {
                Some(
                    MacroInstructionView::Spawn {
                        player_name: player,
                        macro_name: spec_words(t)[0],
                        args: spec_words(t).drop_first(),
                    },
                )
            } else {
                None
            },
            None => None,
        }
    }
}

/// A spawn command whose text holds a word spawns, for the player who sent
/// it, the macro its first word names, with the remaining words as
/// arguments; a text without words spawns nothing.
pub proof fn lemma_spawn_takes_first_word(
    player: Seq<char>,
    abort: Option<Seq<char>>,
    t: Seq<char>,
)
    ensures
        spec_words(t).len() >= 1 ==> spec_macro_from(player, false, abort, Some(t)) == Some(
            MacroInstructionView::Spawn {
                player_name: player,
                macro_name: spec_words(t)[0],
                args: spec_words(t).drop_first(),
            },
        ),
        spec_words(t).len() == 0 ==> spec_macro_from(player, false, abort, Some(t)) is None,
{
}

/// `.macro spawn <name>` spawns the macro `name` with no argument, and
/// `.macro spawn <name> <rest>` spawns it with the words of `rest` as
/// arguments, for any name without white space.
pub proof fn lemma_spawn_name_and_args(
    player: Seq<char>,
    abort: Option<Seq<char>>,
    name: Seq<char>,
    rest: Seq<char>,
)
    requires
        name.len() > 0,
        forall|j: int| 0 <= j < name.len() ==> !spec_is_whitespace(#[trigger] name[j]),
    ensures
        spec_macro_from(player, false, abort, Some(name)) == Some(
            MacroInstructionView::Spawn {
                player_name: player,
                macro_name: name,
                args: Seq::<Seq<char>>::empty(),
            },
        ),
        spec_macro_from(player, false, abort, Some(name + seq![' '] + rest)) == Some(
            MacroInstructionView::Spawn { player_name: player, macro_name: name, args: spec_words(rest) },
        ),
{
    lemma_first_word(name, rest);
    assert(seq![name].drop_first() =~= Seq::<Seq<char>>::empty());
    assert((seq![name] + spec_words(rest)).drop_first() =~= spec_words(rest));
}

/// An abort command with the decimal number of a task aborts that task.
pub proof fn lemma_abort_takes_number(player: Seq<char>, n: usize, spawn: Option<Seq<char>>)
    ensures
        spec_macro_from(player, true, Some(spec_decimal(n as nat)), spawn) == Some(
            MacroInstructionView::Abort(n),
        ),
{
    lemma_parse_decimal(n as nat, usize::MAX as nat);
}

/// The macro command of a line, when it is a chat line that holds one.
pub open spec fn spec_macro_instruction(line: Seq<char>) -> Option<MacroInstructionView> {
    match spec_player_message(line) {
        Some((player, message)) => spec_macro_from(
            player,
            spec_fancy_is_match(MACRO_ABORT_PATTERN@, message) == Some(true),
            spec_first_group(MACRO_ABORT_PATTERN@, message),
            spec_first_group(MACRO_SPAWN_PATTERN@, message),
        ),
        None => None,
    }
}

// ---------------------------------------------------------------------------
// A whole line
// ---------------------------------------------------------------------------

/// The actions for a line of output, and whether the server has started
/// after it, given whether it had before: the line is always broadcast as
/// output; the first start-up line starts the server; a system message is
/// broadcast and may tell of a player joining or (else) leaving; else a chat
/// line is broadcast and may hold a macro command.
pub open spec fn spec_console_actions(line: Seq<char>, did_start: bool) -> (
    Seq<ConsoleActionView>,
    bool,
) {
    let started = spec_fancy_is_match(SERVER_STARTED_PATTERN@, line) == Some(true) && !did_start;
    let head = seq![ConsoleActionView::InstanceOutput(line)] + if started {
        seq![ConsoleActionView::ServerStarted]
    } else {
        Seq::empty()
    };
    let rest = match spec_system_message(line) {
        Some(system) => seq![ConsoleActionView::SystemMessage(line)] + match spec_first_group(
            PLAYER_JOINED_PATTERN@,
            system,
        ) {
            Some(p) => seq![ConsoleActionView::PlayerJoined(p)],
            None => match spec_first_group(PLAYER_LEFT_PATTERN@, system) {
                Some(p) => seq![ConsoleActionView::PlayerLeft(p)],
                None => Seq::empty(),
            },
        },
        None => match spec_player_message(line) {
            Some((player, message)) => seq![
                ConsoleActionView::PlayerMessage { player, message },
            ] + match spec_macro_instruction(line) {
                Some(m) => seq![ConsoleActionView::Macro(m)],
                None => Seq::empty(),
            },
            None => Seq::empty(),
        },
    };
    (head + rest, did_start || started)
}

/// Whether a line can be read: every pattern search whose outcome the
/// reading depends on (the system-message search aside, whose failure counts
/// as no message) completes.
pub open spec fn spec_console_defined(line: Seq<char>) -> bool {
    &&& spec_fancy_is_match(SERVER_STARTED_PATTERN@, line) is Some
    &&& match spec_system_message(line) {
        Some(system) => {
            &&& spec_fancy_is_match(PLAYER_JOINED_PATTERN@, system) is Some
            &&& spec_first_group(PLAYER_JOINED_PATTERN@, system) is None ==> spec_fancy_is_match(
                PLAYER_LEFT_PATTERN@,
                system,
            ) is Some
        },
        None => {
            &&& spec_fancy_is_match(PLAYER_MESSAGE_PATTERN@, line) is Some
            &&& match spec_player_message(line) {
                Some((_player, message)) => {
                    &&& spec_fancy_is_match(MACRO_ABORT_PATTERN@, message) is Some
                    &&& spec_fancy_is_match(MACRO_ABORT_PATTERN@, message) == Some(false)
                        ==> spec_fancy_is_match(MACRO_SPAWN_PATTERN@, message) is Some
                },
                None => true,
            }
        },
    }
}

/// The text of a system message, from the outcome of the pattern search.
pub fn system_message_from(
    matched: Option<bool>,
    caps: &Option<Option<Vec<Option<String>>>>,
) -> (r: Option<String>)
    ensures
        r.deep_view() == spec_system_message_from(matched, caps.deep_view()),
{
    if matched == Some(true) {
        match caps {
            Some(Some(groups)) => match group_opt(groups, 1) {
                Some(t) => Some(t),
                None => Some(String::new()),
            },
            _ => None,
        }
    } else {
        None
    }
}

fn system_message(line: &str) -> (r: Option<String>)
    ensures
        r.deep_view() == spec_system_message(line@),
{
    let matched = fancy_is_match(SYSTEM_MESSAGE_PATTERN, line);
    let caps = fancy_captures(SYSTEM_MESSAGE_PATTERN, line);
    system_message_from(matched, &caps)
}

/// The player and text of a chat line, from the outcome of the pattern
/// search.
pub fn player_message_from(matched: bool, caps: &Option<Option<Vec<Option<String>>>>) -> (r: Option<
    (String, String),
>)
    ensures
        match spec_player_message_from(matched, caps.deep_view()) {
            Some((p, m)) => match r {
                Some((rp, rm)) => rp@ == p && rm@ == m,
                None => false,
            },
            None => r is None,
        },
{
    if matched {
        match caps {
            Some(Some(groups)) => match (group_opt(groups, 1), group_opt(groups, 2)) {
                (Some(p), Some(m)) => Some((p, m)),
                _ => None,
            },
            _ => None,
        }
    } else {
        None
    }
}

fn player_message(line: &str) -> (r: Option<(String, String)>)
    requires
        spec_fancy_is_match(PLAYER_MESSAGE_PATTERN@, line@) is Some,
    ensures
        match spec_player_message(line@) {
            Some((p, m)) => match r {
                Some((rp, rm)) => rp@ == p && rm@ == m,
                None => false,
            },
            None => r is None,
        },
{
    let matched = fancy_is_match(PLAYER_MESSAGE_PATTERN, line);
    let is_match = match matched {
        Some(b) => b,
        None => false,
    };
    let caps = fancy_captures(PLAYER_MESSAGE_PATTERN, line);
    player_message_from(is_match, &caps)
}

/// The first group of a pattern that matched, from the outcome of the
/// search.
pub fn first_group_from(matched: bool, caps: &Option<Option<Vec<Option<String>>>>) -> (r: Option<
    String,
>)
    ensures
        r.deep_view() == spec_first_group_from(matched, caps.deep_view()),
{
    if matched {
        match caps {
            Some(Some(groups)) => group_opt(groups, 1),
            _ => None,
        }
    } else {
        None
    }
}

fn first_group(pattern: &str, text: &str) -> (r: Option<String>)
    requires
        spec_fancy_is_match(pattern@, text@) is Some,
    ensures
        r.deep_view() == spec_first_group(pattern@, text@),
{
    let matched = match fancy_is_match(pattern, text) {
        Some(b) => b,
        None => false,
    };
    let caps = fancy_captures(pattern, text);
    first_group_from(matched, &caps)
}

/// The macro command of a chat message from `player`, given the first group
/// of the abort pattern (when it matched) and of the spawn pattern.
pub fn macro_from(
    player: String,
    abort_matched: bool,
    abort: Option<String>,
    spawn: Option<String>,
) -> (r: Option<MacroInstruction>)
    ensures
        r.deep_view() == spec_macro_from(player@, abort_matched, abort.deep_view(), spawn.deep_view()),
{
    if abort_matched {
        match abort {
            Some(t) => {
                let c = str_chars(t.as_str());
                match parse_usize(c.as_slice()) {
                    Some(n) => Some(MacroInstruction::Abort(n)),
                    None => None,
                }
            },
            None => None,
        }
    } else {
        match spawn {
            Some(t) => {
                let c = str_chars(t.as_str());
                let mut words = split_whitespace(c.as_slice());
                if words.len() > 0 {
                    let ghost all = words.deep_view();
                    let macro_name = words.remove(0);
                    assert(words.deep_view() =~= all.drop_first());
                    Some(MacroInstruction::Spawn { player_name: player, macro_name, args: words })
                } else {
                    None
                }
            },
            None => None,
        }
    }
}

/// The macro command of a line, when it is a chat line that holds one.
pub fn macro_instruction(line: &str) -> (r: Option<MacroInstruction>)
    requires
        spec_fancy_is_match(PLAYER_MESSAGE_PATTERN@, line@) is Some,
        match spec_player_message(line@) {
            Some((_player, message)) => {
                &&& spec_fancy_is_match(MACRO_ABORT_PATTERN@, message) is Some
                &&& spec_fancy_is_match(MACRO_ABORT_PATTERN@, message) == Some(false)
                    ==> spec_fancy_is_match(MACRO_SPAWN_PATTERN@, message) is Some
            },
            None => true,
        },
    ensures
        r.deep_view() == spec_macro_instruction(line@),
{
    match player_message(line) {
        Some((player, message)) => {
            let abort_matched = match fancy_is_match(MACRO_ABORT_PATTERN, message.as_str()) {
                Some(b) => b,
                None => false,
            };
            if abort_matched {
                let abort = first_group(MACRO_ABORT_PATTERN, message.as_str());
                macro_from(player, true, abort, None)
            } else {
                let spawn = first_group(MACRO_SPAWN_PATTERN, message.as_str());
                macro_from(player, false, None, spawn)
            }
        },
        None => None,
    }
}

/// The actions for a line of output and whether the server has started after
/// it (see [`spec_console_actions`]).
pub fn console_actions(line: &String, did_start: bool) -> (r: (Vec<ConsoleAction>, bool))
    requires
        spec_console_defined(line@),
    ensures
        r.0.deep_view() == spec_console_actions(line@, did_start).0,
        r.1 == spec_console_actions(line@, did_start).1,
{
    let text = line.as_str();
    let mut actions: Vec<ConsoleAction> = Vec::new();
    actions.push(ConsoleAction::InstanceOutput(line.clone()));
    let started_line = match fancy_is_match(SERVER_STARTED_PATTERN, text) {
        Some(b) => b,
        None => false,
    };
    let started = started_line && !did_start;
    if started {
        actions.push(ConsoleAction::ServerStarted);
    }
    let ghost head = actions.deep_view();
    match system_message(text) {
        Some(system) => {
            actions.push(ConsoleAction::SystemMessage(line.clone()));
            match first_group(PLAYER_JOINED_PATTERN, system.as_str()) {
                Some(p) => {
                    actions.push(ConsoleAction::PlayerJoined(p));
                },
                None => match first_group(PLAYER_LEFT_PATTERN, system.as_str()) {
                    Some(p) => {
                        actions.push(ConsoleAction::PlayerLeft(p));
                    },
                    None => {},
                },
            }
        },
        None => {
            let instruction = macro_instruction(text);
            match player_message(text) {
                Some((player, message)) => {
                    actions.push(ConsoleAction::PlayerMessage { player, message });
                    match instruction {
                        Some(m) => {
                            actions.push(ConsoleAction::Macro(m));
                        },
                        None => {},
                    }
                },
                None => {},
            }
        },
    }
    assert(actions.deep_view() =~= spec_console_actions(line@, did_start).0);
    (actions, did_start || started)
}

/// Whether a line can be read (see [`spec_console_defined`]), found by
/// running the searches on it.
pub fn console_defined(line: &String) -> (b: bool)
    ensures
        b == spec_console_defined(line@),
{
    let text = line.as_str();
    if fancy_is_match(SERVER_STARTED_PATTERN, text).is_none() {
        return false;
    }
    match system_message(text) {
        Some(system) => {
            match fancy_is_match(PLAYER_JOINED_PATTERN, system.as_str()) {
                None => false,
                Some(_) => {
                    if first_group(PLAYER_JOINED_PATTERN, system.as_str()).is_none() {
                        fancy_is_match(PLAYER_LEFT_PATTERN, system.as_str()).is_some()
                    } else {
                        true
                    }
                },
            }
        },
        None => {
            if fancy_is_match(PLAYER_MESSAGE_PATTERN, text).is_none() {
                return false;
            }
            match player_message(text) {
                Some((_player, message)) => match fancy_is_match(
                    MACRO_ABORT_PATTERN,
                    message.as_str(),
                ) {
                    None => false,
                    Some(true) => true,
                    Some(false) => fancy_is_match(MACRO_SPAWN_PATTERN, message.as_str()).is_some(),
                },
                None => true,
            }
        },
    }
}

/// The actions for a line of output and whether the server has started
/// after it, or `None` for a line that cannot be read.
pub fn try_console_actions(line: &String, did_start: bool) -> (r: Option<(Vec<ConsoleAction>, bool)>)
    ensures
        match r {
            Some((actions, started)) => spec_console_defined(line@) && actions.deep_view()
                == spec_console_actions(line@, did_start).0 && started == spec_console_actions(
                line@,
                did_start,
            ).1,
            None => !spec_console_defined(line@),
        },
{
    if console_defined(line) {
        Some(console_actions(line, did_start))
    } else {
        None
    }
}

} // verus!
