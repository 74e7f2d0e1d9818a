//! Events that the core emits (instance output, state changes, user changes,
//! macros, file operations and progress reports) and the queries that select
//! them.
use vstd::prelude::*;
use vstd::string::*;

use crate::auth::permission::UserPermission;
use crate::auth::user_id::UserId;
use crate::player::Player;
use crate::types::{InstanceUuid, MacroPID, Snowflake};

verus! {

// ---------------------------------------------------------------------------
// Supporting types
// ---------------------------------------------------------------------------

/// The state of an instance.
#[derive(Debug, Clone, Copy, PartialEq, Eq, Structural)]
pub enum State {
    Starting,
    Running,
    Stopping,
    Stopped,
    Error,
}

/// How a macro ended, and when (seconds since the Unix epoch).
#[derive(Debug, Clone, PartialEq, Eq)]
pub enum ExitStatus {
    Success { time: i64 },
    Killed { time: i64 },
    Error { time: i64, error_msg: String },
}

/// A summary of an instance.
#[derive(Debug, Clone, PartialEq, Eq)]
pub struct InstanceInfo {
    pub uuid: InstanceUuid,
    pub name: String,
    pub game_type: String,
    pub version: String,
    pub description: String,
    pub port: u32,
    pub creation_time: i64,
    pub path: String,
    pub auto_start: bool,
    pub restart_on_crash: bool,
    pub state: State,
    pub player_count: Option<u32>,
    pub max_player_count: Option<u32>,
}

/// A time interval, in seconds since the Unix epoch.
#[derive(Debug, Clone, Copy, PartialEq, Eq, Structural)]
pub struct TimeRange {
    pub start: i64,
    pub end: i64,
}

#[derive(Debug, Clone, Copy, PartialEq, Eq, Structural)]
pub enum EventLevel {
    Info,
    Warning,
    Error,
}

// ---------------------------------------------------------------------------
// Instance events
// ---------------------------------------------------------------------------

#[derive(Debug, Clone, PartialEq, Eq)]
pub enum InstanceEventInner {
    StateTransition { to: State },
    InstanceWarning { message: String },
    InstanceError { message: String },
    InstanceInput { message: String },
    InstanceOutput { message: String },
    SystemMessage { message: String },
    PlayerChange {
        player_list: Vec<Player>,
        players_joined: Vec<Player>,
        players_left: Vec<Player>,
    },
    PlayerMessage { player: String, player_message: String },
}

/// The kind of an instance event, without its data.
#[derive(Debug, Clone, Copy, PartialEq, Eq, Structural)]
pub enum InstanceEventKind {
    StateTransition,
    InstanceWarning,
    InstanceError,
    InstanceInput,
    InstanceOutput,
    SystemMessage,
    PlayerChange,
    PlayerMessage,
}

impl InstanceEventKind {
    /// The TypeScript declaration of this type.
    pub fn export() -> (s: String)
        ensures
            s@ == "export type InstanceEventKind = \"StateTransition\" | \"InstanceWarning\" | \"InstanceError\" | \"InstanceInput\" | \"InstanceOutput\" | \"SystemMessage\" | \"PlayerChange\" | \"PlayerMessage\";"@,
    {
        String::from_str("export type InstanceEventKind = \"StateTransition\" | \"InstanceWarning\" | \"InstanceError\" | \"InstanceInput\" | \"InstanceOutput\" | \"SystemMessage\" | \"PlayerChange\" | \"PlayerMessage\";")
    }
}

pub open spec fn spec_instance_event_kind(e: InstanceEventInner) -> InstanceEventKind {
    match e {
        InstanceEventInner::StateTransition { .. } => InstanceEventKind::StateTransition,
        InstanceEventInner::InstanceWarning { .. } => InstanceEventKind::InstanceWarning,
        InstanceEventInner::InstanceError { .. } => InstanceEventKind::InstanceError,
        InstanceEventInner::InstanceInput { .. } => InstanceEventKind::InstanceInput,
        InstanceEventInner::InstanceOutput { .. } => InstanceEventKind::InstanceOutput,
        InstanceEventInner::SystemMessage { .. } => InstanceEventKind::SystemMessage,
        InstanceEventInner::PlayerChange { .. } => InstanceEventKind::PlayerChange,
        InstanceEventInner::PlayerMessage { .. } => InstanceEventKind::PlayerMessage,
    }
}

/// Each instance event is of the kind of the same name, and each kind is
/// that of the events of its name alone: a query for a kind selects exactly
/// the events of that variant.
pub proof fn lemma_kind_names_variant(e: InstanceEventInner)
    ensures
        (spec_instance_event_kind(e) == InstanceEventKind::StateTransition) <==> (e is StateTransition),
        (spec_instance_event_kind(e) == InstanceEventKind::InstanceWarning) <==> (e is InstanceWarning),
        (spec_instance_event_kind(e) == InstanceEventKind::InstanceError) <==> (e is InstanceError),
        (spec_instance_event_kind(e) == InstanceEventKind::InstanceInput) <==> (e is InstanceInput),
        (spec_instance_event_kind(e) == InstanceEventKind::InstanceOutput) <==> (e is InstanceOutput),
        (spec_instance_event_kind(e) == InstanceEventKind::SystemMessage) <==> (e is SystemMessage),
        (spec_instance_event_kind(e) == InstanceEventKind::PlayerChange) <==> (e is PlayerChange),
        (spec_instance_event_kind(e) == InstanceEventKind::PlayerMessage) <==> (e is PlayerMessage),
{
}

impl InstanceEventInner {
    /// The kind of this event.
    pub fn kind(&self) -> (k: InstanceEventKind)
        ensures
            k == spec_instance_event_kind(*self),
    {
        match self {
            InstanceEventInner::StateTransition { .. } => InstanceEventKind::StateTransition,
            InstanceEventInner::InstanceWarning { .. } => InstanceEventKind::InstanceWarning,
            InstanceEventInner::InstanceError { .. } => InstanceEventKind::InstanceError,
            InstanceEventInner::InstanceInput { .. } => InstanceEventKind::InstanceInput,
            InstanceEventInner::InstanceOutput { .. } => InstanceEventKind::InstanceOutput,
            InstanceEventInner::SystemMessage { .. } => InstanceEventKind::SystemMessage,
            InstanceEventInner::PlayerChange { .. } => InstanceEventKind::PlayerChange,
            InstanceEventInner::PlayerMessage { .. } => InstanceEventKind::PlayerMessage,
        }
    }
}

#[derive(Debug, Clone, PartialEq, Eq)]
pub struct InstanceEvent {
    pub instance_uuid: InstanceUuid,
    pub instance_name: String,
    pub instance_event_inner: InstanceEventInner,
}

// ---------------------------------------------------------------------------
// User events
// ---------------------------------------------------------------------------

#[derive(Debug, Clone, PartialEq, Eq)]
pub enum UserEventInner {
    UserCreated,
    UserDeleted,
    UserLoggedIn,
    UserLoggedOut,
    UsernameChanged { new_username: String },
    PermissionChanged { new_permissions: Box<UserPermission> },
}

/// The kind of a user event, without its data.
#[derive(Debug, Clone, Copy, PartialEq, Eq, Structural)]
pub enum UserEventKind {
    UserCreated,
    UserDeleted,
    UserLoggedIn,
    UserLoggedOut,
    UsernameChanged,
    PermissionChanged,
}

impl UserEventKind {
    /// The TypeScript declaration of this type.
    pub fn export() -> (s: String)
        ensures
            s@ == "export type UserEventKind = \"UserCreated\" | \"UserDeleted\" | \"UserLoggedIn\" | \"UserLoggedOut\" | \"UsernameChanged\" | \"PermissionChanged\";"@,
    {
        String::from_str("export type UserEventKind = \"UserCreated\" | \"UserDeleted\" | \"UserLoggedIn\" | \"UserLoggedOut\" | \"UsernameChanged\" | \"PermissionChanged\";")
    }
}

pub open spec fn spec_user_event_kind(e: UserEventInner) -> UserEventKind {
    match e {
        UserEventInner::UserCreated => UserEventKind::UserCreated,
        UserEventInner::UserDeleted => UserEventKind::UserDeleted,
        UserEventInner::UserLoggedIn => UserEventKind::UserLoggedIn,
        UserEventInner::UserLoggedOut => UserEventKind::UserLoggedOut,
        UserEventInner::UsernameChanged { .. } => UserEventKind::UsernameChanged,
        UserEventInner::PermissionChanged { .. } => UserEventKind::PermissionChanged,
    }
}

/// Each user event is of the kind of the same name, and each kind is that
/// of the events of its name alone.
pub proof fn lemma_user_kind_names_variant(e: UserEventInner)
    ensures
        (spec_user_event_kind(e) == UserEventKind::UserCreated) <==> (e is UserCreated),
        (spec_user_event_kind(e) == UserEventKind::UserDeleted) <==> (e is UserDeleted),
        (spec_user_event_kind(e) == UserEventKind::UserLoggedIn) <==> (e is UserLoggedIn),
        (spec_user_event_kind(e) == UserEventKind::UserLoggedOut) <==> (e is UserLoggedOut),
        (spec_user_event_kind(e) == UserEventKind::UsernameChanged) <==> (e is UsernameChanged),
        (spec_user_event_kind(e) == UserEventKind::PermissionChanged) <==> (e is PermissionChanged),
{
}

impl UserEventInner {
    /// The kind of this event.
    pub fn kind(&self) -> (k: UserEventKind)
        ensures
            k == spec_user_event_kind(*self),
    {
        match self {
            UserEventInner::UserCreated => UserEventKind::UserCreated,
            UserEventInner::UserDeleted => UserEventKind::UserDeleted,
            UserEventInner::UserLoggedIn => UserEventKind::UserLoggedIn,
            UserEventInner::UserLoggedOut => UserEventKind::UserLoggedOut,
            UserEventInner::UsernameChanged { .. } => UserEventKind::UsernameChanged,
            UserEventInner::PermissionChanged { .. } => UserEventKind::PermissionChanged,
        }
    }
}

#[derive(Debug, Clone, PartialEq, Eq)]
pub struct UserEvent {
    pub user_id: UserId,
    pub user_event_inner: UserEventInner,
}

// ---------------------------------------------------------------------------
// Macro, file-system and progression events
// ---------------------------------------------------------------------------

#[derive(Debug, Clone, PartialEq, Eq)]
pub enum MacroEventInner {
    Started,
    /// Macro requests to be detached, useful for macros that run in the background such as prelaunch script
    Detach,
    Stopped { exit_status: ExitStatus },
}

#[derive(Debug, Clone, PartialEq, Eq)]
pub struct MacroEvent {
    pub instance_uuid: Option<InstanceUuid>,
    pub macro_pid: MacroPID,
    pub macro_event_inner: MacroEventInner,
}

#[derive(Debug, Clone, PartialEq, Eq)]
pub enum ProgressionEndValue {
    InstanceCreation(InstanceInfo),
    InstanceDelete { instance_uuid: InstanceUuid },
    FSOperationCompleted { instance_uuid: InstanceUuid, success: bool, message: String },
}

#[derive(Debug, Clone, PartialEq, Eq)]
pub enum ProgressionStartValue {
    InstanceCreation {
        instance_uuid: InstanceUuid,
        instance_name: String,
        port: u32,
        flavour: String,
        game_type: String,
    },
    InstanceDelete { instance_uuid: InstanceUuid },
}

/// The steps of a long operation. Progress amounts are kept as the bit
/// patterns of their IEEE-754 binary64 values.
#[derive(Debug, Clone, PartialEq, Eq)]
pub enum ProgressionEventInner {
    ProgressionStart {
        progression_name: String,
        total_bits: Option<u64>,
        inner: Option<ProgressionStartValue>,
    },
    ProgressionUpdate { progress_message: String, progress_bits: u64 },
    ProgressionEnd { success: bool, message: Option<String>, inner: Option<ProgressionEndValue> },
}

#[derive(Debug, Clone, PartialEq, Eq)]
pub enum FSOperation {
    Read,
    Write,
    Move { source: String },
    Create,
    Delete,
    Upload,
    Download,
}

#[derive(Debug, Clone, PartialEq, Eq)]
pub enum FSTarget {
    File(String),
    Directory(String),
}

#[derive(Debug, Clone, PartialEq, Eq)]
pub struct FSEvent {
    pub operation: FSOperation,
    pub target: FSTarget,
}

/// The identifier that ties the steps of one long operation together.
pub struct ProgressionEventID(pub Snowflake);

#[derive(Debug, Clone, PartialEq, Eq)]
pub struct ProgressionEvent {
    event_id: Snowflake,
    progression_event_inner: ProgressionEventInner,
}

impl ProgressionEvent {
    pub fn event_id(&self) -> (s: Snowflake)
        ensures
            s == self.spec_event_id(),
    {
        self.event_id
    }

    pub fn progression_event_inner(&self) -> (p: &ProgressionEventInner)
        ensures
            *p == self.spec_inner(),
    {
        &self.progression_event_inner
    }

    pub closed spec fn spec_event_id(self) -> Snowflake {
        self.event_id
    }

    pub closed spec fn spec_inner(self) -> ProgressionEventInner {
        self.progression_event_inner
    }
}

// ---------------------------------------------------------------------------
// Events
// ---------------------------------------------------------------------------

#[derive(Debug, Clone, PartialEq, Eq)]
pub enum EventInner {
    InstanceEvent(InstanceEvent),
    UserEvent(UserEvent),
    MacroEvent(MacroEvent),
    FSEvent(FSEvent),
    ProgressionEvent(ProgressionEvent),
}

/// The type of an event, without its data.
#[derive(Debug, Clone, Copy, PartialEq, Eq, Structural)]
pub enum EventType {
    InstanceEvent,
    UserEvent,
    MacroEvent,
    FSEvent,
    ProgressionEvent,
}

impl EventType {
    /// The TypeScript declaration of this type.
    pub fn export() -> (s: String)
        ensures
            s@ == "export type EventType = \"InstanceEvent\" | \"UserEvent\" | \"MacroEvent\" | \"FSEvent\" | \"ProgressionEvent\";"@,
    {
        String::from_str("export type EventType = \"InstanceEvent\" | \"UserEvent\" | \"MacroEvent\" | \"FSEvent\" | \"ProgressionEvent\";")
    }
}

pub open spec fn spec_event_type(e: EventInner) -> EventType {
    match e {
        EventInner::InstanceEvent(_) => EventType::InstanceEvent,
        EventInner::UserEvent(_) => EventType::UserEvent,
        EventInner::MacroEvent(_) => EventType::MacroEvent,
        EventInner::FSEvent(_) => EventType::FSEvent,
        EventInner::ProgressionEvent(_) => EventType::ProgressionEvent,
    }
}

/// Each event is of the type of the same name, and each type is that of
/// the events of its name alone.
pub proof fn lemma_type_names_variant(e: EventInner)
    ensures
        (spec_event_type(e) == EventType::InstanceEvent) <==> (e is InstanceEvent),
        (spec_event_type(e) == EventType::UserEvent) <==> (e is UserEvent),
        (spec_event_type(e) == EventType::MacroEvent) <==> (e is MacroEvent),
        (spec_event_type(e) == EventType::FSEvent) <==> (e is FSEvent),
        (spec_event_type(e) == EventType::ProgressionEvent) <==> (e is ProgressionEvent),
{
}

impl EventInner {
    /// The type of this event.
    pub fn event_type(&self) -> (t: EventType)
        ensures
            t == spec_event_type(*self),
    {
        match self {
            EventInner::InstanceEvent(_) => EventType::InstanceEvent,
            EventInner::UserEvent(_) => EventType::UserEvent,
            EventInner::MacroEvent(_) => EventType::MacroEvent,
            EventInner::FSEvent(_) => EventType::FSEvent,
            EventInner::ProgressionEvent(_) => EventType::ProgressionEvent,
        }
    }
}

#[derive(Debug, PartialEq, Eq)]
pub enum CausedBy {
    User { user_id: UserId, user_name: String },
    Instance { instance_uuid: InstanceUuid },
    Macro { macro_pid: MacroPID },
    System,
    Unknown,
}

impl Clone for CausedBy {
    fn clone(&self) -> (r: Self)
        ensures
            r == *self,
    {
        match self {
            CausedBy::User { user_id, user_name } => CausedBy::User {
                user_id: user_id.clone(),
                user_name: user_name.clone(),
            },
            CausedBy::Instance { instance_uuid } => CausedBy::Instance {
                instance_uuid: instance_uuid.clone(),
            },
            CausedBy::Macro { macro_pid } => CausedBy::Macro { macro_pid: *macro_pid },
            CausedBy::System => CausedBy::System,
            CausedBy::Unknown => CausedBy::Unknown,
        }
    }
}

#[derive(Debug, Clone, PartialEq, Eq)]
pub struct Event {
    pub event_inner: EventInner,
    pub details: String,
    pub snowflake: Snowflake,
    pub caused_by: CausedBy,
}

/// An event as sent to clients, with its level.
#[derive(Debug, Clone, PartialEq, Eq)]
pub struct ClientEvent {
    pub event_inner: EventInner,
    pub details: String,
    pub snowflake: Snowflake,
    pub caused_by: CausedBy,
    pub level: EventLevel,
}

/// Something that decides, event by event, whether an event is wanted.
pub trait EventFilter {
    fn filter(&mut self, event: &ClientEvent) -> bool;
}

impl Event {
    /// An event of a macro, caused by that macro.
    pub fn from_macro_event(val: MacroEvent) -> (e: Event)
        ensures
            e.event_inner == EventInner::MacroEvent(val),
            e.details@ == Seq::<char>::empty(),
            e.caused_by == (CausedBy::Macro { macro_pid: val.macro_pid }),
    {
        let pid = val.macro_pid;
        Event {
            details: String::new(),
            snowflake: Snowflake::default(),
            event_inner: EventInner::MacroEvent(val),
            caused_by: CausedBy::Macro { macro_pid: pid },
        }
    }

    /// The event a client event stands for (the client event without its
    /// level).
    pub fn from_client_event(client_event: ClientEvent) -> (e: Event)
        ensures
            e.event_inner == client_event.event_inner,
            e.details == client_event.details,
            e.snowflake == client_event.snowflake,
            e.caused_by == client_event.caused_by,
    {
        Event {
            event_inner: client_event.event_inner,
            details: client_event.details,
            snowflake: client_event.snowflake,
            caused_by: client_event.caused_by,
        }
    }

    /// Whether this event is a line of an instance console: output, a player
    /// message, or a system message.
    pub fn is_event_console_message(&self) -> (b: bool)
        ensures
            b == (self.event_inner matches EventInner::InstanceEvent(ie) && (
            ie.instance_event_inner is InstanceOutput || ie.instance_event_inner is PlayerMessage
                || ie.instance_event_inner is SystemMessage)),
    {
        match &self.event_inner {
            EventInner::InstanceEvent(instance_event) => match &instance_event.instance_event_inner {
                InstanceEventInner::InstanceOutput { .. } => true,
                InstanceEventInner::PlayerMessage { .. } => true,
                InstanceEventInner::SystemMessage { .. } => true,
                _ => false,
            },
            _ => false,
        }
    }

    /// The player and message of a player-message event.
    pub fn try_player_message(&self) -> (r: Option<(String, String)>)
        ensures
            match self.event_inner {
                EventInner::InstanceEvent(ie) => match ie.instance_event_inner {
                    InstanceEventInner::PlayerMessage { player, player_message } => match r {
                        Some((p, m)) => p@ == player@ && m@ == player_message@,
                        None => false,
                    },
                    _ => r is None,
                },
                _ => r is None,
            },
    {
        match &self.event_inner {
            EventInner::InstanceEvent(instance_event) => match &instance_event.instance_event_inner {
                InstanceEventInner::PlayerMessage { player, player_message } => Some(
                    (player.clone(), player_message.clone()),
                ),
                _ => None,
            },
            _ => None,
        }
    }

    /// The instance an instance event is about.
    pub fn get_instance_uuid(&self) -> (r: Option<InstanceUuid>)
        ensures
            match self.event_inner {
                EventInner::InstanceEvent(ie) => r is Some && r->0@ == ie.instance_uuid@,
                _ => r is None,
            },
    {
        match &self.event_inner {
            EventInner::InstanceEvent(instance_event) => Some(instance_event.instance_uuid.clone()),
            _ => None,
        }
    }

    /// The output line of an instance in this event, when it is an output
    /// event of that instance.
    pub fn instance_output_of(&self, instance_uuid: &InstanceUuid) -> (r: Option<String>)
        ensures
            match self.event_inner {
                EventInner::InstanceEvent(ie) => match ie.instance_event_inner {
                    InstanceEventInner::InstanceOutput { message } => if ie.instance_uuid@
                        == instance_uuid@ {
                        r is Some && r->0@ == message@
                    } else {
                        r is None
                    },
                    _ => r is None,
                },
                _ => r is None,
            },
    {
        match &self.event_inner {
            EventInner::InstanceEvent(ie) => match &ie.instance_event_inner {
                InstanceEventInner::InstanceOutput { message } => if ie.instance_uuid.same_as(
                    instance_uuid,
                ) {
                    Some(message.clone())
                } else {
                    None
                },
                _ => None,
            },
            _ => None,
        }
    }

    /// The state an instance moved to in this event, when it is a state
    /// transition of that instance.
    pub fn state_change_of(&self, instance_uuid: &InstanceUuid) -> (r: Option<State>)
        ensures
            match self.event_inner {
                EventInner::InstanceEvent(ie) => match ie.instance_event_inner {
                    InstanceEventInner::StateTransition { to } => if ie.instance_uuid@
                        == instance_uuid@ {
                        r == Some(to)
                    } else {
                        r is None
                    },
                    _ => r is None,
                },
                _ => r is None,
            },
    {
        match &self.event_inner {
            EventInner::InstanceEvent(ie) => match &ie.instance_event_inner {
                InstanceEventInner::StateTransition { to } => if ie.instance_uuid.same_as(
                    instance_uuid,
                ) {
                    Some(*to)
                } else {
                    None
                },
                _ => None,
            },
            _ => None,
        }
    }

    /// The macro event inside this event, if it is one.
    pub fn try_macro_event(&self) -> (r: Option<&MacroEvent>)
        ensures
            match self.event_inner {
                EventInner::MacroEvent(me) => r == Some(&me),
                _ => r is None,
            },
    {
        match &self.event_inner {
            EventInner::MacroEvent(macro_event) => Some(macro_event),
            _ => None,
        }
    }

    /// An instance event caused by the system.
    fn new_instance_event(instance_uuid: InstanceUuid, instance_name: String, inner: InstanceEventInner) -> (e: Event)
        ensures
            e.event_inner == EventInner::InstanceEvent(
                InstanceEvent { instance_uuid, instance_name, instance_event_inner: inner },
            ),
            e.details@ == Seq::<char>::empty(),
            e.caused_by == CausedBy::System,
    {
        Event {
            details: String::new(),
            snowflake: Snowflake::default(),
            event_inner: EventInner::InstanceEvent(
                InstanceEvent { instance_uuid, instance_name, instance_event_inner: inner },
            ),
            caused_by: CausedBy::System,
        }
    }

    /// A line that an instance printed.
    pub fn new_instance_output(instance_uuid: InstanceUuid, instance_name: String, output: String) -> (e: Event)
        ensures
            e.event_inner == EventInner::InstanceEvent(
                InstanceEvent {
                    instance_uuid,
                    instance_name,
                    instance_event_inner: InstanceEventInner::InstanceOutput { message: output },
                },
            ),
            e.details@ == Seq::<char>::empty(),
            e.caused_by == CausedBy::System,
    {
        Self::new_instance_event(instance_uuid, instance_name, InstanceEventInner::InstanceOutput { message: output })
    }

    /// A chat message of a player.
    pub fn new_player_message(
        instance_uuid: InstanceUuid,
        instance_name: String,
        player: String,
        player_message: String,
    ) -> (e: Event)
        ensures
            e.event_inner == EventInner::InstanceEvent(
                InstanceEvent {
                    instance_uuid,
                    instance_name,
                    instance_event_inner: InstanceEventInner::PlayerMessage { player, player_message },
                },
            ),
            e.details@ == Seq::<char>::empty(),
            e.caused_by == CausedBy::System,
    {
        Self::new_instance_event(
            instance_uuid,
            instance_name,
            InstanceEventInner::PlayerMessage { player, player_message },
        )
    }

    /// A message of the game server itself.
    pub fn new_system_message(instance_uuid: InstanceUuid, instance_name: String, system_message: String) -> (e: Event)
        ensures
            e.event_inner == EventInner::InstanceEvent(
                InstanceEvent {
                    instance_uuid,
                    instance_name,
                    instance_event_inner: InstanceEventInner::SystemMessage { message: system_message },
                },
            ),
            e.details@ == Seq::<char>::empty(),
            e.caused_by == CausedBy::System,
    {
        Self::new_instance_event(
            instance_uuid,
            instance_name,
            InstanceEventInner::SystemMessage { message: system_message },
        )
    }

    /// An instance entered a new state.
    pub fn new_instance_state_transition(instance_uuid: InstanceUuid, instance_name: String, new_state: State) -> (e: Event)
        ensures
            e.event_inner == EventInner::InstanceEvent(
                InstanceEvent {
                    instance_uuid,
                    instance_name,
                    instance_event_inner: InstanceEventInner::StateTransition { to: new_state },
                },
            ),
            e.details@ == Seq::<char>::empty(),
            e.caused_by == CausedBy::System,
    {
        Self::new_instance_event(
            instance_uuid,
            instance_name,
            InstanceEventInner::StateTransition { to: new_state },
        )
    }

    /// The start of a long operation, with the identifier its later steps use.
    pub fn new_progression_event_start(
        progression_name: &str,
        total_bits: Option<u64>,
        inner: Option<ProgressionStartValue>,
        caused_by: CausedBy,
    ) -> (r: (Event, ProgressionEventID))
        ensures
            match r {
                (ev, id) => {
                    &&& ev.details@ == Seq::<char>::empty()
                    &&& ev.caused_by == caused_by
                    &&& match ev.event_inner {
                        EventInner::ProgressionEvent(pe) => pe.spec_event_id() == id.0
                            && match pe.spec_inner() {
                            ProgressionEventInner::ProgressionStart {
                                progression_name: n,
                                total_bits: t,
                                inner: i,
                            } => n@ == progression_name@ && t == total_bits && i == inner,
                            _ => false,
                        },
                        _ => false,
                    }
                },
            },
    {
        let event_id = ProgressionEventID(Snowflake::default());
        let id = event_id.0;
        (
            Event {
                details: String::new(),
                snowflake: Snowflake::default(),
                event_inner: EventInner::ProgressionEvent(
                    ProgressionEvent {
                        event_id: id,
                        progression_event_inner: ProgressionEventInner::ProgressionStart {
                            progression_name: String::from_str(progression_name),
                            total_bits,
                            inner,
                        },
                    },
                ),
                caused_by,
            },
            event_id,
        )
    }

    /// A step of a long operation.
    pub fn new_progression_event_update(
        event_id: &ProgressionEventID,
        progress_message: &str,
        progress_bits: u64,
    ) -> (e: Event)
        ensures
            match e.event_inner {
                EventInner::ProgressionEvent(pe) => pe.spec_event_id() == event_id.0
                    && match pe.spec_inner() {
                    ProgressionEventInner::ProgressionUpdate {
                        progress_message: m,
                        progress_bits: b,
                    } => m@ == progress_message@ && b == progress_bits,
                    _ => false,
                },
                _ => false,
            },
            e.details@ == Seq::<char>::empty(),
            e.caused_by == CausedBy::System,
    {
        Event {
            details: String::new(),
            snowflake: Snowflake::default(),
            event_inner: EventInner::ProgressionEvent(
                ProgressionEvent {
                    event_id: event_id.0,
                    progression_event_inner: ProgressionEventInner::ProgressionUpdate {
                        progress_message: String::from_str(progress_message),
                        progress_bits,
                    },
                },
            ),
            caused_by: CausedBy::System,
        }
    }

    /// The end of a long operation.
    pub fn new_progression_event_end(
        event_id: ProgressionEventID,
        success: bool,
        message: Option<&str>,
        inner: Option<ProgressionEndValue>,
    ) -> (e: Event)
        ensures
            match e.event_inner {
                EventInner::ProgressionEvent(pe) => pe.spec_event_id() == event_id.0
                    && match pe.spec_inner() {
                    ProgressionEventInner::ProgressionEnd {
                        success: s,
                        message: m,
                        inner: i,
                    } => s == success && i == inner && match message {
                        Some(t) => m is Some && m->0@ == t@,
                        None => m is None,
                    },
                    _ => false,
                },
                _ => false,
            },
            e.details@ == Seq::<char>::empty(),
            e.caused_by == CausedBy::System,
    {
        let m = match message {
            Some(t) => Some(String::from_str(t)),
            None => None,
        };
        Event {
            details: String::new(),
            snowflake: Snowflake::default(),
            event_inner: EventInner::ProgressionEvent(
                ProgressionEvent {
                    event_id: event_id.0,
                    progression_event_inner: ProgressionEventInner::ProgressionEnd {
                        success,
                        message: m,
                        inner,
                    },
                },
            ),
            caused_by: CausedBy::System,
        }
    }

    /// A macro asked to be detached.
    pub fn new_macro_detach_event(instance_uuid: Option<InstanceUuid>, macro_pid: MacroPID) -> (e: Event)
        ensures
            e.event_inner == EventInner::MacroEvent(
                MacroEvent { macro_pid, instance_uuid, macro_event_inner: MacroEventInner::Detach },
            ),
            e.details@ == Seq::<char>::empty(),
            e.caused_by == CausedBy::System,
    {
        Event {
            details: String::new(),
            snowflake: Snowflake::default(),
            event_inner: EventInner::MacroEvent(
                MacroEvent { macro_pid, instance_uuid, macro_event_inner: MacroEventInner::Detach },
            ),
            caused_by: CausedBy::System,
        }
    }
}

/// A file-system event.
pub fn new_fs_event(operation: FSOperation, target: FSTarget, caused_by: CausedBy) -> (e: Event)
    ensures
        e.event_inner == EventInner::FSEvent(FSEvent { operation, target }),
        e.details@ == Seq::<char>::empty(),
        e.caused_by == caused_by,
{
    Event {
        details: String::new(),
        snowflake: Snowflake::default(),
        event_inner: EventInner::FSEvent(FSEvent { operation, target }),
        caused_by,
    }
}

// ---------------------------------------------------------------------------
// Queries
// ---------------------------------------------------------------------------

#[derive(Debug, Clone)]
pub struct EventQuery {
    pub event_levels: Option<Vec<EventLevel>>,
    pub event_types: Option<Vec<EventType>>,
    pub instance_event_types: Option<Vec<InstanceEventKind>>,
    pub user_event_types: Option<Vec<UserEventKind>>,
    pub event_user_ids: Option<Vec<UserId>>,
    pub event_instance_ids: Option<Vec<InstanceUuid>>,
    pub bearer_token: Option<String>,
    pub time_range: Option<TimeRange>,
}

pub open spec fn user_id_texts(ids: Seq<UserId>) -> Seq<Seq<char>> {
    ids.map_values(|u: UserId| u@)
}

pub open spec fn instance_id_texts(ids: Seq<InstanceUuid>) -> Seq<Seq<char>> {
    ids.map_values(|u: InstanceUuid| u@)
}

/// Whether a query selects an event: every constraint that the query sets must
/// hold. Constraints on instance-event kinds or instance identifiers admit only
/// instance events, those on user-event kinds or user identifiers only user
/// events. The bearer token and the time range select nothing.
pub open spec fn spec_filter(q: EventQuery, e: ClientEvent) -> bool {
    &&& (q.event_levels matches Some(l) ==> l@.contains(e.level))
    &&& (q.event_types matches Some(t) ==> t@.contains(spec_event_type(e.event_inner)))
    &&& (q.instance_event_types matches Some(t) ==> (e.event_inner matches EventInner::InstanceEvent(ie)
        && t@.contains(spec_instance_event_kind(ie.instance_event_inner))))
    &&& (q.user_event_types matches Some(t) ==> (e.event_inner matches EventInner::UserEvent(ue)
        && t@.contains(spec_user_event_kind(ue.user_event_inner))))
    &&& (q.event_user_ids matches Some(ids) ==> (e.event_inner matches EventInner::UserEvent(ue)
        && user_id_texts(ids@).contains(ue.user_id@)))
    &&& (q.event_instance_ids matches Some(ids) ==> (e.event_inner matches EventInner::InstanceEvent(ie)
        && instance_id_texts(ids@).contains(ie.instance_uuid@)))
}

/// A query that asks only for instance events of some kinds lets through
/// exactly the instance events of one of those kinds, whatever else the
/// event holds.
pub proof fn lemma_instance_kind_query(q: EventQuery, e: ClientEvent)
    requires
        q.event_levels is None,
        q.event_types is None,
        q.user_event_types is None,
        q.event_user_ids is None,
        q.event_instance_ids is None,
        q.instance_event_types is Some,
    ensures
        spec_filter(q, e) <==> (e.event_inner matches EventInner::InstanceEvent(ie)
            && q.instance_event_types->0@.contains(spec_instance_event_kind(ie.instance_event_inner))),
{
}

fn contains_level(v: &Vec<EventLevel>, x: EventLevel) -> (b: bool)
    ensures
        b == v@.contains(x),
{
    let mut i: usize = 0;
    while i < v.len()
        invariant
            i <= v.len(),
            forall|j: int| 0 <= j < i ==> v@[j] != x,
        decreases v.len() - i,
    {
        if v[i] == x {
            assert(v@[i as int] == x);
            return true;
        }
        i = i + 1;
    }
    assert(!v@.contains(x)) by {
        if v@.contains(x) {
            let k = choose|k: int| 0 <= k < v@.len() && v@[k] == x;
            assert(v@[k] != x);
        }
    }
    false
}

fn contains_event_type(v: &Vec<EventType>, x: EventType) -> (b: bool)
    ensures
        b == v@.contains(x),
{
    let mut i: usize = 0;
    while i < v.len()
        invariant
            i <= v.len(),
            forall|j: int| 0 <= j < i ==> v@[j] != x,
        decreases v.len() - i,
    {
        if v[i] == x {
            assert(v@[i as int] == x);
            return true;
        }
        i = i + 1;
    }
    assert(!v@.contains(x)) by {
        if v@.contains(x) {
            let k = choose|k: int| 0 <= k < v@.len() && v@[k] == x;
            assert(v@[k] != x);
        }
    }
    false
}

fn contains_instance_kind(v: &Vec<InstanceEventKind>, x: InstanceEventKind) -> (b: bool)
    ensures
        b == v@.contains(x),
{
    let mut i: usize = 0;
    while i < v.len()
        invariant
            i <= v.len(),
            forall|j: int| 0 <= j < i ==> v@[j] != x,
        decreases v.len() - i,
    {
        if v[i] == x {
            assert(v@[i as int] == x);
            return true;
        }
        i = i + 1;
    }
    assert(!v@.contains(x)) by {
        if v@.contains(x) {
            let k = choose|k: int| 0 <= k < v@.len() && v@[k] == x;
            assert(v@[k] != x);
        }
    }
    false
}

fn contains_user_kind(v: &Vec<UserEventKind>, x: UserEventKind) -> (b: bool)
    ensures
        b == v@.contains(x),
{
    let mut i: usize = 0;
    while i < v.len()
        invariant
            i <= v.len(),
            forall|j: int| 0 <= j < i ==> v@[j] != x,
        decreases v.len() - i,
    {
        if v[i] == x {
            assert(v@[i as int] == x);
            return true;
        }
        i = i + 1;
    }
    assert(!v@.contains(x)) by {
        if v@.contains(x) {
            let k = choose|k: int| 0 <= k < v@.len() && v@[k] == x;
            assert(v@[k] != x);
        }
    }
    false
}

fn contains_user_id(v: &Vec<UserId>, x: &UserId) -> (b: bool)
    ensures
        b == user_id_texts(v@).contains(x@),
{
    let mut i: usize = 0;
    while i < v.len()
        invariant
            i <= v.len(),
            forall|j: int| 0 <= j < i ==> user_id_texts(v@)[j] != x@,
        decreases v.len() - i,
    {
        if v[i].same_as(x) {
            assert(user_id_texts(v@)[i as int] == x@);
            return true;
        }
        i = i + 1;
    }
    assert(!user_id_texts(v@).contains(x@)) by {
        if user_id_texts(v@).contains(x@) {
            let k = choose|k: int| 0 <= k < user_id_texts(v@).len() && user_id_texts(v@)[k] == x@;
            assert(user_id_texts(v@)[k] != x@);
        }
    }
    false
}

fn contains_instance_id(v: &Vec<InstanceUuid>, x: &InstanceUuid) -> (b: bool)
    ensures
        b == instance_id_texts(v@).contains(x@),
{
    let mut i: usize = 0;
    while i < v.len()
        invariant
            i <= v.len(),
            forall|j: int| 0 <= j < i ==> instance_id_texts(v@)[j] != x@,
        decreases v.len() - i,
    {
        if v[i].same_as(x) {
            assert(instance_id_texts(v@)[i as int] == x@);
            return true;
        }
        i = i + 1;
    }
    assert(!instance_id_texts(v@).contains(x@)) by {
        if instance_id_texts(v@).contains(x@) {
            let k = choose|k: int| 0 <= k < instance_id_texts(v@).len() && instance_id_texts(v@)[k] == x@;
            assert(instance_id_texts(v@)[k] != x@);
        }
    }
    false
}

impl EventQuery {
    /// Whether this query selects the event.
    pub fn filter(&self, event: &ClientEvent) -> (b: bool)
        ensures
            b == spec_filter(*self, *event),
    {
        if let Some(event_levels) = &self.event_levels {
            if !contains_level(event_levels, event.level) {
                return false;
            }
        }
        if let Some(event_types) = &self.event_types {
            if !contains_event_type(event_types, event.event_inner.event_type()) {
                return false;
            }
        }
        if let Some(instance_event_types) = &self.instance_event_types {
            if let EventInner::InstanceEvent(instance_event) = &event.event_inner {
                if !contains_instance_kind(instance_event_types, instance_event.instance_event_inner.kind()) {
                    return false;
                }
            } else {
                return false;
            }
        }
        if let Some(user_event_types) = &self.user_event_types {
            if let EventInner::UserEvent(user_event) = &event.event_inner {
                if !contains_user_kind(user_event_types, user_event.user_event_inner.kind()) {
                    return false;
                }
            } else {
                return false;
            }
        }
        if let Some(event_user_ids) = &self.event_user_ids {
            if let EventInner::UserEvent(user_event) = &event.event_inner {
                if !contains_user_id(event_user_ids, &user_event.user_id) {
                    return false;
                }
            } else {
                return false;
            }
        }
        if let Some(event_instance_ids) = &self.event_instance_ids {
            if let EventInner::InstanceEvent(instance_event) = &event.event_inner {
                if !contains_instance_id(event_instance_ids, &instance_event.instance_uuid) {
                    return false;
                }
            } else {
                return false;
            }
        }
        true
    }
}

/// A query that sets no constraint selects every event.
pub proof fn lemma_empty_query_selects_all(q: EventQuery, e: ClientEvent)
    requires
        q.event_levels is None,
        q.event_types is None,
        q.instance_event_types is None,
        q.user_event_types is None,
        q.event_user_ids is None,
        q.event_instance_ids is None,
    ensures
        spec_filter(q, e),
{
}

/// Narrowing a query never selects more: a query that differs only by setting
/// one more constraint selects a subset of the events the wider one selects.
/// Here the added constraint is the list of levels.
pub proof fn lemma_level_constraint_narrows(q: EventQuery, levels: Vec<EventLevel>, e: ClientEvent)
    requires
        q.event_levels is None,
    ensures
        spec_filter(EventQuery { event_levels: Some(levels), ..q }, e) ==> spec_filter(q, e),
        spec_filter(EventQuery { event_levels: Some(levels), ..q }, e) <==> (spec_filter(q, e)
            && levels@.contains(e.level)),
{
}

/// A query on instance identifiers selects only instance events about one of
/// the listed instances, and a query on user identifiers only user events
/// about one of the listed users.
pub proof fn lemma_id_constraints_select_subjects(q: EventQuery, e: ClientEvent)
    requires
        spec_filter(q, e),
    ensures
        q.event_instance_ids matches Some(ids) ==> (e.event_inner matches EventInner::InstanceEvent(ie)
            && instance_id_texts(ids@).contains(ie.instance_uuid@)),
        q.event_user_ids matches Some(ids) ==> (e.event_inner matches EventInner::UserEvent(ue)
            && user_id_texts(ids@).contains(ue.user_id@)),
        q.instance_event_types is Some && q.user_event_types is Some ==> false,
{
}

} // verus!
