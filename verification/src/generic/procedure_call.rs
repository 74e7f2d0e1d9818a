//! The procedures a generic (scripted) instance answers, and what their
//! answers hold.
use vstd::prelude::*;
use vstd::string::*;

use crate::error::{Error, ErrorKind};
use crate::events::{CausedBy, State};
use crate::generic::player::GenericPlayer;
use crate::manifest::{ConfigurableValue, SetupValue};
use crate::types::DotLodestoneConfig;
use crate::text::push_str;

verus! {

/// The procedures a generic instance answers.
#[derive(Debug, Clone, Copy, PartialEq, Eq, Structural)]
pub enum ProcedureCallKind {
    SetupInstance,
    RestoreInstance,
    DestructInstance,
    GetSetupManifest,
    GetName,
    GetDescription,
    GetVersion,
    GetGame,
    GetPort,
    GetAutoStart,
    GetRestartOnCrash,
    SetName,
    SetDescription,
    SetPort,
    SetAutoStart,
    SetRestartOnCrash,
    GetConfigurableManifest,
    UpdateConfigurable,
    StartInstance,
    StopInstance,
    RestartInstance,
    KillInstance,
    GetState,
    SendCommand,
    Monitor,
    GetPlayerCount,
    GetMaxPlayerCount,
    GetPlayerList,
    GetMacroList,
    GetTaskList,
    GetHistoryList,
    DeleteMacro,
    CreateMacro,
    RunMacro,
}

impl ProcedureCallKind {
    /// The TypeScript declaration of this type.
    pub fn export() -> (s: String)
        ensures
            s@ == "export type ProcedureCallKind = \"SetupInstance\" | \"RestoreInstance\" | \"DestructInstance\" | \"GetSetupManifest\" | \"GetName\" | \"GetDescription\" | \"GetVersion\" | \"GetGame\" | \"GetPort\" | \"GetAutoStart\" | \"GetRestartOnCrash\" | \"SetName\" | \"SetDescription\" | \"SetPort\" | \"SetAutoStart\" | \"SetRestartOnCrash\" | \"GetConfigurableManifest\" | \"UpdateConfigurable\" | \"StartInstance\" | \"StopInstance\" | \"RestartInstance\" | \"KillInstance\" | \"GetState\" | \"SendCommand\" | \"Monitor\" | \"GetPlayerCount\" | \"GetMaxPlayerCount\" | \"GetPlayerList\" | \"GetMacroList\" | \"GetTaskList\" | \"GetHistoryList\" | \"DeleteMacro\" | \"CreateMacro\" | \"RunMacro\";"@,
    {
        String::from_str("export type ProcedureCallKind = \"SetupInstance\" | \"RestoreInstance\" | \"DestructInstance\" | \"GetSetupManifest\" | \"GetName\" | \"GetDescription\" | \"GetVersion\" | \"GetGame\" | \"GetPort\" | \"GetAutoStart\" | \"GetRestartOnCrash\" | \"SetName\" | \"SetDescription\" | \"SetPort\" | \"SetAutoStart\" | \"SetRestartOnCrash\" | \"GetConfigurableManifest\" | \"UpdateConfigurable\" | \"StartInstance\" | \"StopInstance\" | \"RestartInstance\" | \"KillInstance\" | \"GetState\" | \"SendCommand\" | \"Monitor\" | \"GetPlayerCount\" | \"GetMaxPlayerCount\" | \"GetPlayerList\" | \"GetMacroList\" | \"GetTaskList\" | \"GetHistoryList\" | \"DeleteMacro\" | \"CreateMacro\" | \"RunMacro\";")
    }
}

/// A procedure call: which procedure, with its arguments.
#[derive(Debug)]
pub enum ProcedureCallInner {
    SetupInstance {
        dot_lodestone_config: DotLodestoneConfig,
        setup_value: SetupValue,
        /// The instance's directory.
        path: String,
    },
    RestoreInstance { dot_lodestone_config: DotLodestoneConfig, path: String },
    DestructInstance,
    GetSetupManifest,
    GetName,
    GetDescription,
    GetVersion,
    GetGame,
    GetPort,
    GetAutoStart,
    GetRestartOnCrash,
    SetName { new_name: String },
    SetDescription { new_description: String },
    SetPort { new_port: u32 },
    SetAutoStart { new_auto_start: bool },
    SetRestartOnCrash { new_restart_on_crash: bool },
    GetConfigurableManifest,
    UpdateConfigurable { section_id: String, setting_id: String, new_value: ConfigurableValue },
    StartInstance { caused_by: CausedBy, block: bool },
    StopInstance { caused_by: CausedBy, block: bool },
    RestartInstance { caused_by: CausedBy, block: bool },
    KillInstance { caused_by: CausedBy },
    GetState,
    SendCommand { command: String, caused_by: CausedBy },
    Monitor,
    GetPlayerCount,
    GetMaxPlayerCount,
    GetPlayerList,
    GetMacroList,
    GetTaskList,
    GetHistoryList,
    DeleteMacro { name: String },
    CreateMacro { name: String, content: String },
    RunMacro { name: String, args: Vec<String>, caused_by: CausedBy },
}

/// The procedure a call is for.
pub open spec fn spec_call_kind(c: ProcedureCallInner) -> ProcedureCallKind {
    match c {
        ProcedureCallInner::SetupInstance { .. } => ProcedureCallKind::SetupInstance,
        ProcedureCallInner::RestoreInstance { .. } => ProcedureCallKind::RestoreInstance,
        ProcedureCallInner::DestructInstance => ProcedureCallKind::DestructInstance,
        ProcedureCallInner::GetSetupManifest => ProcedureCallKind::GetSetupManifest,
        ProcedureCallInner::GetName => ProcedureCallKind::GetName,
        ProcedureCallInner::GetDescription => ProcedureCallKind::GetDescription,
        ProcedureCallInner::GetVersion => ProcedureCallKind::GetVersion,
        ProcedureCallInner::GetGame => ProcedureCallKind::GetGame,
        ProcedureCallInner::GetPort => ProcedureCallKind::GetPort,
        ProcedureCallInner::GetAutoStart => ProcedureCallKind::GetAutoStart,
        ProcedureCallInner::GetRestartOnCrash => ProcedureCallKind::GetRestartOnCrash,
        ProcedureCallInner::SetName { .. } => ProcedureCallKind::SetName,
        ProcedureCallInner::SetDescription { .. } => ProcedureCallKind::SetDescription,
        ProcedureCallInner::SetPort { .. } => ProcedureCallKind::SetPort,
        ProcedureCallInner::SetAutoStart { .. } => ProcedureCallKind::SetAutoStart,
        ProcedureCallInner::SetRestartOnCrash { .. } => ProcedureCallKind::SetRestartOnCrash,
        ProcedureCallInner::GetConfigurableManifest => ProcedureCallKind::GetConfigurableManifest,
        ProcedureCallInner::UpdateConfigurable { .. } => ProcedureCallKind::UpdateConfigurable,
        ProcedureCallInner::StartInstance { .. } => ProcedureCallKind::StartInstance,
        ProcedureCallInner::StopInstance { .. } => ProcedureCallKind::StopInstance,
        ProcedureCallInner::RestartInstance { .. } => ProcedureCallKind::RestartInstance,
        ProcedureCallInner::KillInstance { .. } => ProcedureCallKind::KillInstance,
        ProcedureCallInner::GetState => ProcedureCallKind::GetState,
        ProcedureCallInner::SendCommand { .. } => ProcedureCallKind::SendCommand,
        ProcedureCallInner::Monitor => ProcedureCallKind::Monitor,
        ProcedureCallInner::GetPlayerCount => ProcedureCallKind::GetPlayerCount,
        ProcedureCallInner::GetMaxPlayerCount => ProcedureCallKind::GetMaxPlayerCount,
        ProcedureCallInner::GetPlayerList => ProcedureCallKind::GetPlayerList,
        ProcedureCallInner::GetMacroList => ProcedureCallKind::GetMacroList,
        ProcedureCallInner::GetTaskList => ProcedureCallKind::GetTaskList,
        ProcedureCallInner::GetHistoryList => ProcedureCallKind::GetHistoryList,
        ProcedureCallInner::DeleteMacro { .. } => ProcedureCallKind::DeleteMacro,
        ProcedureCallInner::CreateMacro { .. } => ProcedureCallKind::CreateMacro,
        ProcedureCallInner::RunMacro { .. } => ProcedureCallKind::RunMacro,
    }
}

impl ProcedureCallInner {
    /// The procedure this call is for.
    pub fn kind(&self) -> (k: ProcedureCallKind)
        ensures
            k == spec_call_kind(*self),
    {
        match self {
            ProcedureCallInner::SetupInstance { .. } => ProcedureCallKind::SetupInstance,
            ProcedureCallInner::RestoreInstance { .. } => ProcedureCallKind::RestoreInstance,
            ProcedureCallInner::DestructInstance => ProcedureCallKind::DestructInstance,
            ProcedureCallInner::GetSetupManifest => ProcedureCallKind::GetSetupManifest,
            ProcedureCallInner::GetName => ProcedureCallKind::GetName,
            ProcedureCallInner::GetDescription => ProcedureCallKind::GetDescription,
            ProcedureCallInner::GetVersion => ProcedureCallKind::GetVersion,
            ProcedureCallInner::GetGame => ProcedureCallKind::GetGame,
            ProcedureCallInner::GetPort => ProcedureCallKind::GetPort,
            ProcedureCallInner::GetAutoStart => ProcedureCallKind::GetAutoStart,
            ProcedureCallInner::GetRestartOnCrash => ProcedureCallKind::GetRestartOnCrash,
            ProcedureCallInner::SetName { .. } => ProcedureCallKind::SetName,
            ProcedureCallInner::SetDescription { .. } => ProcedureCallKind::SetDescription,
            ProcedureCallInner::SetPort { .. } => ProcedureCallKind::SetPort,
            ProcedureCallInner::SetAutoStart { .. } => ProcedureCallKind::SetAutoStart,
            ProcedureCallInner::SetRestartOnCrash { .. } => ProcedureCallKind::SetRestartOnCrash,
            ProcedureCallInner::GetConfigurableManifest => ProcedureCallKind::GetConfigurableManifest,
            ProcedureCallInner::UpdateConfigurable { .. } => ProcedureCallKind::UpdateConfigurable,
            ProcedureCallInner::StartInstance { .. } => ProcedureCallKind::StartInstance,
            ProcedureCallInner::StopInstance { .. } => ProcedureCallKind::StopInstance,
            ProcedureCallInner::RestartInstance { .. } => ProcedureCallKind::RestartInstance,
            ProcedureCallInner::KillInstance { .. } => ProcedureCallKind::KillInstance,
            ProcedureCallInner::GetState => ProcedureCallKind::GetState,
            ProcedureCallInner::SendCommand { .. } => ProcedureCallKind::SendCommand,
            ProcedureCallInner::Monitor => ProcedureCallKind::Monitor,
            ProcedureCallInner::GetPlayerCount => ProcedureCallKind::GetPlayerCount,
            ProcedureCallInner::GetMaxPlayerCount => ProcedureCallKind::GetMaxPlayerCount,
            ProcedureCallInner::GetPlayerList => ProcedureCallKind::GetPlayerList,
            ProcedureCallInner::GetMacroList => ProcedureCallKind::GetMacroList,
            ProcedureCallInner::GetTaskList => ProcedureCallKind::GetTaskList,
            ProcedureCallInner::GetHistoryList => ProcedureCallKind::GetHistoryList,
            ProcedureCallInner::DeleteMacro { .. } => ProcedureCallKind::DeleteMacro,
            ProcedureCallInner::CreateMacro { .. } => ProcedureCallKind::CreateMacro,
            ProcedureCallInner::RunMacro { .. } => ProcedureCallKind::RunMacro,
        }
    }
}

/// A call sent to the script: its number, which its answer carries back,
/// and the procedure with its arguments.
#[derive(Debug)]
pub struct ProcedureCall {
    pub id: u64,
    pub inner: ProcedureCallInner,
}

/// What a procedure answers.
#[derive(Debug)]
pub enum ProcedureCallResultInner {
    String(String),
    State(State),
    Num(u32),
    Bool(bool),
    Player(Vec<GenericPlayer>),
    Void,
}

/// The debugging text of an answer (std's `Debug` formatting), for error
/// messages. Nothing is promised of the text.
#[verifier::external_body]
fn debug_text(value: &ProcedureCallResultInner) -> (s: String) {
    format!("{:?}", value)
}

/// The error for an answer of the wrong kind: a bad request whose message
/// names the kind expected and shows the answer.
fn wrong_answer(expected: &str, value: &ProcedureCallResultInner) -> (e: Error)
    ensures
        e.kind == ErrorKind::BadRequest,
        e.source@.len() >= ("ProcedureCallResultInner::"@ + expected@ + " expected, got "@).len(),
        e.source@.subrange(0, ("ProcedureCallResultInner::"@ + expected@ + " expected, got "@).len() as int)
            == "ProcedureCallResultInner::"@ + expected@ + " expected, got "@,
{
    let mut m = String::from_str("ProcedureCallResultInner::");
    push_str(&mut m, expected);
    push_str(&mut m, " expected, got ");
    let ghost prefix = m@;
    push_str(&mut m, debug_text(value).as_str());
    assert(m@.subrange(0, prefix.len() as int) =~= prefix);
    Error { kind: ErrorKind::BadRequest, source: m }
}

impl ProcedureCallResultInner {
    /// The String this answer holds; an answer of another kind is a bad request.
    pub fn into_string(self) -> (r: Result<String, Error>)
        ensures
            match self {
                ProcedureCallResultInner::String(v) => r == Ok::<String, Error>(v),
                _ => r is Err && r->Err_0.kind == ErrorKind::BadRequest,
            },
    {
        match self {
            ProcedureCallResultInner::String(v) => Ok(v),
            _ => Err(wrong_answer("String", &self)),
        }
    }

    /// The State this answer holds; an answer of another kind is a bad request.
    pub fn into_state(self) -> (r: Result<State, Error>)
        ensures
            match self {
                ProcedureCallResultInner::State(v) => r == Ok::<State, Error>(v),
                _ => r is Err && r->Err_0.kind == ErrorKind::BadRequest,
            },
    {
        match self {
            ProcedureCallResultInner::State(v) => Ok(v),
            _ => Err(wrong_answer("State", &self)),
        }
    }

    /// The u32 this answer holds; an answer of another kind is a bad request.
    pub fn into_num(self) -> (r: Result<u32, Error>)
        ensures
            match self {
                ProcedureCallResultInner::Num(v) => r == Ok::<u32, Error>(v),
                _ => r is Err && r->Err_0.kind == ErrorKind::BadRequest,
            },
    {
        match self {
            ProcedureCallResultInner::Num(v) => Ok(v),
            _ => Err(wrong_answer("Num", &self)),
        }
    }

    /// The bool this answer holds; an answer of another kind is a bad request.
    pub fn into_bool(self) -> (r: Result<bool, Error>)
        ensures
            match self {
                ProcedureCallResultInner::Bool(v) => r == Ok::<bool, Error>(v),
                _ => r is Err && r->Err_0.kind == ErrorKind::BadRequest,
            },
    {
        match self {
            ProcedureCallResultInner::Bool(v) => Ok(v),
            _ => Err(wrong_answer("Bool", &self)),
        }
    }

    /// The players this answer holds; an answer of another kind is a bad
    /// request.
    pub fn into_players(self) -> (r: Result<Vec<GenericPlayer>, Error>)
        ensures
            match self {
                ProcedureCallResultInner::Player(v) => r is Ok && r->Ok_0@ == v@,
                _ => r is Err && r->Err_0.kind == ErrorKind::BadRequest,
            },
    {
        match self {
            ProcedureCallResultInner::Player(v) => Ok(v),
            _ => Err(wrong_answer("Player", &self)),
        }
    }

    /// Nothing, for an answer that holds nothing; an answer of another kind
    /// is a bad request.
    pub fn into_void(self) -> (r: Result<(), Error>)
        ensures
            r is Ok <==> self is Void,
            r is Err ==> r->Err_0.kind == ErrorKind::BadRequest,
    {
        match self {
            ProcedureCallResultInner::Void => Ok(()),
            _ => Err(wrong_answer("Void", &self)),
        }
    }
}

/// The kind of an error a procedure reports.
#[derive(Debug, Clone, Copy, PartialEq, Eq, Structural)]
pub enum ErrorKindIR {
    NotFound,
    UnsupportedOperation,
    BadRequest,
    Internal,
}

pub open spec fn spec_error_kind(k: ErrorKindIR) -> ErrorKind {
    match k {
        ErrorKindIR::NotFound => ErrorKind::NotFound,
        ErrorKindIR::UnsupportedOperation => ErrorKind::UnsupportedOperation,
        ErrorKindIR::BadRequest => ErrorKind::BadRequest,
        ErrorKindIR::Internal => ErrorKind::Internal,
    }
}

impl ErrorKindIR {
    /// The error kind of the core that this kind stands for.
    pub fn to_error_kind(self) -> (k: ErrorKind)
        ensures
            k == spec_error_kind(self),
    {
        match self {
            ErrorKindIR::NotFound => ErrorKind::NotFound,
            ErrorKindIR::UnsupportedOperation => ErrorKind::UnsupportedOperation,
            ErrorKindIR::BadRequest => ErrorKind::BadRequest,
            ErrorKindIR::Internal => ErrorKind::Internal,
        }
    }
}

/// An error a procedure reports.
#[derive(Debug)]
pub struct ErrorIR {
    pub kind: ErrorKindIR,
    pub source: String,
}

impl ErrorIR {
    /// The error of the core that this error stands for.
    pub fn to_error(self) -> (e: Error)
        ensures
            e.kind == spec_error_kind(self.kind),
            e.source == self.source,
    {
        Error { kind: self.kind.to_error_kind(), source: self.source }
    }
}

/// The answer to a procedure call: on success it holds the result, else the
/// error.
#[derive(Debug)]
pub struct ProcedureCallResultIR {
    pub id: u64,
    pub success: bool,
    pub procedure_call_kind: ProcedureCallKind,
    /// There exactly when `success`.
    pub inner: Option<ProcedureCallResultInner>,
    /// There exactly when not `success`.
    pub error: Option<ErrorIR>,
}

impl ProcedureCallResultIR {
    /// The outcome the answer reports: its result on success, else its
    /// error.
    pub fn into_result(self) -> (r: Result<ProcedureCallResultInner, Error>)
        requires
            self.success ==> self.inner is Some,
            !self.success ==> self.error is Some,
        ensures
            self.success ==> r is Ok && r->Ok_0 == self.inner->0,
            !self.success ==> r is Err && r->Err_0.kind == spec_error_kind(self.error->0.kind)
                && r->Err_0.source == self.error->0.source,
    {
        if self.success {
            match self.inner {
                Some(i) => Ok(i),
                None => Err(Error::new(ErrorKind::Internal, "")),
            }
        } else {
            match self.error {
                Some(e) => Err(e.to_error()),
                None => Err(Error::new(ErrorKind::Internal, "")),
            }
        }
    }
}

/// A text answer, or the fallback where the call failed or answered
/// something else (a generic instance's name, version and description fall
/// back to `Unknown`).
pub fn text_or(answer: Result<ProcedureCallResultInner, Error>, fallback: &str) -> (s: String)
    ensures
        match answer {
            Ok(ProcedureCallResultInner::String(v)) => s == v,
            _ => s@ == fallback@,
        },
{
    match answer {
        Ok(ProcedureCallResultInner::String(v)) => v,
        _ => String::from_str(fallback),
    }
}

/// A number answer, or the fallback where the call failed or answered
/// something else (a generic instance's port falls back to 0).
pub fn num_or(answer: Result<ProcedureCallResultInner, Error>, fallback: u32) -> (n: u32)
    ensures
        match answer {
            Ok(ProcedureCallResultInner::Num(v)) => n == v,
            _ => n == fallback,
        },
{
    match answer {
        Ok(ProcedureCallResultInner::Num(v)) => v,
        _ => fallback,
    }
}

/// A yes-or-no answer, or the fallback where the call failed or answered
/// something else (a generic instance's automatic start and restart on a
/// crash fall back to no).
pub fn bool_or(answer: Result<ProcedureCallResultInner, Error>, fallback: bool) -> (b: bool)
    ensures
        match answer {
            Ok(ProcedureCallResultInner::Bool(v)) => b == v,
            _ => b == fallback,
        },
{
    match answer {
        Ok(ProcedureCallResultInner::Bool(v)) => v,
        _ => fallback,
    }
}

} // verus!
