use lodestone_core::generic::bootstrap::{bootstrap_script, bootstrap_text};
use lodestone_core::error::ErrorKind;
use lodestone_core::events::State;
use lodestone_core::generic::procedure_call::{
    bool_or, num_or, text_or, ErrorIR, ProcedureCall, ProcedureCallInner, ErrorKindIR, ProcedureCallKind, ProcedureCallResultIR,
    ProcedureCallResultInner,
};
use lodestone_core::error::Error;

#[test]
fn export_procedure_call_kind() {
    let _ = ProcedureCallKind::export();
}

#[test]
fn procedure_call_kind_declaration() {
    let s = ProcedureCallKind::export();
    assert!(s.starts_with("export type ProcedureCallKind = \"SetupInstance\" | "));
    assert!(s.ends_with("\"RunMacro\";"));
}

#[test]
fn answers_of_the_right_kind_are_taken() {
    assert_eq!(ProcedureCallResultInner::String("x".to_string()).into_string().unwrap(), "x");
    assert_eq!(ProcedureCallResultInner::Num(7).into_num().unwrap(), 7);
    assert!(ProcedureCallResultInner::Bool(true).into_bool().unwrap());
    assert_eq!(ProcedureCallResultInner::State(State::Running).into_state().unwrap(), State::Running);
    assert!(ProcedureCallResultInner::Void.into_void().is_ok());
}

#[test]
fn answers_of_another_kind_are_bad_requests() {
    let e = ProcedureCallResultInner::Num(7).into_string().unwrap_err();
    assert_eq!(e.kind, ErrorKind::BadRequest);
    assert!(e.source.starts_with("ProcedureCallResultInner::String expected, got "));
    assert!(ProcedureCallResultInner::Void.into_bool().is_err());
}

#[test]
fn a_failed_answer_gives_its_error() {
    let ir = ProcedureCallResultIR {
        id: 3,
        success: false,
        procedure_call_kind: ProcedureCallKind::GetName,
        inner: None,
        error: Some(ErrorIR { kind: ErrorKindIR::NotFound, source: "gone".to_string() }),
    };
    let e = ir.into_result().unwrap_err();
    assert_eq!(e.kind, ErrorKind::NotFound);
    assert_eq!(e.source, "gone");
    let ok = ProcedureCallResultIR {
        id: 4,
        success: true,
        procedure_call_kind: ProcedureCallKind::GetPort,
        inner: Some(ProcedureCallResultInner::Num(25565)),
        error: None,
    };
    assert_eq!(ok.into_result().unwrap().into_num().unwrap(), 25565);
}

#[test]
fn the_start_script_runs_mod_ts_beside_the_link() {
    let s = bootstrap_script("https://raw.githubusercontent.com/CheatCod/generic_instance_test/main/").unwrap();
    assert_eq!(
        s,
        "import { run } from \"https://raw.githubusercontent.com/CheatCod/generic_instance_test/main/mod.ts\";\n                run();\n            "
    );
    let s = bootstrap_script("https://example.com/a/b").unwrap();
    assert!(s.starts_with("import { run } from \"https://example.com/a/mod.ts\";"));
    let e = bootstrap_script("not a url").unwrap_err();
    assert_eq!(e.source, "Invalid URL");
    assert_eq!(bootstrap_text("x"), "import { run } from \"x\";\n                run();\n            ");
}

#[test]
fn failed_or_odd_answers_fall_back() {
    let failed = || Err(Error { kind: ErrorKind::Internal, source: "gone".to_string() });
    assert_eq!(text_or(Ok(ProcedureCallResultInner::String("srv".to_string())), "Unknown"), "srv");
    assert_eq!(text_or(Ok(ProcedureCallResultInner::Num(3)), "Unknown"), "Unknown");
    assert_eq!(text_or(failed(), "Unknown"), "Unknown");
    assert_eq!(num_or(Ok(ProcedureCallResultInner::Num(25565)), 0), 25565);
    assert_eq!(num_or(Ok(ProcedureCallResultInner::Bool(true)), 0), 0);
    assert_eq!(num_or(failed(), 0), 0);
    assert!(bool_or(Ok(ProcedureCallResultInner::Bool(true)), false));
    assert!(!bool_or(Ok(ProcedureCallResultInner::Void), false));
    assert!(!bool_or(failed(), false));
}

#[test]
fn a_call_names_its_procedure() {
    assert_eq!(ProcedureCallInner::GetName.kind(), ProcedureCallKind::GetName);
    let call = ProcedureCall {
        id: 7,
        inner: ProcedureCallInner::SetPort { new_port: 25565 },
    };
    assert_eq!(call.inner.kind(), ProcedureCallKind::SetPort);
    let run = ProcedureCallInner::RunMacro {
        name: "backup".to_string(),
        args: vec![],
        caused_by: lodestone_core::events::CausedBy::System,
    };
    assert_eq!(run.kind(), ProcedureCallKind::RunMacro);
}
