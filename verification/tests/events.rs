use lodestone_core::auth::user_id::UserId;
use lodestone_core::events::{
    CausedBy, ClientEvent, Event, EventInner, EventLevel, EventQuery, EventType,
    InstanceEventInner, InstanceEventKind, State, UserEvent, UserEventInner, UserEventKind,
};
use lodestone_core::types::{is_minecraft_game_type, InstanceUuid, Snowflake};

#[test]
fn event_type_export() {
    let _ = EventType::export();
    let _ = UserEventKind::export();
    let _ = InstanceEventKind::export();
}

#[test]
fn event_type_declarations() {
    assert_eq!(
        EventType::export(),
        "export type EventType = \"InstanceEvent\" | \"UserEvent\" | \"MacroEvent\" | \"FSEvent\" | \"ProgressionEvent\";"
    );
    assert!(UserEventKind::export().contains("\"PermissionChanged\""));
    assert!(InstanceEventKind::export().starts_with("export type InstanceEventKind = \"StateTransition\""));
}

fn instance() -> InstanceUuid {
    InstanceUuid("instance-1".to_string())
}

fn client(event: Event, level: EventLevel) -> ClientEvent {
    ClientEvent {
        event_inner: event.event_inner,
        details: event.details,
        snowflake: event.snowflake,
        caused_by: event.caused_by,
        level,
    }
}

fn empty_query() -> EventQuery {
    EventQuery {
        event_levels: None,
        event_types: None,
        instance_event_types: None,
        user_event_types: None,
        event_user_ids: None,
        event_instance_ids: None,
        bearer_token: None,
        time_range: None,
    }
}

#[test]
fn event_constructors() {
    let e = Event::new_instance_output(instance(), "srv".to_string(), "hello".to_string());
    assert!(e.is_event_console_message());
    assert_eq!(e.get_instance_uuid().unwrap().0, "instance-1");
    assert!(e.try_player_message().is_none());
    let p = Event::new_player_message(instance(), "srv".to_string(), "Steve".to_string(), "hi".to_string());
    assert_eq!(p.try_player_message(), Some(("Steve".to_string(), "hi".to_string())));
    let t = Event::new_instance_state_transition(instance(), "srv".to_string(), State::Running);
    assert!(!t.is_event_console_message());
    match t.event_inner {
        EventInner::InstanceEvent(ie) => {
            assert!(matches!(ie.instance_event_inner, InstanceEventInner::StateTransition { to: State::Running }))
        }
        _ => panic!("an instance event"),
    }
}

#[test]
fn an_empty_query_selects_every_event() {
    let q = empty_query();
    let e = client(Event::new_instance_output(instance(), "srv".to_string(), "x".to_string()), EventLevel::Info);
    assert!(q.filter(&e));
}

#[test]
fn queries_select_by_level_type_and_subject() {
    let out = client(Event::new_instance_output(instance(), "srv".to_string(), "x".to_string()), EventLevel::Info);
    let user_event = client(
        Event {
            event_inner: EventInner::UserEvent(UserEvent {
                user_id: UserId("USER_1".to_string()),
                user_event_inner: UserEventInner::UserCreated,
            }),
            details: String::new(),
            snowflake: Snowflake(0),
            caused_by: CausedBy::System,
        },
        EventLevel::Warning,
    );

    let mut q = empty_query();
    q.event_levels = Some(vec![EventLevel::Warning]);
    assert!(!q.filter(&out));
    assert!(q.filter(&user_event));

    let mut q = empty_query();
    q.event_types = Some(vec![EventType::InstanceEvent]);
    assert!(q.filter(&out));
    assert!(!q.filter(&user_event));

    let mut q = empty_query();
    q.instance_event_types = Some(vec![InstanceEventKind::InstanceOutput]);
    assert!(q.filter(&out));
    assert!(!q.filter(&user_event));

    let mut q = empty_query();
    q.user_event_types = Some(vec![UserEventKind::UserCreated]);
    assert!(!q.filter(&out));
    assert!(q.filter(&user_event));

    let mut q = empty_query();
    q.event_user_ids = Some(vec![UserId("USER_1".to_string())]);
    assert!(q.filter(&user_event));
    q.event_user_ids = Some(vec![UserId("USER_2".to_string())]);
    assert!(!q.filter(&user_event));

    let mut q = empty_query();
    q.event_instance_ids = Some(vec![instance()]);
    assert!(q.filter(&out));
    q.event_instance_ids = Some(vec![InstanceUuid("other".to_string())]);
    assert!(!q.filter(&out));
}

#[test]
fn a_client_event_stands_for_its_event() {
    let c = client(Event::new_instance_output(instance(), "srv".to_string(), "x".to_string()), EventLevel::Error);
    let e = Event::from_client_event(c);
    assert!(e.is_event_console_message());
}

#[test]
fn waiting_for_an_instance_picks_its_own_events() {
    let mine = instance();
    let other = InstanceUuid("instance-2".to_string());
    let out = Event::new_instance_output(mine.clone(), "srv".to_string(), "hello".to_string());
    assert_eq!(out.instance_output_of(&mine), Some("hello".to_string()));
    assert_eq!(out.instance_output_of(&other), None);
    assert_eq!(out.state_change_of(&mine), None);
    let st = Event::new_instance_state_transition(mine.clone(), "srv".to_string(), State::Stopped);
    assert_eq!(st.state_change_of(&mine), Some(State::Stopped));
    assert_eq!(st.state_change_of(&other), None);
    assert_eq!(st.instance_output_of(&mine), None);
}

#[test]
fn minecraft_game_types() {
    assert!(is_minecraft_game_type("minecraft"));
    assert!(is_minecraft_game_type("MineCraft"));
    assert!(!is_minecraft_game_type("minecraft "));
    assert!(!is_minecraft_game_type("generic"));
}
