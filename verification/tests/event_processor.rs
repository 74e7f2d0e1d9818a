use lodestone_core::event_processor::{
    is_player_message, parse, parse_player_event, try_parse, try_parse_player_event, Dispatch,
    EventProcessor, PlayerEventVarient, Signal,
};

type Processor = EventProcessor<u8, u8, u8, u8, u8>;

#[test]
fn signals_are_read_in_any_case() {
    assert!(matches!(Signal::from_str("info"), Ok(Signal::Info)));
    assert!(matches!(Signal::from_str("WARN"), Ok(Signal::Warn)));
    assert!(matches!(Signal::from_str("Error"), Ok(Signal::Error)));
    assert!(Signal::from_str("debug").is_err());
}

#[test]
fn vanilla_lines_are_split() {
    let m = parse(&"[12:34:56] [Server thread/INFO]: Steve joined the game".to_string()).unwrap();
    assert_eq!(m.timestamp, "12:34:56");
    assert_eq!(m.signal, Signal::Info);
    assert_eq!(m.message, "Steve joined the game");
    let e = m.player_event.unwrap();
    assert_eq!(e.player, "Steve");
    assert!(matches!(e.event, PlayerEventVarient::Joined));
}

#[test]
fn spigot_lines_are_split() {
    let m = parse(&"[12:34:56 WARN]: Can't keep up!".to_string()).unwrap();
    assert_eq!(m.timestamp, "12:34:56");
    assert_eq!(m.signal, Signal::Warn);
    assert_eq!(m.message, "Can't keep up!");
    assert!(m.player_event.is_none());
}

#[test]
fn lines_of_no_known_shape_give_nothing() {
    assert!(parse(&"hello".to_string()).is_none());
    assert!(Processor::new().process(&"hello".to_string()).is_empty());
}

#[test]
fn a_line_of_an_unknown_level_cannot_be_read() {
    assert!(try_parse(&"[12:34:56] [Server thread/DEBUG]: x".to_string()).is_none());
    assert!(Processor::new().try_process(&"[12:34:56] [Server thread/DEBUG]: x".to_string()).is_none());
}

#[test]
fn player_events_are_recognised() {
    let chat = parse_player_event(&"<Steve> hello there".to_string()).unwrap();
    assert_eq!(chat.player, "Steve");
    assert!(matches!(chat.event, PlayerEventVarient::Chat(ref t) if t == "hello there"));

    let cmd = parse_player_event(&"[Steve: Set the time to 1000]".to_string()).unwrap();
    assert_eq!(cmd.player, "Steve");
    assert!(matches!(cmd.event, PlayerEventVarient::Command(ref t) if t == "Set the time to 1000"));

    let left = parse_player_event(&"Alex left the game".to_string()).unwrap();
    assert_eq!(left.player, "Alex");
    assert!(matches!(left.event, PlayerEventVarient::Left));

    let adv = parse_player_event(&"Alex has made the advancement [Stone Age]".to_string()).unwrap();
    assert_eq!(adv.player, "Alex");
    assert!(matches!(adv.event, PlayerEventVarient::Advancement(ref t) if t == "Stone Age"));

    let quick = parse_player_event(&"Alex moved too quickly! 1.0,2.0,3.0".to_string()).unwrap();
    assert!(matches!(quick.event, PlayerEventVarient::IllegalMove(ref t) if t == "1.0,2.0,3.0"));

    let wrong = parse_player_event(&"Alex moved wrongly!".to_string()).unwrap();
    assert!(matches!(wrong.event, PlayerEventVarient::IllegalMove(ref t) if t == "moved wrongly"));

    assert!(parse_player_event(&"Preparing spawn area".to_string()).is_none());
}

#[test]
fn unreadable_player_messages() {
    assert!(try_parse_player_event(&"".to_string()).is_none());
    assert!(try_parse_player_event(&"Alex has completed the challenge [X]".to_string()).is_none());
    assert!(try_parse_player_event(&"Alex joined the game".to_string()).is_some());
}

#[test]
fn chat_lines_start_with_a_bracket() {
    assert!(is_player_message(&"<a> b".to_string()));
    assert!(!is_player_message(&"a <b>".to_string()));
}

#[test]
fn joins_dispatch_to_their_callbacks() {
    let d = Processor::new().process(&"[12:34:56] [Server thread/INFO]: Steve joined the game".to_string());
    assert_eq!(d.len(), 3);
    assert!(matches!(d[0], Dispatch::ServerMessage(_)));
    assert!(matches!(d[1], Dispatch::PlayerEvent(_)));
    assert!(matches!(d[2], Dispatch::PlayerJoined(ref p) if p == "Steve"));
}

#[test]
fn chat_dispatches_player_and_text() {
    let d = Processor::new().process(&"[12:34:56] [Server thread/INFO]: <Steve> hi".to_string());
    assert!(matches!(d[2], Dispatch::Chat(ref p, ref t) if p == "Steve" && t == "hi"));
}

#[test]
fn the_startup_line_dispatches_startup() {
    let d = Processor::new()
        .process(&"[12:34:56] [Server thread/INFO]: Done (3.2s)! For help, type \"help\"".to_string());
    assert_eq!(d.len(), 2);
    assert!(matches!(d[1], Dispatch::ServerStartup));
}

#[test]
fn registering_a_callback_adds_it_to_its_list() {
    let mut p = Processor::new();
    p.on_chat(1);
    p.on_chat(2);
    p.on_server_shutdown(9);
    assert_eq!(p.on_chat, vec![1, 2]);
    assert_eq!(p.on_server_shutdown, vec![9]);
    assert!(p.on_player_joined.is_empty());
}

#[test]
fn only_the_exit_of_the_server_triggers_shutdown() {
    let mut p = Processor::new();
    p.on_server_shutdown(7);
    for line in [
        "[12:34:56] [Server thread/INFO]: Stopping the server",
        "[12:34:56] [Server thread/INFO]: <Steve> stop",
        "[12:34:56] [Server thread/INFO]: Steve issued server command: /stop",
        "stop",
    ] {
        if let Some(d) = p.try_process(&line.to_string()) {
            assert!(d.iter().all(|x| !matches!(x, Dispatch::ServerShutdown)));
        }
    }
    let d = p.notify_server_shutdown();
    assert_eq!(d.len(), 1);
    assert!(matches!(d[0], Dispatch::ServerShutdown));
    assert_eq!(p.on_server_shutdown, vec![7]);
}
