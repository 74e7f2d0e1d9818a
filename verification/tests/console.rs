use lodestone_core::minecraft::console::{console_actions, try_console_actions, ConsoleAction, MacroInstruction};

#[test]
fn output_lines_are_always_broadcast() {
    let (a, started) = console_actions(&"plain text".to_string(), false);
    assert_eq!(a.len(), 1);
    assert!(matches!(a[0], ConsoleAction::InstanceOutput(ref l) if l == "plain text"));
    assert!(!started);
}

#[test]
fn joins_and_leaves_are_system_messages() {
    let line = "[12:00:00] [Server thread/INFO]: Steve joined the game".to_string();
    let (a, _) = console_actions(&line, false);
    assert_eq!(a.len(), 3);
    assert!(matches!(a[1], ConsoleAction::SystemMessage(ref l) if *l == line));
    assert!(matches!(a[2], ConsoleAction::PlayerJoined(ref p) if p == "Steve"));

    let (a, _) = console_actions(&"[12:00:00] [Server thread/INFO]: Alex left the game".to_string(), false);
    assert!(matches!(a[2], ConsoleAction::PlayerLeft(ref p) if p == "Alex"));
}

#[test]
fn the_first_startup_line_starts_the_server() {
    let line = "[12:00:00] [Server thread/INFO]: Done (2.5s)! For help, type \"help\"".to_string();
    let (a, started) = console_actions(&line, false);
    assert!(matches!(a[1], ConsoleAction::ServerStarted));
    assert!(started);
    let (a, started) = console_actions(&line, true);
    assert!(!a.iter().any(|x| matches!(x, ConsoleAction::ServerStarted)));
    assert!(started);
}

#[test]
fn chat_lines_may_hold_macro_commands() {
    let (a, _) = console_actions(
        &"[12:00:00] [Server thread/INFO]: <Steve> .macro spawn backup now fast".to_string(),
        false,
    );
    assert_eq!(a.len(), 3);
    assert!(matches!(a[1], ConsoleAction::PlayerMessage { ref player, ref message }
        if player == "Steve" && message == ".macro spawn backup now fast"));
    match &a[2] {
        ConsoleAction::Macro(MacroInstruction::Spawn { player_name, macro_name, args }) => {
            assert_eq!(player_name, "Steve");
            assert_eq!(macro_name, "backup");
            assert_eq!(args, &vec!["now".to_string(), "fast".to_string()]);
        }
        _ => panic!("a spawn command"),
    }
    let (a, _) = console_actions(&"[12:00:00] [Server thread/INFO]: <Steve> .macro abort 12".to_string(), false);
    assert!(matches!(a[2], ConsoleAction::Macro(MacroInstruction::Abort(12))));
    let (a, _) = console_actions(&"[12:00:00] [Server thread/INFO]: <Steve> hello".to_string(), false);
    assert_eq!(a.len(), 2);
}

#[test]
fn ordinary_lines_can_be_read() {
    assert!(try_console_actions(&"[12:00:00] [Server thread/INFO]: <Steve> hello".to_string(), false).is_some());
}
