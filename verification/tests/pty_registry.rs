use driftcode::pty::{shell_escape, startup_writes, PtyPump, PumpAction, PumpEvent};
use driftcode::registry::{AppState, TerminalRecord};

#[test]
fn shell_escaping() {
    assert_eq!(shell_escape("/work dir"), "'/work dir'");
    assert_eq!(shell_escape("a'b"), "'a'\\''b'");
    assert_eq!(shell_escape(""), "''");
}

#[test]
fn startup_sequence() {
    let writes = startup_writes(
        &Some(String::from("/work dir")),
        &Some(String::from("ls -la")),
    );
    assert_eq!(writes.len(), 2);
    assert_eq!(writes[0].delay_ms, 100);
    assert_eq!(writes[0].data, "cd '/work dir'\n");
    assert_eq!(writes[1].delay_ms, 50);
    assert_eq!(writes[1].data, "ls -la\n");
}

#[test]
fn startup_keeps_existing_newline() {
    let writes = startup_writes(&None, &Some(String::from("tmux attach\n")));
    assert_eq!(writes.len(), 1);
    assert_eq!(writes[0].data, "tmux attach\n");
}

#[test]
fn startup_without_extras_is_empty() {
    assert_eq!(startup_writes(&None, &None).len(), 0);
}

#[test]
fn pump_forwards_data_as_output() {
    let mut pump = PtyPump::new(String::from("T1"));
    match pump.step(PumpEvent::ChannelData(vec![1, 2, 3])) {
        PumpAction::EmitOutput(ev) => {
            assert_eq!(ev.terminal_id, "T1");
            assert_eq!(ev.data, vec![1, 2, 3]);
        },
        _ => panic!("expected terminal output"),
    }
    match pump.step(PumpEvent::ChannelExtendedData(vec![9])) {
        PumpAction::EmitOutput(ev) => assert_eq!(ev.data, vec![9]),
        _ => panic!("expected terminal output"),
    }
    assert!(!pump.terminated);
}

#[test]
fn pump_serves_commands() {
    let mut pump = PtyPump::new(String::from("T1"));
    match pump.step(PumpEvent::CmdWrite(vec![4, 5])) {
        PumpAction::WriteBytes(d) => assert_eq!(d, vec![4, 5]),
        _ => panic!("expected a write"),
    }
    match pump.step(PumpEvent::CmdResize { cols: 120, rows: 40 }) {
        PumpAction::WindowChange { cols, rows, pix_width, pix_height } => {
            assert_eq!((cols, rows, pix_width, pix_height), (120, 40, 0, 0));
        },
        _ => panic!("expected a window change"),
    }
    assert!(matches!(pump.step(PumpEvent::ChannelOther), PumpAction::Continue));
}

#[test]
fn pump_closes_at_most_once() {
    let mut pump = PtyPump::new(String::from("T1"));
    assert!(matches!(pump.step(PumpEvent::CmdClose), PumpAction::CloseChannel));
    assert!(pump.terminated);
    assert!(pump.closed_channel);
    // later events, including another close, do nothing
    assert!(matches!(pump.step(PumpEvent::CmdClose), PumpAction::Continue));
    assert!(matches!(pump.step(PumpEvent::ChannelData(vec![1])), PumpAction::Continue));
}

#[test]
fn pump_stops_without_closing_on_eof() {
    let mut pump = PtyPump::new(String::from("T1"));
    assert!(matches!(pump.step(PumpEvent::ChannelClosed), PumpAction::Stop));
    assert!(pump.terminated);
    assert!(!pump.closed_channel);
}

#[test]
fn pump_write_failure_shuts_down() {
    let mut pump = PtyPump::new(String::from("T1"));
    assert!(matches!(pump.step(PumpEvent::WriteFailed), PumpAction::Shutdown));
    assert!(pump.terminated);
    assert!(!pump.closed_channel);
}

fn term(tid: &str, cid: &str) -> TerminalRecord<u32> {
    TerminalRecord {
        terminal_id: String::from(tid),
        connection_id: String::from(cid),
        handle: 0,
    }
}

#[test]
fn registry_add_and_lookup() {
    let mut state: AppState<u32, u32> = AppState::new();
    state.add_connection(String::from("C"), 7);
    assert_eq!(state.get_connection("C"), Some(&7));
    assert!(state.get_connection("D").is_none());
    assert!(state.add_terminal(term("T1", "C")));
    assert!(state.get_terminal("T1").is_some());
}

#[test]
fn terminal_without_connection_is_refused() {
    let mut state: AppState<u32, u32> = AppState::new();
    assert!(!state.add_terminal(term("T1", "missing")));
    assert!(state.get_terminal("T1").is_none());
}

#[test]
fn reconnect_scenario_takes_both_terminals() {
    // a connection with two PTYs: removing it yields the handle and both
    // terminal records, and leaves nothing behind
    let mut state: AppState<u32, u32> = AppState::new();
    state.add_connection(String::from("C"), 7);
    state.add_connection(String::from("D"), 8);
    assert!(state.add_terminal(term("T1", "C")));
    assert!(state.add_terminal(term("T2", "C")));
    assert!(state.add_terminal(term("T3", "D")));
    let (handle, removed) = state.remove_connection("C");
    assert_eq!(handle, Some(7));
    assert_eq!(removed.len(), 2);
    assert!(removed.iter().all(|t| t.connection_id == "C"));
    assert!(state.get_terminal("T1").is_none());
    assert!(state.get_terminal("T2").is_none());
    assert!(state.get_terminal("T3").is_some());
    assert!(state.get_connection("C").is_none());
}

#[test]
fn take_terminals_for_connection_only_touches_that_connection() {
    let mut state: AppState<u32, u32> = AppState::new();
    state.add_connection(String::from("C"), 1);
    state.add_connection(String::from("D"), 2);
    assert!(state.add_terminal(term("T1", "C")));
    assert!(state.add_terminal(term("T2", "D")));
    let taken = state.take_terminals_for_connection("C");
    assert_eq!(taken.len(), 1);
    assert_eq!(taken[0].terminal_id, "T1");
    assert!(state.get_terminal("T2").is_some());
    assert!(state.get_connection("C").is_some());
}

#[test]
fn remove_terminal_returns_its_record() {
    let mut state: AppState<u32, u32> = AppState::new();
    state.add_connection(String::from("C"), 1);
    assert!(state.add_terminal(term("T1", "C")));
    let t = state.remove_terminal("T1").expect("present");
    assert_eq!(t.terminal_id, "T1");
    assert!(state.remove_terminal("T1").is_none());
}
