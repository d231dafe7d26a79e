use kubeintel::command::build_command;
use kubeintel::command::TerminalCommand;
use kubeintel::context::ClusterContext;
use kubeintel::errors::OpError;
use kubeintel::terminal::{
    bridge_invocation, console_invocation, emulator_name, run_probe_sequence, LaunchState,
    TerminalLauncher, EMULATOR_COUNT,
};

fn cmd() -> TerminalCommand {
    build_command(
        &ClusterContext::new(String::from("/a/b"), String::from("ctx")),
        "cluster-info",
        &vec![],
        &None,
        &vec![],
    )
}

#[test]
fn preference_list_is_fixed_and_ordered() {
    let names: Vec<&str> = (0..EMULATOR_COUNT).map(emulator_name).collect();
    assert_eq!(
        names,
        ["gnome-terminal", "konsole", "xfce4-terminal", "xterm", "terminator", "alacritty"]
    );
}

#[test]
fn only_the_second_candidate_present_launches_the_second() {
    let present = vec![false, true, false, false, false, false];
    let spawns = vec![true, true, true, true, true, true];
    let launcher = run_probe_sequence(cmd(), &present, &spawns);
    assert_eq!(launcher.state(), LaunchState::Launched);
    assert_eq!(launcher.position(), 1);
    assert_eq!(launcher.outcome().unwrap(), 1);
}

#[test]
fn no_candidate_present_fails_with_no_terminal_found() {
    let present = vec![false; 6];
    let spawns = vec![true; 6];
    let launcher = run_probe_sequence(cmd(), &present, &spawns);
    assert_eq!(launcher.state(), LaunchState::Failed);
    match launcher.outcome() {
        Err(OpError::NoTerminalFound) => {}
        Err(e) => panic!("expected NoTerminalFound, got {:?}", e),
        Ok(i) => panic!("expected NoTerminalFound, got a launch at {}", i),
    }
}

#[test]
fn a_present_candidate_that_fails_to_spawn_is_skipped() {
    let present = vec![true, true, false, false, false, false];
    let spawns = vec![false, true, true, true, true, true];
    let launcher = run_probe_sequence(cmd(), &present, &spawns);
    assert_eq!(launcher.state(), LaunchState::Launched);
    assert_eq!(launcher.position(), 1);
}

#[test]
fn the_first_successful_spawn_stops_the_loop() {
    let present = vec![true; 6];
    let spawns = vec![true; 6];
    let launcher = run_probe_sequence(cmd(), &present, &spawns);
    assert_eq!(launcher.state(), LaunchState::Launched);
    assert_eq!(launcher.position(), 0);
}

#[test]
fn the_machine_walks_not_started_probing_launched() {
    let mut launcher = TerminalLauncher::new(cmd());
    assert_eq!(launcher.state(), LaunchState::NotStarted);
    launcher.begin();
    assert_eq!(launcher.state(), LaunchState::Probing);
    assert_eq!(launcher.pending_candidate(), Some("gnome-terminal"));
    launcher.advance(false, false);
    assert_eq!(launcher.pending_candidate(), Some("konsole"));
    launcher.advance(true, true);
    assert_eq!(launcher.state(), LaunchState::Launched);
    assert_eq!(launcher.pending_candidate(), None);
    assert_eq!(launcher.position(), 1);
}

#[test]
fn probe_invocation_echoes_runs_and_pauses() {
    let mut launcher = TerminalLauncher::new(cmd());
    launcher.begin();
    let inv = launcher.invocation();
    assert_eq!(inv.program, "gnome-terminal");
    assert_eq!(
        inv.args,
        [
            "--",
            "bash",
            "-c",
            "echo kubectl --kubeconfig /a/b --context ctx cluster-info; \
             kubectl --kubeconfig /a/b --context ctx cluster-info; \
             read -p 'Press Enter to exit...'"
        ]
    );
    launcher.advance(false, false);
    let inv = launcher.invocation();
    assert_eq!(inv.program, "konsole");
    assert_eq!(inv.args[0], "--noclose");
    assert_eq!(inv.args[1], "-e");
}

#[test]
fn console_invocation_echoes_and_keeps_the_window() {
    let inv = console_invocation(&cmd());
    assert_eq!(inv.program, "cmd");
    assert_eq!(
        inv.args,
        [
            "/C",
            "start",
            "cmd",
            "/K",
            "echo kubectl --kubeconfig /a/b --context ctx cluster-info && kubectl --kubeconfig /a/b --context ctx cluster-info"
        ]
    );
}

#[test]
fn bridge_invocation_tells_the_terminal_application() {
    let inv = bridge_invocation(&cmd());
    assert_eq!(inv.program, "osascript");
    assert_eq!(inv.args.len(), 2);
    assert_eq!(inv.args[0], "-e");
    assert_eq!(
        inv.args[1],
        "tell application \"Terminal\"\ndo script \"kubectl --kubeconfig /a/b --context ctx cluster-info\"\nactivate\nend tell"
    );
}
