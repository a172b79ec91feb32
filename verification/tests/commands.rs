use rshell::builtins::{
    cd_action, dispatch, exit_message, help_output, help_text, lookup, Builtin, CdAction, Command,
};
use rshell::editor::{LineEditor, StepResult};
use rshell::guard::ModeGuard;
use rshell::screen::{cursor_left_cmd, decimal_string, prompt_for, repaint_cmd};
use rshell::tokenizer::split_line;

#[test]
fn lookup_finds_each_builtin_by_exact_name() {
    assert_eq!(lookup("cd"), Some(Builtin::Cd));
    assert_eq!(lookup("help"), Some(Builtin::Help));
    assert_eq!(lookup("exit"), Some(Builtin::Exit));
    assert_eq!(lookup("cdd"), None);
    assert_eq!(lookup("CD"), None);
    assert_eq!(lookup(""), None);
}

#[test]
fn cd_line_dispatches_to_the_cd_builtin() {
    let tokens = split_line("cd /tmp");
    match dispatch(tokens) {
        Command::Builtin(Builtin::Cd, args) => {
            assert_eq!(args, vec!["/tmp"]);
            match cd_action(&args) {
                CdAction::ChangeTo(p) => assert_eq!(p, "/tmp"),
                CdAction::Home => panic!("expected a path"),
            }
        }
        _ => panic!("expected the cd builtin"),
    }
}

#[test]
fn cd_without_arguments_goes_home() {
    match cd_action(&Vec::new()) {
        CdAction::Home => {}
        CdAction::ChangeTo(_) => panic!("expected the home directory"),
    }
}

#[test]
fn help_cd_prints_exactly_the_cd_help_text() {
    let tokens = split_line("help cd");
    match dispatch(tokens) {
        Command::Builtin(Builtin::Help, args) => {
            let mut expected = help_text(Builtin::Cd);
            expected.push('\n');
            assert_eq!(help_output(&args), expected);
        }
        _ => panic!("expected the help builtin"),
    }
}

#[test]
fn help_without_arguments_prints_the_banner_with_every_builtin() {
    let banner = help_output(&Vec::new());
    assert!(banner.contains("A shell.\n"));
    assert!(banner.contains("\tcd\n"));
    assert!(banner.contains("\thelp\n"));
    assert!(banner.contains("\texit\n"));
}

#[test]
fn help_with_an_unknown_name_reports_it() {
    let args = vec!["frobnicate".to_string()];
    assert_eq!(help_output(&args), "help: unknown builtin frobnicate\n");
}

#[test]
fn unknown_command_dispatches_to_an_external_program() {
    let tokens = split_line("echo a\\ b");
    assert_eq!(tokens, vec!["echo", "a b"]);
    match dispatch(tokens) {
        Command::External(name, args) => {
            assert_eq!(name, "echo");
            assert_eq!(args, vec!["a b"]);
        }
        _ => panic!("expected an external command"),
    }
}

#[test]
fn empty_line_dispatches_to_nothing() {
    assert!(matches!(dispatch(Vec::new()), Command::Empty));
    assert!(matches!(dispatch(split_line("   ")), Command::Empty));
}

#[test]
fn exit_without_reason_is_silent() {
    assert_eq!(exit_message(&Vec::new()), None);
}

#[test]
fn exit_with_a_reason_echoes_it() {
    let args = vec!["done".to_string()];
    assert_eq!(exit_message(&args), Some("Exiting (done).\n".to_string()));
}

#[test]
fn interrupt_then_exit_still_reaches_the_exit_builtin() {
    // Ctrl-C aborts the first line; the following line runs `exit`, whose
    // handler restores the terminal before the process would terminate.
    let mut ed = LineEditor::new();
    assert!(matches!(ed.step(0x03), StepResult::Cancelled));
    let mut done = None;
    for b in b"exit\n" {
        if let StepResult::Done(line) = ed.step(*b) {
            done = Some(line);
        }
    }
    let line = done.expect("the line should complete");
    match dispatch(split_line(&line)) {
        Command::Builtin(Builtin::Exit, args) => {
            assert_eq!(exit_message(&args), None);
            let mut guard = ModeGuard::save();
            guard.enter_raw();
            guard.restore();
        }
        _ => panic!("expected the exit builtin"),
    }
}

#[test]
fn prompt_shows_the_working_directory() {
    assert_eq!(prompt_for("/tmp"), "</tmp> => ");
    assert_eq!(prompt_for(""), "<> => ");
}

#[test]
fn decimal_rendering_is_exact() {
    assert_eq!(decimal_string(0), "0");
    assert_eq!(decimal_string(7), "7");
    assert_eq!(decimal_string(10), "10");
    assert_eq!(decimal_string(123), "123");
    assert_eq!(decimal_string(90210), "90210");
}

#[test]
fn cursor_and_repaint_sequences_are_exact() {
    assert_eq!(cursor_left_cmd(12), "\x1b[12D");
    assert_eq!(repaint_cmd("abc", 1), "\x1b[1D\x1b[Kabc\x1b[2D");
    // A repaint from just past the end redraws without the final move.
    assert_eq!(repaint_cmd("ab", 3), "\x1b[3D\x1b[Kab");
}
