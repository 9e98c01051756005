//! Tests of the dispatcher, the menu, and command templating: the scenarios
//! of shortcut dispatch, cancellation, quitting, and substitution.

use command_launcher::cmd_runner::{outcome_message, outcome_of_status, substitute, CmdRunner, CommandOutcome};
use command_launcher::dispatch::{
    handle_command, menu_step, render_invalid_input, render_menu, render_outcome_report,
    report_outcome, session_step, show_keymap_menu, CommandStart, DispatchOutcome, EditSession,
    MenuStep, SessionStep,
};
use command_launcher::input::{InputError, KeyEvent, TermError};
use command_launcher::keymap::{find_keymap, Keymap};
use command_launcher::term_writer::CursorPos;

/// A fake terminal that logs every write and emulates cursor movement: it
/// honours the go-to, cursor-left and cursor-right sequences, and plain text
/// advances the column as a real terminal would.
#[derive(Debug)]
struct Stdout {
    buffer: String,
    pos: (u16, u16),
}

impl Stdout {
    fn new() -> Self {
        Stdout { buffer: String::new(), pos: (1, 1) }
    }

    fn apply(&mut self, s: &str) {
        if let Some(rest) = s.strip_prefix("\u{1b}[") {
            if rest.ends_with('H') {
                let body = &rest[..rest.len() - 1];
                let mut it = body.split(';');
                let y: u16 = it.next().and_then(|v| v.parse().ok()).unwrap_or(1);
                let x: u16 = it.next().and_then(|v| v.parse().ok()).unwrap_or(1);
                self.pos = (x, y);
            } else if rest == "1D" {
                self.pos.0 = self.pos.0.saturating_sub(1).max(1);
            } else if rest == "1C" {
                self.pos.0 += 1;
            }
        } else {
            self.pos.0 += s.chars().count() as u16;
        }
    }
}

impl CursorPos for Stdout {
    fn write_term(&mut self, s: &str) -> Result<(), TermError> {
        self.apply(s);
        self.buffer.push_str(s);
        Ok(())
    }

    fn cursor_position(&mut self) -> Result<(u16, u16), TermError> {
        Ok(self.pos)
    }
}

/// Drives an editing session over a scripted key sequence until it finishes
/// or the keys run out.
fn drive(
    start: CommandStart,
    keys: Vec<KeyEvent>,
    stdout: &mut Stdout,
) -> Option<DispatchOutcome> {
    let mut session: EditSession = match start {
        CommandStart::Edit(s) => s,
        _ => panic!("expected an editing session"),
    };
    for key in keys {
        session = match session_step(session, key, stdout) {
            SessionStep::Editing(s) => s,
            SessionStep::Done(o) => return Some(o),
        };
    }
    None
}

#[test]
fn test_show_keymap_menu() {
    let keymaps = vec![Keymap::with_placeholder('t', "Test keymap", "echo {}", "{}")];

    let mut stdout = Stdout::new();

    show_keymap_menu(&keymaps, &mut stdout).unwrap();

    let stdout_str = stdout.buffer.clone();

    assert!(stdout_str.contains("Please select a command"));
    assert!(stdout_str.contains("t  Test keymap"));
}

#[test]
fn test_show_input_instruction() {
    let keymaps = vec![Keymap::with_placeholder('t', "Test keymap", "echo {}", "{}")];

    let pressed_key = 't';
    let stdin = vec![KeyEvent::Char('t')];
    let mut stdout = Stdout::new();

    let start = handle_command(pressed_key, &keymaps, &mut stdout).unwrap();
    drive(start, stdin, &mut stdout);

    let stdout_str = stdout.buffer.clone();

    println!("OUTPUT: {}", stdout_str);
    assert!(stdout_str.contains("Enter commit message:"));
}

#[test]
fn test_empty_input() {
    let keymaps = vec![Keymap::with_placeholder('t', "Test keymap", "echo {}", "{}")];

    let pressed_key = 't';
    let stdin = vec![KeyEvent::Char('\n')];
    let mut stdout = Stdout::new();

    let start = handle_command(pressed_key, &keymaps, &mut stdout).unwrap();
    let outcome = drive(start, stdin, &mut stdout);
    assert!(matches!(outcome, Some(DispatchOutcome::Invalid(InputError::EmptyString))));

    let stdout_str = stdout.buffer.clone();

    assert!(stdout_str.contains("Input was empty"));
}

/// A shortcut with no placeholder runs its command verbatim, with no editing
/// session and no prompt.
#[test]
fn shortcut_without_placeholder_runs_directly() {
    let keymaps = vec![Keymap::new('s', "Run git status", "git status")];
    let mut stdout = Stdout::new();
    let step = menu_step(KeyEvent::Char('s'), &keymaps, &mut stdout).unwrap();
    match step {
        MenuStep::Command(CommandStart::Run(cmd)) => assert_eq!(cmd, "git status"),
        _ => panic!("expected the literal command"),
    }
    assert!(!stdout.buffer.contains("Enter commit message:"));
}

/// Typing text into a placeholder shortcut resolves the template, and a zero
/// exit status reports success.
#[test]
fn typed_text_resolves_template() {
    let keymaps = vec![Keymap::with_placeholder('e', "Echo", "echo {}", "{}")];
    let mut stdout = Stdout::new();
    let start = handle_command('e', &keymaps, &mut stdout).unwrap();
    let keys = vec![
        KeyEvent::Char('h'),
        KeyEvent::Char('e'),
        KeyEvent::Char('l'),
        KeyEvent::Char('l'),
        KeyEvent::Char('o'),
        KeyEvent::Char('\n'),
    ];
    let outcome = drive(start, keys, &mut stdout);
    match outcome {
        Some(DispatchOutcome::Run(cmd)) => assert_eq!(cmd, "echo hello"),
        _ => panic!("expected a resolved command"),
    }
    let o = outcome_of_status(0);
    assert!(matches!(o, CommandOutcome::Success));
    assert_eq!(outcome_message(&o), "Command succeeded");
    report_outcome(&o, &mut stdout).unwrap();
    assert!(stdout.buffer.contains("Command succeeded"));
}

/// The cancel key mid-edit reports a cancellation line and ends the session
/// without resolving a command.
#[test]
fn cancel_mid_edit_reports_and_runs_nothing() {
    let keymaps = vec![Keymap::with_placeholder('e', "Echo", "echo {}", "{}")];
    let mut stdout = Stdout::new();
    let start = handle_command('e', &keymaps, &mut stdout).unwrap();
    let written_before = stdout.buffer.len();
    let keys = vec![KeyEvent::Char('h'), KeyEvent::Char('i'), KeyEvent::Esc];
    let outcome = drive(start, keys, &mut stdout);
    assert!(matches!(outcome, Some(DispatchOutcome::Cancelled)));
    assert!(stdout.buffer[written_before..].contains("\r\n"));
}

/// The quit key at the menu terminates the launcher and re-shows the cursor.
#[test]
fn quit_key_terminates_and_shows_cursor() {
    let keymaps = vec![Keymap::new('s', "Run git status", "git status")];
    let mut stdout = Stdout::new();
    let step = menu_step(KeyEvent::Char('q'), &keymaps, &mut stdout).unwrap();
    assert!(matches!(step, MenuStep::Terminated));
    assert!(stdout.buffer.contains("\u{1b}[?25h"));
}

/// A key with no matching trigger is ignored; so is a non-character key.
#[test]
fn unmatched_keys_are_ignored() {
    let keymaps = vec![Keymap::new('s', "Run git status", "git status")];
    let mut stdout = Stdout::new();
    let step = menu_step(KeyEvent::Char('z'), &keymaps, &mut stdout).unwrap();
    assert!(matches!(step, MenuStep::Command(CommandStart::NoMatch)));
    let step = menu_step(KeyEvent::Esc, &keymaps, &mut stdout).unwrap();
    assert!(matches!(step, MenuStep::Ignored));
    assert_eq!(stdout.buffer, "");
}

/// Substitution replaces exactly the first occurrence of the placeholder.
#[test]
fn substitution_replaces_first_occurrence() {
    assert_eq!(substitute("echo {}", "{}", "hello"), "echo hello");
    assert_eq!(substitute("a {} b {}", "{}", "X"), "a X b {}");
    assert_eq!(substitute("no placeholder", "{}", "X"), "no placeholder");
    assert_eq!(substitute("abc", "", "X"), "Xabc");
    assert_eq!(substitute("{}", "{}", ""), "");
}

/// The command runner stores the resolved command line.
#[test]
fn cmd_runner_resolves() {
    let runner = CmdRunner::new("git commit -m '{}'", "{}", "first try");
    assert_eq!(runner.command, "git commit -m 'first try'");
}

/// Each command outcome renders its own report line.
#[test]
fn outcome_lines() {
    assert!(matches!(outcome_of_status(2), CommandOutcome::NonZeroExit(2)));
    assert_eq!(
        outcome_message(&CommandOutcome::NonZeroExit(2)),
        "Command exited with a nonzero status"
    );
    assert_eq!(
        outcome_message(&CommandOutcome::SpawnFailure(String::from("no shell"))),
        "Failed to run command: no shell"
    );
}

/// The rejected-input and outcome report lines are framed exactly.
#[test]
fn report_lines_are_exact() {
    assert_eq!(
        render_invalid_input(&InputError::EmptyString),
        "\r\nInvalid input: Input was empty\r\n"
    );
    assert_eq!(
        render_outcome_report(&CommandOutcome::Success),
        "\r\nCommand succeeded\r\n"
    );
    assert_eq!(
        render_outcome_report(&CommandOutcome::SpawnFailure(String::from("no shell"))),
        "\r\nFailed to run command: no shell\r\n"
    );
}

/// Each input error renders its own message.
#[test]
fn error_messages() {
    assert_eq!(InputError::EmptyString.message(), "Input was empty");
    assert_eq!(
        InputError::NotSingleByte('\u{e9}').message(),
        "Input was not a single-byte character"
    );
    assert_eq!(InputError::Io(String::from("gone")).message(), "gone");
}

/// The menu renders every shortcut, in table order, after the banner.
#[test]
fn menu_renders_in_table_order() {
    let keymaps = vec![
        Keymap::new('a', "First", "true"),
        Keymap::new('b', "Second", "false"),
    ];
    let menu = render_menu(&keymaps);
    assert!(menu.contains("Please select a command:"));
    let a = menu.find("a  First\r\n").unwrap();
    let b = menu.find("b  Second\r\n").unwrap();
    assert!(a < b);
    assert!(menu.contains("\u{1b}[2J"));
    assert!(menu.contains("\u{1b}[1;1H"));
    assert!(menu.contains("\u{1b}[?25l"));
}

/// Duplicate triggers resolve to the first entry in table order.
#[test]
fn first_match_wins() {
    let keymaps = vec![
        Keymap::new('x', "First", "echo one"),
        Keymap::new('x', "Second", "echo two"),
    ];
    assert_eq!(find_keymap(&keymaps, 'x'), Some(0));
    let mut stdout = Stdout::new();
    match handle_command('x', &keymaps, &mut stdout).unwrap() {
        CommandStart::Run(cmd) => assert_eq!(cmd, "echo one"),
        _ => panic!("expected the first entry's command"),
    }
}

/// A character the editor rejects ends the session with the not-single-byte
/// error, reported to the terminal.
#[test]
fn non_single_byte_ends_session() {
    let keymaps = vec![Keymap::with_placeholder('e', "Echo", "echo {}", "{}")];
    let mut stdout = Stdout::new();
    let start = handle_command('e', &keymaps, &mut stdout).unwrap();
    let outcome = drive(start, vec![KeyEvent::Char('\u{100}')], &mut stdout);
    assert!(matches!(outcome, Some(DispatchOutcome::Invalid(InputError::NotSingleByte('\u{100}')))));
    assert!(stdout.buffer.contains("Invalid input: Input was not a single-byte character"));
}
