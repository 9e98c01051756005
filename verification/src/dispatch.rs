//! The keymap dispatcher: matches a pressed key against the shortcut table,
//! opens an editing session for shortcuts that need text, and resolves the
//! final command line. The caller runs the blocking loop: it feeds key
//! events into [`menu_step`] and [`session_step`], executes a resolved
//! command through the host shell, and reports its outcome.

use vstd::prelude::*;
use vstd::string::StringExecFns;
use crate::cmd_runner::{is_substituted, outcome_line, outcome_message, CmdRunner, CommandOutcome};
use crate::esc::{clear_all_escape, esc_clear_all, esc_goto, esc_hide, goto_escape, hide_cursor_escape, show_cursor_escape};
use crate::input::{error_message, Input, InputError, KeyEvent, TermError};
use crate::keymap::{find_keymap, first_trigger, lemma_first_trigger_unique, Keymap};
use crate::strutil::is_blank;
use crate::term_writer::{edit_step, CursorPos, EditStep, TermWriter};

verus! {

/// An editing session opened for a shortcut that takes text: the line
/// editor together with the shortcut's command template and placeholder.
pub struct EditSession {
    pub editor: TermWriter,
    pub command: String,
    pub placeholder: String,
}

/// What pressing a shortcut key starts: nothing, a command to run verbatim,
/// or an editing session.
pub enum CommandStart {
    NoMatch,
    Run(String),
    Edit(EditSession),
}

/// How a finished editing session left the dispatcher: a command to run,
/// a cancellation, or a rejected input.
pub enum DispatchOutcome {
    Run(String),
    Cancelled,
    Invalid(InputError),
}

/// What one key event did to an editing session.
pub enum SessionStep {
    Editing(EditSession),
    Done(DispatchOutcome),
}

/// A menu key either terminates the launcher, starts a command, or is
/// ignored.
pub enum MenuStep {
    Terminated,
    Command(CommandStart),
    Ignored,
}

/// Relates a matched keymap to what the dispatcher starts for it: without a
/// placeholder the command runs verbatim and no session is opened; with one
/// an editing session over an empty buffer is opened for its template.
pub open spec fn start_for(km: Keymap, cs: CommandStart) -> bool {
    match km.placeholder {
        None => cs matches CommandStart::Run(s) && s@ == km.command@,
        Some(p) => cs matches CommandStart::Edit(e) && e.command@ == km.command@ && e.placeholder@
            == p@ && e.editor.input@ == Seq::<char>::empty() && e.editor.wf(),
    }
}

/// Relates a pressed key to what the dispatcher starts: no shortcut with
/// that trigger starts nothing; otherwise the first matching shortcut, in
/// table order, decides.
pub open spec fn command_start_ok(kms: Seq<Keymap>, key: char, cs: CommandStart) -> bool {
    if forall|j: int| 0 <= j < kms.len() ==> (#[trigger] kms[j]).key != key {
        cs is NoMatch
    } else {
        exists|i: int| #[trigger] first_trigger(kms, key, i) && start_for(kms[i], cs)
    }
}

/// Looks up a pressed key in the shortcut table. A shortcut without a
/// placeholder resolves immediately to its command, with no editing
/// session; one with a placeholder opens an editing session after showing
/// the cursor and the input prompt. Fails only when a prompt write fails.
pub fn handle_command<C: CursorPos>(key: char, keymaps: &Vec<Keymap>, stdout: &mut C) -> (r:
    Result<CommandStart, TermError>)
    ensures
        r matches Ok(cs) ==> command_start_ok(keymaps@, key, cs),
        (forall|j: int| 0 <= j < keymaps@.len() ==> (#[trigger] keymaps@[j]).key != key) ==> r
            is Ok,
        (exists|i: int|
            #[trigger] first_trigger(keymaps@, key, i) && keymaps@[i].placeholder is None) ==> r
            is Ok,
{
    match find_keymap(keymaps, key) {
        None => Ok(CommandStart::NoMatch),
        Some(i) => {
            let km = &keymaps[i];
            match &km.placeholder {
                None => {
                    let cs = CommandStart::Run(km.command.clone());
                    proof {
                        assert(first_trigger(keymaps@, key, i as int));
                        assert(start_for(keymaps@[i as int], cs));
                    }
                    Ok(cs)
                },
                Some(p) => {
                    proof {
                        if exists|i2: int|
                            #[trigger] first_trigger(keymaps@, key, i2)
                                && keymaps@[i2].placeholder is None {
                            let i2 = choose|i2: int|
                                #[trigger] first_trigger(keymaps@, key, i2)
                                    && keymaps@[i2].placeholder is None;
                            lemma_first_trigger_unique(keymaps@, key, i as int, i2);
                        }
                    }
                    let sc = show_cursor_escape();
                    match stdout.write_term(sc.as_str()) {
                        Err(e) => {
                            return Err(e);
                        },
                        Ok(()) => {},
                    }
                    match stdout.write_term("Enter commit message:") {
                        Err(e) => {
                            return Err(e);
                        },
                        Ok(()) => {},
                    }
                    let cs = CommandStart::Edit(
                        EditSession {
                            editor: TermWriter::new(String::new()),
                            command: km.command.clone(),
                            placeholder: p.clone(),
                        },
                    );
                    proof {
                        assert(first_trigger(keymaps@, key, i as int));
                        assert(start_for(keymaps@[i as int], cs));
                    }
                    Ok(cs)
                },
            }
        },
    }
}

/// Applies one key event to an open editing session. Escape cancels and the
/// session reports a cancellation line; enter on a blank buffer rejects the
/// input; enter on text resolves the shortcut's template against it; any
/// rejected input or terminal error is reported and ends the session.
pub fn session_step<C: CursorPos>(s: EditSession, key: KeyEvent, stdout: &mut C) -> (r: SessionStep)
    requires
        s.editor.wf(),
    ensures
        (r matches SessionStep::Editing(s2) ==> s2.editor.wf() && s2.command == s.command
            && s2.placeholder == s.placeholder),
        key == KeyEvent::Esc ==> r == SessionStep::Done(DispatchOutcome::Cancelled),
        (key == KeyEvent::Char('\n') && is_blank(s.editor.input@)) ==> r == SessionStep::Done(
            DispatchOutcome::Invalid(InputError::EmptyString),
        ),
        (key == KeyEvent::Char('\n') && !is_blank(s.editor.input@)) ==> (r
            matches SessionStep::Done(o) && o matches DispatchOutcome::Run(cmd) && is_substituted(
            s.command@,
            s.placeholder@,
            s.editor.input@,
            cmd@,
        )),
        key matches KeyEvent::Char(c) ==> ((c != '\n' && c as u32 >= 0x80) ==> r
            == SessionStep::Done(DispatchOutcome::Invalid(InputError::NotSingleByte(c)))),
        key matches KeyEvent::Char(c) ==> ((c != '\n' && (c as u32) < 0x80) ==> (r
            matches SessionStep::Editing(s2) ==> s2.editor.input@ == s.editor.input@.insert(
            s.editor.cursor_pos.x - 1,
            c,
        ))),
        key matches KeyEvent::Char(c) ==> ((c != '\n') ==> (r matches SessionStep::Done(o) ==> (o
            matches DispatchOutcome::Invalid(e) && (e == InputError::NotSingleByte(c) || e
            matches InputError::Io(_))))),
        key == KeyEvent::Backspace ==> (r matches SessionStep::Editing(s2) ==> ((
        s.editor.cursor_pos.x == 1 ==> s2.editor == s.editor) && (s.editor.cursor_pos.x > 1
            ==> s2.editor.input@ == s.editor.input@.remove(s.editor.cursor_pos.x - 2)))),
        (key == KeyEvent::Left || key == KeyEvent::Right) ==> (r matches SessionStep::Editing(s2)
            ==> s2.editor.input@ == s.editor.input@),
        (key == KeyEvent::Left || key == KeyEvent::Right || key == KeyEvent::Backspace) ==> (r
            matches SessionStep::Done(o) ==> (o matches DispatchOutcome::Invalid(e) && e
            matches InputError::Io(_))),
        key == KeyEvent::Unknown ==> (r matches SessionStep::Editing(s2) && s2.editor == s.editor),
{
    let EditSession { editor, command, placeholder } = s;
    match edit_step(editor, key, stdout) {
        EditStep::Editing(tw) => SessionStep::Editing(
            EditSession { editor: tw, command, placeholder },
        ),
        EditStep::Done(res) => {
            match res {
                Ok(Input::Exit) => {
                    let _ = stdout.write_term("\r\n");
                    SessionStep::Done(DispatchOutcome::Cancelled)
                },
                Ok(Input::Text(t)) => {
                    let runner = CmdRunner::new(command.as_str(), placeholder.as_str(), t.as_str());
                    SessionStep::Done(DispatchOutcome::Run(runner.command))
                },
                Err(e) => {
                    let line = render_invalid_input(&e);
                    let _ = stdout.write_term(line.as_str());
                    let _ = stdout.write_term("\r\n");
                    SessionStep::Done(DispatchOutcome::Invalid(e))
                },
            }
        },
    }
}

/// Restores the cursor before the launcher exits.
pub fn handle_quit<C: CursorPos>(stdout: &mut C) -> (r: Result<(), TermError>) {
    let e = show_cursor_escape();
    stdout.write_term(e.as_str())
}

/// Applies one key event at the menu: the reserved quit key — and only it —
/// terminates the launcher, re-showing the cursor first; any other
/// character is looked up as a shortcut; other keys are ignored.
pub fn menu_step<C: CursorPos>(key: KeyEvent, keymaps: &Vec<Keymap>, stdout: &mut C) -> (r: Result<
    MenuStep,
    TermError,
>)
    ensures
        r matches Ok(m) ==> ((m is Terminated) <==> key == KeyEvent::Char('q')),
        r matches Ok(m) ==> (m matches MenuStep::Command(cs) ==> (exists|c: char|
            key == KeyEvent::Char(c) && c != 'q' && command_start_ok(keymaps@, c, cs))),
        r matches Ok(m) ==> ((m is Ignored) <==> !(key matches KeyEvent::Char(_))),
        !(key matches KeyEvent::Char(_)) ==> r is Ok,
        key matches KeyEvent::Char(c) ==> ((c != 'q' && (forall|j: int|
            0 <= j < keymaps@.len() ==> (#[trigger] keymaps@[j]).key != c)) ==> r is Ok),
        key matches KeyEvent::Char(c) ==> ((c != 'q' && (exists|i: int|
            #[trigger] first_trigger(keymaps@, c, i) && keymaps@[i].placeholder is None)) ==> r
            is Ok),
{
    match key {
        KeyEvent::Char(c) => {
            if c == 'q' {
                match handle_quit(stdout) {
                    Err(e) => Err(e),
                    Ok(()) => Ok(MenuStep::Terminated),
                }
            } else {
                match handle_command(c, keymaps, stdout) {
                    Err(e) => Err(e),
                    Ok(cs) => Ok(MenuStep::Command(cs)),
                }
            }
        },
        _ => Ok(MenuStep::Ignored),
    }
}

/// The menu line for one shortcut: its trigger key, two spaces, and its
/// description.
pub open spec fn menu_line(km: Keymap) -> Seq<char> {
    seq![km.key] + "  "@ + km.description@ + "\r\n"@
}

/// The menu lines of the whole shortcut table, in table order.
pub open spec fn menu_lines(kms: Seq<Keymap>) -> Seq<char>
    decreases kms.len(),
{
    if kms.len() == 0 {
        Seq::empty()
    } else {
        menu_line(kms[0]) + menu_lines(kms.drop_first())
    }
}

/// The menu's header: clear the screen, move home, print the banner, hide
/// the cursor.
pub open spec fn menu_header() -> Seq<char> {
    esc_clear_all() + esc_goto(1, 1) + "Please select a command:"@ + esc_hide() + "\r\n"@
}

/// The full rendered menu.
pub open spec fn menu_text(kms: Seq<Keymap>) -> Seq<char> {
    menu_header() + menu_lines(kms)
}

proof fn lemma_menu_lines_snoc(kms: Seq<Keymap>, km: Keymap)
    ensures
        menu_lines(kms.push(km)) == menu_lines(kms) + menu_line(km),
    decreases kms.len(),
{
    if kms.len() == 0 {
        assert(kms.push(km)[0] == km);
        assert(kms.push(km).drop_first() =~= Seq::<Keymap>::empty());
        assert(menu_lines(Seq::<Keymap>::empty()) == Seq::<char>::empty());
        assert(menu_lines(kms.push(km)) == menu_line(km) + Seq::<char>::empty());
        assert(menu_lines(kms.push(km)) =~= menu_lines(kms) + menu_line(km));
    } else {
        lemma_menu_lines_snoc(kms.drop_first(), km);
        assert(kms.push(km)[0] == kms[0]);
        assert(kms.push(km).drop_first() =~= kms.drop_first().push(km));
        assert(menu_lines(kms.push(km)) == menu_line(kms[0]) + menu_lines(
            kms.drop_first().push(km),
        ));
        assert(menu_lines(kms.drop_first().push(km)) == menu_lines(kms.drop_first()) + menu_line(
            km,
        ));
        assert(menu_line(kms[0]) + (menu_lines(kms.drop_first()) + menu_line(km)) =~= (menu_line(
            kms[0],
        ) + menu_lines(kms.drop_first())) + menu_line(km));
        assert(menu_lines(kms) == menu_line(kms[0]) + menu_lines(kms.drop_first()));
    }
}

/// Renders the shortcut menu: the banner line, one line per shortcut.
pub fn render_menu(keymaps: &Vec<Keymap>) -> (r: String)
    ensures
        r@ == menu_text(keymaps@),
{
    let mut r = clear_all_escape();
    let g = goto_escape(1, 1);
    r.append(g.as_str());
    r.append("Please select a command:");
    let h = hide_cursor_escape();
    r.append(h.as_str());
    r.append("\r\n");
    proof {
        assert(keymaps@.subrange(0, 0) =~= Seq::<Keymap>::empty());
        assert(r@ =~= menu_header() + menu_lines(keymaps@.subrange(0, 0)));
    }
    let mut i: usize = 0;
    while i < keymaps.len()
        invariant
            0 <= i <= keymaps@.len(),
            r@ == menu_header() + menu_lines(keymaps@.subrange(0, i as int)),
        decreases keymaps@.len() - i,
    {
        let ghost prefix = keymaps@.subrange(0, i as int);
        let km = &keymaps[i];
        r.push(km.key);
        r.append("  ");
        r.append(km.description.as_str());
        r.append("\r\n");
        proof {
            lemma_menu_lines_snoc(prefix, keymaps@[i as int]);
            assert(keymaps@.subrange(0, i + 1) =~= prefix.push(keymaps@[i as int]));
            assert(r@ =~= menu_header() + menu_lines(keymaps@.subrange(0, i + 1)));
        }
        i = i + 1;
    }
    proof {
        assert(keymaps@.subrange(0, keymaps@.len() as int) =~= keymaps@);
    }
    r
}

/// Writes the rendered shortcut menu to the terminal.
pub fn show_keymap_menu<C: CursorPos>(keymaps: &Vec<Keymap>, stdout: &mut C) -> (r: Result<
    (),
    TermError,
>) {
    let m = render_menu(keymaps);
    stdout.write_term(m.as_str())
}

/// The report line for a rejected input: a blank line, the invalid-input
/// notice with the error's message, and a line terminator.
pub open spec fn invalid_input_line(e: InputError) -> Seq<char> {
    "\r\nInvalid input: "@ + error_message(e) + "\r\n"@
}

/// Renders the report line for a rejected input.
pub fn render_invalid_input(e: &InputError) -> (r: String)
    ensures
        r@ == invalid_input_line(*e),
{
    let mut line = String::from_str("\r\nInvalid input: ");
    let msg = e.message();
    line.append(msg.as_str());
    line.append("\r\n");
    line
}

/// The report line for a command outcome, framed by line terminators.
pub open spec fn outcome_report_line(o: CommandOutcome) -> Seq<char> {
    "\r\n"@ + outcome_line(o) + "\r\n"@
}

/// Renders the report line for a command outcome.
pub fn render_outcome_report(o: &CommandOutcome) -> (r: String)
    ensures
        r@ == outcome_report_line(*o),
{
    let mut line = String::from_str("\r\n");
    let msg = outcome_message(o);
    line.append(msg.as_str());
    line.append("\r\n");
    line
}

/// Writes the report line for a command's outcome to the terminal.
pub fn report_outcome<C: CursorPos>(o: &CommandOutcome, stdout: &mut C) -> (r: Result<
    (),
    TermError,
>) {
    let line = render_outcome_report(o);
    stdout.write_term(line.as_str())
}

} // verus!
