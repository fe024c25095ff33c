//! Local input editing: what each key does to the input line and the log,
//! as a pure step on the shared context. The terminal loop reads keys,
//! applies them here, and carries out the returned outcome.

use vstd::prelude::*;

use crate::models::AppContext;

verus! {

/// One key event, as the terminal reports it.
#[derive(Clone, Copy, Debug, PartialEq, Eq)]
pub enum KeyInput {
    /// Post the current input, if there is any.
    Enter,
    /// A typed character, and whether the Control modifier was held.
    Char { c: char, control: bool },
    /// Drop the last character of the input.
    Backspace,
}

/// What the caller of [`apply_key`] must do next.
#[derive(Clone, Debug, PartialEq)]
pub enum KeyOutcome {
    /// Keep running.
    Continue,
    /// Leave the client.
    Exit,
    /// Post this text as a chat message.
    Post { content: String },
}

/// Relies on String::push: appends one character at the end.
#[verifier::external_body]
fn string_push_char(s: &mut String, c: char)
    ensures
        final(s)@ == old(s)@.push(c),
{
    s.push(c);
}

/// Relies on String::pop: removes and returns the last character, or leaves
/// an empty string alone.
#[verifier::external_body]
fn string_pop_char(s: &mut String) -> (r: Option<char>)
    ensures
        old(s)@.len() == 0 ==> final(s)@ == old(s)@ && r is None,
        old(s)@.len() > 0 ==> final(s)@ == old(s)@.drop_last() && r == Some(old(s)@.last()),
{
    s.pop()
}

/// Applies one key to the shared context. Enter empties the input and asks
/// the caller to post it (an empty input posts nothing); Control-c leaves;
/// Control-l clears the log; Control-space inserts a line break; any other
/// plain character is appended to the input; Backspace drops its last
/// character.
pub fn apply_key(app: &mut AppContext, key: KeyInput) -> (outcome: KeyOutcome)
    ensures
        final(app).users == old(app).users,
        final(app).name == old(app).name,
        final(app).rest_url == old(app).rest_url,
        final(app).gateway_url == old(app).gateway_url,
        final(app).focused == old(app).focused,
        final(app).users_list_enabled == old(app).users_list_enabled,
        match key {
            KeyInput::Enter => {
                &&& final(app).messages == old(app).messages
                &&& if old(app).input@.len() > 0 {
                    &&& final(app).input@ == Seq::<char>::empty()
                    &&& outcome matches KeyOutcome::Post { content } && content@
                        == old(app).input@
                } else {
                    &&& final(app).input == old(app).input
                    &&& outcome == KeyOutcome::Continue
                }
            },
            KeyInput::Char { c, control } => if control {
                if c == 'c' {
                    &&& *final(app) == *old(app)
                    &&& outcome == KeyOutcome::Exit
                } else if c == 'l' {
                    &&& final(app).messages@ == Seq::<(
                        crate::models::PilferMessage,
                        crate::models::StyleHint,
                    )>::empty()
                    &&& final(app).input == old(app).input
                    &&& outcome == KeyOutcome::Continue
                } else if c == ' ' {
                    &&& final(app).input@ == old(app).input@.push('\n')
                    &&& final(app).messages == old(app).messages
                    &&& outcome == KeyOutcome::Continue
                } else {
                    &&& *final(app) == *old(app)
                    &&& outcome == KeyOutcome::Continue
                }
            } else {
                &&& final(app).input@ == old(app).input@.push(c)
                &&& final(app).messages == old(app).messages
                &&& outcome == KeyOutcome::Continue
            },
            KeyInput::Backspace => {
                &&& final(app).messages == old(app).messages
                &&& final(app).input@ == if old(app).input@.len() > 0 {
                    old(app).input@.drop_last()
                } else {
                    old(app).input@
                }
                &&& outcome == KeyOutcome::Continue
            },
        },
{
    match key {
        KeyInput::Enter => {
            if !app.input.as_str().is_empty() {
                let content = app.input.clone();
                app.input = String::new();
                KeyOutcome::Post { content }
            } else {
                KeyOutcome::Continue
            }
        },
        KeyInput::Char { c, control } => {
            if control {
                if c == 'c' {
                    KeyOutcome::Exit
                } else if c == 'l' {
                    app.messages = Vec::new();
                    KeyOutcome::Continue
                } else if c == ' ' {
                    string_push_char(&mut app.input, '\n');
                    KeyOutcome::Continue
                } else {
                    KeyOutcome::Continue
                }
            } else {
                string_push_char(&mut app.input, c);
                KeyOutcome::Continue
            }
        },
        KeyInput::Backspace => {
            string_pop_char(&mut app.input);
            KeyOutcome::Continue
        },
    }
}

/// Records whether the user is focused on the client; a regained focus is
/// the caller's cue to close any displayed notification.
pub fn set_focused(app: &mut AppContext, focused: bool)
    ensures
        *final(app) == (AppContext { focused, ..*old(app) }),
{
    app.focused = focused;
}

} // verus!
