//! The command line: its language and the line-editing state machine that
//! turns keystrokes into prompt events.

use vstd::prelude::*;
use vstd::utf8::encode_utf8;

use crate::text::push_char;

pub mod parser;

pub use self::parser::{parse_command, Command, CommandParseError, CommandParseError as ParseError};
use self::parser::spec_command;

verus! {

/// A decoded key event, as the terminal delivers it.
#[derive(Clone, Copy, Debug, PartialEq, Eq, Structural)]
pub enum Key {
    /// A printable character; Enter arrives as `'\n'`.
    Char(char),
    /// A character typed with Control held.
    Ctrl(char),
    Backspace,
    Home,
    End,
    PageUp,
    PageDown,
    /// Any key the viewer does not use.
    Other,
}

/// What one keystroke did to the prompt.
#[derive(Clone, Debug, PartialEq)]
pub enum CommandMachineEvent {
    /// The line was cancelled and cleared.
    Reset,
    /// The line is still being edited; carries its current text.
    Update(String),
    /// The line was submitted and parsed to a command.
    Execute(Command),
    /// The line was submitted and did not parse; carries the submitted text.
    UnknownCommand(String),
}

/// The line being edited, with the cursor position counted in characters.
pub struct CommandPrompt {
    pub text: String,
    pub index: usize,
}

/// The edit buffer and cursor after `key`.
pub open spec fn step_state(text: Seq<char>, index: nat, key: Key) -> (Seq<char>, nat) {
    if key == Key::Char('\n') || key == Key::Ctrl('c') {
        (Seq::empty(), 0)
    } else {
        match key {
            Key::Char(c) => (text.insert(index as int, c), index + 1),
            Key::Backspace => if index > 0 {
                (text.remove(index - 1), (index - 1) as nat)
            } else {
                (text, index)
            },
            _ => (text, index),
        }
    }
}

/// The event emitted by `key`, given the text before and after it.
pub open spec fn step_event(
    ev: CommandMachineEvent,
    before: Seq<char>,
    after: Seq<char>,
    key: Key,
) -> bool {
    if key == Key::Char('\n') {
        match spec_command(encode_utf8(before)) {
            Some(c) => ev == CommandMachineEvent::Execute(c),
            None => ev is UnknownCommand && ev->UnknownCommand_0@ == before,
        }
    } else if key == Key::Ctrl('c') {
        ev == CommandMachineEvent::Reset
    } else {
        ev is Update && ev->Update_0@ == after
    }
}

impl CommandPrompt {
    /// The cursor lies within the text.
    pub open spec fn wf(&self) -> bool {
        self.index <= self.text@.len()
    }

    pub fn new() -> (p: Self)
        ensures
            p.text@ == Seq::<char>::empty(),
            p.index == 0,
    {
        Self { index: 0, text: String::new() }
    }

    /// Applies one keystroke: a character is inserted at the cursor, Backspace
    /// removes the character before it, Enter submits the line to the parser
    /// and Ctrl-C cancels it; both of these clear the line.
    pub fn step(&mut self, key: Key) -> (ev: CommandMachineEvent)
        requires
            old(self).wf(),
            old(self).text@.len() < usize::MAX,
        ensures
            final(self).wf(),
            (final(self).text@, final(self).index as nat) == step_state(
                old(self).text@,
                old(self).index as nat,
                key,
            ),
            step_event(ev, old(self).text@, final(self).text@, key),
    {
        match key {
            Key::Char('\n') => {
                let result = match parse_command(self.text.as_str()) {
                    Ok(command) => CommandMachineEvent::Execute(command),
                    Err(..) => CommandMachineEvent::UnknownCommand(self.text.clone()),
                };
                self.text = String::new();
                self.index = 0;
                result
            },
            Key::Ctrl('c') => {
                self.text = String::new();
                self.index = 0;
                CommandMachineEvent::Reset
            },
            Key::Char(x) => {
                let len = self.text.as_str().unicode_len();
                let mut edited = String::from_str(self.text.as_str().substring_char(0, self.index));
                push_char(&mut edited, x);
                edited.append(self.text.as_str().substring_char(self.index, len));
                assert(edited@ =~= old(self).text@.insert(old(self).index as int, x));
                self.text = edited;
                self.index = self.index + 1;
                CommandMachineEvent::Update(self.text.clone())
            },
            Key::Backspace => {
                if self.index > 0 {
                    let len = self.text.as_str().unicode_len();
                    let mut edited = String::from_str(
                        self.text.as_str().substring_char(0, self.index - 1),
                    );
                    edited.append(self.text.as_str().substring_char(self.index, len));
                    assert(edited@ =~= old(self).text@.remove(old(self).index - 1));
                    self.text = edited;
                    self.index = self.index - 1;
                }
                CommandMachineEvent::Update(self.text.clone())
            },
            _ => CommandMachineEvent::Update(self.text.clone()),
        }
    }
}

} // verus!
