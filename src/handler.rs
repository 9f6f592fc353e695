//! The decisions of the event loop: what each key does to the viewport and
//! to the prompt, in either mode.

use vstd::prelude::*;
use vstd::utf8::encode_utf8;

use crate::command_prompt::parser::spec_command;
use crate::command_prompt::{step_state, Command, CommandMachineEvent, CommandPrompt, Key};
use crate::screen::{Screen, State};

verus! {

/// Whether the event loop goes on.
#[derive(Clone, Copy, Debug, PartialEq, Eq, Structural)]
pub enum HandlerStatus {
    Continue,
    Quit,
}

/// The viewport after a key pressed while navigating.
pub open spec fn navigation(screen: Screen, key: Key) -> Screen {
    if key == Key::Char('h') {
        screen.scrolled_left()
    } else if key == Key::Char('l') {
        screen.scrolled_right()
    } else if key == Key::Char('j') {
        screen.moved_down()
    } else if key == Key::Char('k') {
        screen.moved_up()
    } else if key == Key::Char(':') {
        screen.prompting()
    } else if key == Key::Ctrl('d') || key == Key::PageDown {
        screen.paged_down()
    } else if key == Key::Ctrl('u') || key == Key::PageUp {
        screen.paged_up()
    } else if key == Key::Home {
        screen.navigated(0)
    } else if key == Key::End {
        screen.at_end()
    } else {
        screen
    }
}

/// Whether a width can be applied: rows need a byte, and the top-left byte's
/// index must fit a `usize`.
pub open spec fn width_accepted(screen: Screen, width: usize) -> bool {
    width > 0 && screen.anchor() <= usize::MAX
}

/// The viewport after a command from the prompt. A width that cannot be
/// applied is refused like an unknown command.
pub open spec fn command_applied(screen: Screen, c: Command) -> Screen {
    match c {
        Command::SetWidth(n) => if width_accepted(screen, n) {
            screen.width_set(n)
        } else {
            screen.prompt_reset()
        },
        Command::SetOffset(n) => Screen { offset: n, ..screen.commanded() },
        Command::ScrollX(n) => Screen { scroll_x: n, ..screen.commanded() },
        Command::ScrollY(n) => Screen { scroll_y: n, ..screen.commanded() },
    }
}

/// The viewport after a key typed into the prompt whose text was `text`.
pub open spec fn prompt_input(screen: Screen, text: Seq<char>, key: Key) -> Screen {
    if key == Key::Char('\n') {
        match spec_command(encode_utf8(text)) {
            Some(c) => command_applied(screen, c),
            None => screen.prompt_reset(),
        }
    } else if key == Key::Ctrl('c') {
        screen.prompt_reset()
    } else {
        screen.prompt_updated()
    }
}

/// The viewer's state between two keys: the viewport and the command line.
pub struct EventHandler<'a> {
    pub prompt: CommandPrompt,
    pub screen: Screen<'a>,
}

impl<'a> EventHandler<'a> {
    pub open spec fn wf(&self) -> bool {
        self.screen.wf() && self.prompt.wf()
    }

    pub fn new(screen: Screen<'a>) -> (h: Self)
        ensures
            h.screen == screen,
            h.prompt.text@ == Seq::<char>::empty(),
            h.prompt.index == 0,
    {
        let prompt = CommandPrompt::new();
        Self { prompt, screen }
    }

    /// Handles one key. While navigating, `q` quits and the other keys move
    /// the view or open the prompt; while editing, the key goes to the prompt
    /// and what it emits is applied to the view.
    pub fn call(&mut self, key: Key) -> (status: HandlerStatus)
        requires
            old(self).wf(),
            old(self).prompt.text@.len() < usize::MAX,
        ensures
            final(self).wf(),
            old(self).screen.state == State::Wait ==> {
                &&& final(self).prompt == old(self).prompt
                &&& if key == Key::Char('q') {
                    status == HandlerStatus::Quit && final(self).screen == old(self).screen
                } else {
                    status == HandlerStatus::Continue && final(self).screen == navigation(
                        old(self).screen,
                        key,
                    )
                }
            },
            old(self).screen.state == State::Prompt ==> {
                &&& status == HandlerStatus::Continue
                &&& (final(self).prompt.text@, final(self).prompt.index as nat) == step_state(
                    old(self).prompt.text@,
                    old(self).prompt.index as nat,
                    key,
                )
                &&& final(self).screen == prompt_input(old(self).screen, old(self).prompt.text@, key)
            },
    {
        match self.screen.state {
            State::Wait => {
                match key {
                    Key::Char('q') => return HandlerStatus::Quit,
                    Key::Char('h') => self.screen.scroll_left(),
                    Key::Char('l') => self.screen.scroll_right(),
                    Key::Char('j') => self.screen.down(),
                    Key::Char('k') => self.screen.up(),
                    Key::Char(':') => self.screen.prompt(),
                    Key::Ctrl('d') | Key::PageDown => self.screen.page_down(),
                    Key::Ctrl('u') | Key::PageUp => self.screen.page_up(),
                    Key::Home => self.screen.start(),
                    Key::End => self.screen.end(),
                    _ => {},
                }
            },
            State::Prompt => {
                let event = self.prompt.step(key);
                match event {
                    CommandMachineEvent::Reset | CommandMachineEvent::UnknownCommand(..) => {
                        self.screen.reset_prompt()
                    },
                    CommandMachineEvent::Update(..) => self.screen.update_prompt(),
                    CommandMachineEvent::Execute(Command::SetWidth(n)) => {
                        if n > 0 && self.width_fits(n) {
                            self.screen.set_width(n)
                        } else {
                            self.screen.reset_prompt()
                        }
                    },
                    CommandMachineEvent::Execute(Command::SetOffset(n)) => self.screen.set_offset(n),
                    CommandMachineEvent::Execute(Command::ScrollX(n)) => self.screen.set_scroll_x(n),
                    CommandMachineEvent::Execute(Command::ScrollY(n)) => self.screen.set_scroll_y(n),
                }
            },
        }
        HandlerStatus::Continue
    }

    /// Whether the index of the top-left byte fits a `usize`.
    fn width_fits(&self, width: usize) -> (r: bool)
        ensures
            r == (self.screen.anchor() <= usize::MAX),
    {
        match self.screen.scroll_y.checked_mul(self.screen.bytes_per_row) {
            Some(rows) => self.screen.offset.checked_add(rows).is_some(),
            None => false,
        }
    }
}

} // verus!
