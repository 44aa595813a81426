//! Key presses and what they do to the state.
//!
//! The program around this library draws the screen, waits for one event,
//! hands it to [`Task::handle_event`], and stops when that returns
//! [`Flow::Quit`].

use vstd::prelude::*;
use crate::state::{Mode, Task, TaskView, texts};

verus! {

/// A key of the keyboard, as far as the editor tells keys apart.
#[derive(Clone, Copy, Debug, PartialEq, Eq, Structural)]
pub enum Key {
    /// A key that stands for a character.
    Char(char),
    Enter,
    Esc,
    Backspace,
    /// Any other key.
    Other,
}

/// What the terminal reports.
#[derive(Clone, Copy, Debug, PartialEq, Eq, Structural)]
pub enum Event {
    /// A key was pressed.
    Key(Key),
    /// Anything else: the mouse, a change of size, the focus.
    Other,
}

/// Whether the program goes on after an event.
#[derive(Clone, Copy, Debug, PartialEq, Eq, Structural)]
pub enum Flow {
    Continue,
    Quit,
}

impl TaskView {
    /// Whether `key` ends the program. `q` does so in both modes: also while
    /// a task is being typed, so the text of a task cannot hold a `q`, and
    /// what was typed and not yet entered is lost.
    pub open spec fn quits(self, key: Key) -> bool {
        key == Key::Char('q')
    }

    /// The state after `key` was pressed.
    ///
    /// Leaving `Editing` with `Esc` keeps the text typed so far: it is
    /// there again when `a` is pressed the next time.
    pub open spec fn press(self, key: Key) -> TaskView {
        match self.mode {
            Mode::Normal => match key {
                Key::Char('a') => TaskView { mode: Mode::Editing, ..self },
                _ => self,
            },
            Mode::Editing => match key {
                Key::Char('q') => self,
                Key::Char(c) => TaskView { input: self.input.push(c), ..self },
                Key::Enter => TaskView {
                    tasks: self.tasks.push(self.input),
                    input: Seq::empty(),
                    ..self
                },
                Key::Esc => TaskView { mode: Mode::Normal, ..self },
                Key::Backspace => if self.input.len() > 0 {
                    TaskView { input: self.input.drop_last(), ..self }
                } else {
                    self
                },
                Key::Other => self,
            },
        }
    }

    /// Whether `event` ends the program.
    pub open spec fn stops(self, event: Event) -> bool {
        match event {
            Event::Key(key) => self.quits(key),
            Event::Other => false,
        }
    }

    /// The state after `event`: only a key press changes anything.
    pub open spec fn on_event(self, event: Event) -> TaskView {
        match event {
            Event::Key(key) => self.press(key),
            Event::Other => self,
        }
    }

    /// Whether the program ends while it takes `events` in order.
    pub open spec fn halts(self, events: Seq<Event>) -> bool
        decreases events.len(),
    {
        if events.len() == 0 {
            false
        } else if self.stops(events[0]) {
            true
        } else {
            self.on_event(events[0]).halts(events.drop_first())
        }
    }

    /// The state after the program took `events` in order; it takes none
    /// after the one that ends it.
    pub open spec fn after(self, events: Seq<Event>) -> TaskView
        decreases events.len(),
    {
        if events.len() == 0 || self.stops(events[0]) {
            self
        } else {
            self.on_event(events[0]).after(events.drop_first())
        }
    }
}

impl Task {
    /// Applies one key press.
    pub fn handle_key(&mut self, key: Key) -> (flow: Flow)
        ensures
            final(self)@ == old(self)@.press(key),
            flow == (if old(self)@.quits(key) { Flow::Quit } else { Flow::Continue }),
    {
        match self.mode {
            Mode::Normal => match key {
                Key::Char('a') => {
                    self.mode = Mode::Editing;
                },
                Key::Char('q') => {
                    return Flow::Quit;
                },
                _ => {},
            },
            Mode::Editing => match key {
                Key::Char('q') => {
                    return Flow::Quit;
                },
                Key::Char(c) => {
                    self.input.push(c);
                },
                Key::Enter => {
                    let mut text = String::new();
                    core::mem::swap(&mut self.input, &mut text);
                    self.tasks.push(text);
                    assert(texts(self.tasks@) =~= texts(old(self).tasks@).push(old(self).input@));
                },
                Key::Esc => {
                    self.mode = Mode::Normal;
                },
                Key::Backspace => {
                    self.input.pop();
                },
                Key::Other => {},
            },
        }
        Flow::Continue
    }

    /// Applies one event of the terminal.
    pub fn handle_event(&mut self, event: Event) -> (flow: Flow)
        ensures
            final(self)@ == old(self)@.on_event(event),
            flow == (if old(self)@.stops(event) { Flow::Quit } else { Flow::Continue }),
    {
        match event {
            Event::Key(key) => self.handle_key(key),
            Event::Other => Flow::Continue,
        }
    }

    /// Applies `events` in order, up to the first that ends the program.
    pub fn replay(&mut self, events: &[Event]) -> (flow: Flow)
        ensures
            final(self)@ == old(self)@.after(events@),
            flow == (if old(self)@.halts(events@) { Flow::Quit } else { Flow::Continue }),
    {
        let mut i: usize = 0;
        assert(events@.skip(0) =~= events@);
        while i < events.len()
            invariant
                i <= events.len(),
                self@.after(events@.skip(i as int)) == old(self)@.after(events@),
                self@.halts(events@.skip(i as int)) == old(self)@.halts(events@),
            decreases events.len() - i,
        {
            assert(events@.skip(i as int)[0] == events@[i as int]);
            assert(events@.skip(i as int).drop_first() =~= events@.skip(i + 1));
            match self.handle_event(events[i]) {
                Flow::Quit => {
                    return Flow::Quit;
                },
                Flow::Continue => {},
            }
            i += 1;
        }
        Flow::Continue
    }
}

} // verus!
