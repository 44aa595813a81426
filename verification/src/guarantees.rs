//! What holds of the editor whatever is typed.

use vstd::prelude::*;
use crate::keys::{Event, Key};
use crate::layout::Area;
use crate::screen::{compose, screen_of, Screen};
use crate::state::{Mode, Task, TaskView};

verus! {

/// The event of pressing the key of the character `c`.
pub open spec fn key_press(c: char) -> Event {
    Event::Key(Key::Char(c))
}

/// The events of typing `chars`, one key press for each character.
pub open spec fn key_presses(chars: Seq<char>) -> Seq<Event> {
    Seq::new(chars.len(), |i: int| key_press(chars[i]))
}

/// While a task is being typed, the text grows by the characters typed, in
/// the order in which they were typed, and nothing else changes. `q` is left
/// out: it ends the program.
pub proof fn lemma_typing_appends(s: TaskView, chars: Seq<char>)
    requires
        s.mode == Mode::Editing,
        !chars.contains('q'),
    ensures
        !s.halts(key_presses(chars)),
        s.after(key_presses(chars)) == (TaskView { input: s.input + chars, ..s }),
    decreases chars.len(),
{
    if chars.len() == 0 {
        assert(s.input + chars =~= s.input);
    } else {
        let first = chars[0];
        let rest = chars.drop_first();
        assert(first != 'q') by {
            assert(chars.contains(first));
        }
        assert(key_presses(chars)[0] == key_press(first));
        assert forall|c: char| rest.contains(c) implies chars.contains(c) by {
            let i = choose|i: int| 0 <= i < rest.len() && rest[i] == c;
            assert(chars[i + 1] == c);
        }
        let next = s.on_event(key_presses(chars)[0]);
        assert(key_presses(chars).drop_first() =~= key_presses(rest));
        lemma_typing_appends(next, rest);
        assert(s.input.push(first) + rest =~= s.input + chars);
    }
}

/// Backspace with no text typed changes nothing.
pub proof fn lemma_backspace_on_empty(s: TaskView)
    requires
        s.input.len() == 0,
    ensures
        s.press(Key::Backspace) == s,
        !s.quits(Key::Backspace),
{
}

/// Enter, while a task is being typed, appends the text as it stands to the
/// tasks, as one new entry and also if it is empty, and clears the text.
pub proof fn lemma_enter_commits(s: TaskView)
    requires
        s.mode == Mode::Editing,
    ensures
        s.press(Key::Enter).tasks == s.tasks.push(s.input),
        s.press(Key::Enter).tasks.len() == s.tasks.len() + 1,
        s.press(Key::Enter).input == Seq::<char>::empty(),
        s.press(Key::Enter).mode == Mode::Editing,
        !s.quits(Key::Enter),
{
}

/// A key press keeps the tasks that are there, as they are and where they
/// are. Enter while a task is being typed adds one entry at the end; no
/// other key press adds any.
pub proof fn lemma_key_keeps_tasks(s: TaskView, key: Key)
    ensures
        s.tasks.is_prefix_of(s.press(key).tasks),
        s.mode == Mode::Editing && key == Key::Enter ==> s.press(key).tasks.len() == s.tasks.len()
            + 1,
        !(s.mode == Mode::Editing && key == Key::Enter) ==> s.press(key).tasks == s.tasks,
{
}

/// Over a run of the program the tasks only grow: those that were there at
/// the start are a prefix of those at the end.
pub proof fn lemma_tasks_only_grow(s: TaskView, events: Seq<Event>)
    ensures
        s.tasks.is_prefix_of(s.after(events).tasks),
        s.tasks.len() <= s.after(events).tasks.len() <= s.tasks.len() + events.len(),
    decreases events.len(),
{
    if events.len() == 0 || s.stops(events[0]) {
    } else {
        let next = s.on_event(events[0]);
        match events[0] {
            Event::Key(key) => {
                lemma_key_keeps_tasks(s, key);
            },
            Event::Other => {},
        }
        lemma_tasks_only_grow(next, events.drop_first());
    }
}

/// Starting to type a task and leaving with Esc at once changes nothing:
/// the tasks, the text and the mode are what they were.
pub proof fn lemma_edit_then_escape(s: TaskView)
    requires
        s.mode == Mode::Normal,
    ensures
        s.press(Key::Char('a')).mode == Mode::Editing,
        s.press(Key::Char('a')).press(Key::Esc) == s,
        s.after(seq![Event::Key(Key::Char('a')), Event::Key(Key::Esc)]) == s,
{
    let events = seq![Event::Key(Key::Char('a')), Event::Key(Key::Esc)];
    let editing = s.press(Key::Char('a'));
    assert(events.drop_first() =~= seq![Event::Key(Key::Esc)]);
    assert(events.drop_first().drop_first() =~= Seq::<Event>::empty());
    assert(editing.press(Key::Esc).after(Seq::<Event>::empty()) == s);
    assert(editing.after(seq![Event::Key(Key::Esc)]) == s);
}

/// Drawing again draws the same: whatever `compose` returns for two states
/// that hold the same, on a terminal of the same size and with the same
/// rows, is alike in every part.
pub proof fn lemma_compose_again(
    a: &Task,
    b: &Task,
    size: Area,
    chunks: &Vec<Area>,
    input_chunks: &Vec<Area>,
    first: Screen,
    second: Screen,
)
    requires
        a@ == b@,
        chunks@.len() >= 2,
        input_chunks@.len() >= 2,
        call_ensures(compose, (a, size, chunks, input_chunks), first),
        call_ensures(compose, (b, size, chunks, input_chunks), second),
    ensures
        first@ == second@,
        first@ == screen_of(a@, size, chunks@[0], input_chunks@[1], chunks@[1]),
{
}

/// `q` ends the program in either mode and leaves the state as it is.
pub proof fn lemma_quit_keeps_state(s: TaskView)
    ensures
        s.quits(Key::Char('q')),
        s.press(Key::Char('q')) == s,
{
}

} // verus!
