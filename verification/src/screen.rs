//! The screen: what is drawn for a state, and where.
//!
//! A [`Screen`] says what each of the four parts of the display holds. It is a
//! plain value: nothing here draws. The whole of it is made anew from the
//! state and the size of the terminal for every frame, so a change of size
//! is taken up by itself.

use vstd::prelude::*;
use crate::layout::{
    lemma_row_is_splittable, lower_edge, split, splittable, Area, Constraint,
};
use crate::state::{texts, Mode, Task, TaskView};
use crate::text::{decimal, push_decimal};

verus! {

/// The colours that the screen uses.
#[derive(Clone, Copy, Debug, PartialEq, Eq, Structural)]
pub enum Color {
    White,
    Cyan,
    Yellow,
}

/// How text is drawn: in a colour of its own or in the terminal's, bold or
/// not.
#[derive(Clone, Copy, Debug, PartialEq, Eq)]
pub struct Style {
    pub fg: Option<Color>,
    pub bold: bool,
}

/// A run of text in one style.
#[derive(Clone, Debug, PartialEq, Eq)]
pub struct Span {
    pub content: String,
    pub style: Style,
}

pub struct SpanView {
    pub content: Seq<char>,
    pub style: Style,
}

impl View for Span {
    type V = SpanView;

    open spec fn view(&self) -> SpanView {
        SpanView { content: self.content@, style: self.style }
    }
}

/// The views of the spans of a line, in order.
pub open spec fn span_views(spans: Seq<Span>) -> Seq<SpanView> {
    Seq::new(spans.len(), |i: int| spans[i]@)
}

/// The strip at the top: a bordered box over the whole screen, with the
/// names of the tabs in its first line. There is one tab, and nothing can
/// be done with it.
#[derive(Clone, Debug, PartialEq, Eq)]
pub struct Menu {
    pub area: Area,
    pub title: String,
    /// The style of the box.
    pub style: Style,
    pub tabs: Vec<Span>,
    /// The index of the tab that is shown as chosen.
    pub selected: usize,
    /// What stands between two tabs.
    pub divider: String,
}

pub struct MenuView {
    pub area: Area,
    pub title: Seq<char>,
    pub style: Style,
    pub tabs: Seq<SpanView>,
    pub selected: nat,
    pub divider: Seq<char>,
}

impl View for Menu {
    type V = MenuView;

    open spec fn view(&self) -> MenuView {
        MenuView {
            area: self.area,
            title: self.title@,
            style: self.style,
            tabs: span_views(self.tabs@),
            selected: self.selected as nat,
            divider: self.divider@,
        }
    }
}

/// The line that says which keys do what in the present mode.
#[derive(Clone, Debug, PartialEq, Eq)]
pub struct HelpLine {
    pub area: Area,
    pub spans: Vec<Span>,
}

pub struct HelpLineView {
    pub area: Area,
    pub spans: Seq<SpanView>,
}

impl View for HelpLine {
    type V = HelpLineView;

    open spec fn view(&self) -> HelpLineView {
        HelpLineView { area: self.area, spans: span_views(self.spans@) }
    }
}

/// The bordered box that shows the text typed so far.
#[derive(Clone, Debug, PartialEq, Eq)]
pub struct InputBox {
    pub area: Area,
    pub title: String,
    pub text: String,
    /// The style of the box and of the text in it.
    pub style: Style,
}

pub struct InputBoxView {
    pub area: Area,
    pub title: Seq<char>,
    pub text: Seq<char>,
    pub style: Style,
}

impl View for InputBox {
    type V = InputBoxView;

    open spec fn view(&self) -> InputBoxView {
        InputBoxView {
            area: self.area,
            title: self.title@,
            text: self.text@,
            style: self.style,
        }
    }
}

/// The bordered box that lists the tasks, one line for each.
#[derive(Clone, Debug, PartialEq, Eq)]
pub struct TaskList {
    pub area: Area,
    pub title: String,
    pub lines: Vec<String>,
}

pub struct TaskListView {
    pub area: Area,
    pub title: Seq<char>,
    pub lines: Seq<Seq<char>>,
}

impl View for TaskList {
    type V = TaskListView;

    open spec fn view(&self) -> TaskListView {
        TaskListView { area: self.area, title: self.title@, lines: texts(self.lines@) }
    }
}

/// One frame: the four parts, in the order in which they are drawn.
#[derive(Clone, Debug, PartialEq, Eq)]
pub struct Screen {
    pub menu: Menu,
    pub help: HelpLine,
    pub input: InputBox,
    pub tasks: TaskList,
}

pub struct ScreenView {
    pub menu: MenuView,
    pub help: HelpLineView,
    pub input: InputBoxView,
    pub tasks: TaskListView,
}

impl View for Screen {
    type V = ScreenView;

    open spec fn view(&self) -> ScreenView {
        ScreenView { menu: self.menu@, help: self.help@, input: self.input@, tasks: self.tasks@ }
    }
}

/// Text in the terminal's own colour and weight.
pub open spec fn plain() -> Style {
    Style { fg: None, bold: false }
}

/// Bold text in the terminal's own colour.
pub open spec fn bold() -> Style {
    Style { fg: None, bold: true }
}

/// Text in the colour `color`.
pub open spec fn colored(color: Color) -> Style {
    Style { fg: Some(color), bold: false }
}

/// The span of `content` in the style `style`.
pub open spec fn span(content: Seq<char>, style: Style) -> SpanView {
    SpanView { content, style }
}

/// The help line of each mode, with the names of the keys in bold.
pub open spec fn help_of(mode: Mode) -> Seq<SpanView> {
    match mode {
        Mode::Normal => seq![
            span("Press "@, plain()),
            span("q"@, bold()),
            span(" to exit, "@, plain()),
            span("a"@, bold()),
            span(" to add task"@, plain()),
        ],
        Mode::Editing => seq![
            span("Press "@, plain()),
            span(" Esc"@, bold()),
            span(" to stop adding, "@, plain()),
            span("Enter"@, bold()),
            span(" to add task in todo list"@, plain()),
        ],
    }
}

/// The line of the task at `index`: the index in decimal, a colon, a
/// blank, and the text of the task as it is.
pub open spec fn line_of(index: nat, text: Seq<char>) -> Seq<char> {
    decimal(index) + ": "@ + text
}

/// The lines of the list: one for each task, in the order of the tasks,
/// counted from 0.
pub open spec fn lines_of(tasks: Seq<Seq<char>>) -> Seq<Seq<char>> {
    Seq::new(tasks.len(), |i: int| line_of(i as nat, tasks[i]))
}

/// The style of the input box: yellow while a task is being typed.
pub open spec fn input_style_of(mode: Mode) -> Style {
    match mode {
        Mode::Normal => plain(),
        Mode::Editing => colored(Color::Yellow),
    }
}

/// The menu: a cyan box named `Menu` over `area`, with the one tab `Home`.
pub open spec fn menu_of(area: Area) -> MenuView {
    MenuView {
        area,
        title: "Menu"@,
        style: colored(Color::Cyan),
        tabs: seq![span("Home"@, colored(Color::White))],
        selected: 0,
        divider: "|"@,
    }
}

/// The screen for the state `s` on a terminal of the size `size`, with the
/// help line, the input box and the list at the places given.
pub open spec fn screen_of(
    s: TaskView,
    size: Area,
    help_area: Area,
    input_area: Area,
    list_area: Area,
) -> ScreenView {
    ScreenView {
        menu: menu_of(size),
        help: HelpLineView { area: help_area, spans: help_of(s.mode) },
        input: InputBoxView {
            area: input_area,
            title: "Input"@,
            text: s.input,
            style: input_style_of(s.mode),
        },
        tasks: TaskListView { area: list_area, title: "Tasks"@, lines: lines_of(s.tasks) },
    }
}

/// How the screen is divided: an upper half and, below it, the rest, of
/// ten rows or more, inside a margin of two cells.
pub open spec fn halves() -> Seq<Constraint> {
    seq![Constraint::Percentage(50), Constraint::Min(10)]
}

/// How the upper half is divided, again inside a margin of two cells: one
/// row, three rows for the input box, and the rest.
pub open spec fn input_rows() -> Seq<Constraint> {
    seq![Constraint::Length(1), Constraint::Length(3), Constraint::Min(1)]
}

impl Span {
    /// A span of `content` in the style `style`.
    pub fn styled(content: &str, style: Style) -> (s: Span)
        ensures
            s@ == span(content@, style),
    {
        Span { content: content.to_owned(), style }
    }
}

/// The spans of the help line for `mode`.
pub fn help_message(mode: Mode) -> (spans: Vec<Span>)
    ensures
        span_views(spans@) == help_of(mode),
{
    let plain = Style { fg: None, bold: false };
    let bold = Style { fg: None, bold: true };
    let mut spans: Vec<Span> = Vec::new();
    match mode {
        Mode::Normal => {
            spans.push(Span::styled("Press ", plain));
            spans.push(Span::styled("q", bold));
            spans.push(Span::styled(" to exit, ", plain));
            spans.push(Span::styled("a", bold));
            spans.push(Span::styled(" to add task", plain));
        },
        Mode::Editing => {
            spans.push(Span::styled("Press ", plain));
            spans.push(Span::styled(" Esc", bold));
            spans.push(Span::styled(" to stop adding, ", plain));
            spans.push(Span::styled("Enter", bold));
            spans.push(Span::styled(" to add task in todo list", plain));
        },
    }
    assert(span_views(spans@) =~= help_of(mode));
    spans
}

/// The lines of the list for `tasks`.
pub fn task_lines(tasks: &Vec<String>) -> (lines: Vec<String>)
    ensures
        texts(lines@) == lines_of(texts(tasks@)),
{
    let mut lines: Vec<String> = Vec::new();
    let mut i: usize = 0;
    while i < tasks.len()
        invariant
            i <= tasks.len(),
            lines@.len() == i,
            forall|j: int| 0 <= j < i ==> (#[trigger] lines@[j])@ == line_of(j as nat, tasks@[j]@),
        decreases tasks.len() - i,
    {
        let mut line = String::new();
        push_decimal(&mut line, i);
        line.append(": ");
        line.append(tasks[i].as_str());
        assert(line@ =~= line_of(i as nat, tasks@[i as int]@));
        lines.push(line);
        i += 1;
    }
    assert(texts(lines@) =~= lines_of(texts(tasks@)));
    lines
}

/// Puts the screen together from the state and the rows that the layout
/// gave: `chunks` are the halves of the screen, `input_chunks` the rows of
/// the upper half. The help line takes the upper half, the input box the
/// second row of it, the list the lower half; the menu lies over all.
pub fn compose(task: &Task, size: Area, chunks: &Vec<Area>, input_chunks: &Vec<Area>) -> (screen:
    Screen)
    requires
        chunks@.len() >= 2,
        input_chunks@.len() >= 2,
    ensures
        screen@ == screen_of(task@, size, chunks@[0], input_chunks@[1], chunks@[1]),
{
    let mut tabs: Vec<Span> = Vec::new();
    tabs.push(Span::styled("Home", Style { fg: Some(Color::White), bold: false }));
    assert(span_views(tabs@) =~= seq![span("Home"@, colored(Color::White))]);
    let menu = Menu {
        area: size,
        title: "Menu".to_owned(),
        style: Style { fg: Some(Color::Cyan), bold: false },
        tabs,
        selected: 0,
        divider: "|".to_owned(),
    };
    let help = HelpLine { area: chunks[0], spans: help_message(task.mode) };
    let input = InputBox {
        area: input_chunks[1],
        title: "Input".to_owned(),
        text: task.input.clone(),
        style: match task.mode {
            Mode::Normal => Style { fg: None, bold: false },
            Mode::Editing => Style { fg: Some(Color::Yellow), bold: false },
        },
    };
    let tasks = TaskList {
        area: chunks[1],
        title: "Tasks".to_owned(),
        lines: task_lines(&task.tasks),
    };
    Screen { menu, help, input, tasks }
}

/// The screen for `task` on a terminal of the size `size`.
///
/// There is one for every terminal that can be divided into its halves.
/// `None` where it cannot: the terminal is so high that half its height, in
/// hundredths, leaves 16 bits, or it lies at the far edge of what 16 bits
/// can address. What the parts hold is decided here. The parts lie one
/// below the other inside a margin of two cells, each as wide as what is
/// inside the margin: the help line from the upper edge, the list down to
/// the lower edge; the input box lies in the help line's area, again inside
/// a margin of two cells and as wide as what is inside it. How high each
/// part is, is the layout solver's answer.
pub fn ui(task: &Task, size: Area) -> (screen: Option<Screen>)
    ensures
        screen is Some <==> splittable(size, 2, halves()),
        screen matches Some(s) ==> {
            &&& s@ == screen_of(task@, size, s.help.area, s.input.area, s.tasks.area)
            &&& s.help.area.x == size.inner(2).x
            &&& s.help.area.width == size.inner(2).width
            &&& s.help.area.y == size.inner(2).y
            &&& s.help.area.ends_within(size.inner(2))
            &&& s.tasks.area.x == size.inner(2).x
            &&& s.tasks.area.width == size.inner(2).width
            &&& s.tasks.area.y + s.tasks.area.height == lower_edge(size.inner(2))
            &&& s.input.area.x == s.help.area.inner(2).x
            &&& s.input.area.width == s.help.area.inner(2).width
            &&& s.input.area.ends_within(s.help.area.inner(2))
        },
{
    let mut halves: Vec<Constraint> = Vec::new();
    halves.push(Constraint::Percentage(50));
    halves.push(Constraint::Min(10));
    assert(halves@ =~= self::halves());
    let chunks = match split(size, 2, &halves) {
        Some(chunks) => chunks,
        None => {
            return None;
        },
    };
    let mut rows: Vec<Constraint> = Vec::new();
    rows.push(Constraint::Length(1));
    rows.push(Constraint::Length(3));
    rows.push(Constraint::Min(1));
    assert(rows@ =~= input_rows());
    proof {
        lemma_row_is_splittable(chunks@[0], size.inner(2), 2, input_rows());
    }
    // The upper half ends inside the terminal, so it can be divided; the
    // test stays, and with it nothing is asked of the solver that it
    // cannot take.
    let input_chunks = match split(chunks[0], 2, &rows) {
        Some(input_chunks) => input_chunks,
        None => {
            return None;
        },
    };
    Some(compose(task, size, &chunks, &input_chunks))
}

} // verus!
