use vstd::prelude::*;
use vstd::view::View as _;
use crate::buffer::split_lines;
use crate::terminal::{
    clamped, clear_all_seq, hide_seq, move_to_seq, show_seq, Position, Size, Terminal,
};
use crate::view::{frame, View};

verus! {

/// The message on the last frame, once the editor quits.
pub const FAREWELL: &'static str = "Goodbye.\r\n";

/// A key, as far as the editor tells keys apart.
#[derive(Clone, Copy, Debug, PartialEq, Eq, Structural)]
pub enum Key {
    Up,
    Down,
    Left,
    Right,
    PageUp,
    PageDown,
    Home,
    End,
    Char(char),
    Other,
}

/// One key event: the key, whether the control modifier and no other was
/// held, and whether the key went down (rather than up or repeating).
#[derive(Clone, Copy, Debug, PartialEq, Eq, Structural)]
pub struct KeyInput {
    pub key: Key,
    pub control_only: bool,
    pub press: bool,
}

/// An input event read from the terminal.
#[derive(Clone, Copy, Debug, PartialEq, Eq, Structural)]
pub enum Event {
    Key(KeyInput),
    Other,
}

/// The last index of a dimension, or zero for an empty one.
pub open spec fn last_index(n: usize) -> usize {
    if n > 0 {
        (n - 1) as usize
    } else {
        0
    }
}

pub open spec fn at_most(v: usize, bound: usize) -> usize {
    if v < bound {
        v
    } else {
        bound
    }
}

/// The caret brought back into a viewport of `size` after a resize.
pub open spec fn clamp_caret(caret: Position, size: Size) -> Position {
    Position {
        col: at_most(caret.col, last_index(size.width)),
        row: at_most(caret.row, last_index(size.height)),
    }
}

/// Where a navigation key takes the caret in a viewport of `size`.
pub open spec fn moved(caret: Position, key: Key, size: Size) -> Position {
    let last_row = last_index(size.height);
    let last_col = last_index(size.width);
    match key {
        Key::Up => Position { row: at_most(last_index(caret.row), last_row), ..caret },
        Key::Down => Position {
            row: if caret.row < last_row {
                (caret.row + 1) as usize
            } else {
                last_row
            },
            ..caret
        },
        Key::Left => Position { col: at_most(last_index(caret.col), last_col), ..caret },
        Key::Right => Position {
            col: if caret.col < last_col {
                (caret.col + 1) as usize
            } else {
                last_col
            },
            ..caret
        },
        Key::PageUp => Position { row: 0, ..caret },
        Key::PageDown => Position { row: last_row, ..caret },
        Key::Home => Position { col: 0, ..caret },
        Key::End => Position { col: last_col, ..caret },
        _ => caret,
    }
}

pub open spec fn is_navigation(key: Key) -> bool {
    match key {
        Key::Up | Key::Down | Key::Left | Key::Right | Key::PageUp | Key::PageDown | Key::Home
        | Key::End => true,
        _ => false,
    }
}

/// Where a navigation key takes the caret in a viewport of `size`, with the
/// axis it does not move brought back into the viewport as well; any other
/// key leaves the caret.
pub open spec fn navigated(caret: Position, key: Key, size: Size) -> Position {
    if is_navigation(key) {
        clamp_caret(moved(caret, key, size), size)
    } else {
        caret
    }
}

/// Whether `event` is the quit chord: Ctrl-X pressed.
pub open spec fn quits(event: Event) -> bool {
    match event {
        Event::Key(k) => k.press && k.control_only && k.key == Key::Char('x'),
        Event::Other => false,
    }
}

/// The caret after `event`: a pressed navigation key moves it, anything
/// else leaves it.
pub open spec fn caret_after(caret: Position, event: Event, size: Size) -> Position {
    match event {
        Event::Key(k) => if k.press {
            navigated(caret, k.key, size)
        } else {
            caret
        },
        Event::Other => caret,
    }
}

/// The caret after each of `events` in turn, in a viewport of `size`.
pub open spec fn caret_after_all(caret: Position, events: Seq<Event>, size: Size) -> Position
    decreases events.len(),
{
    if events.len() == 0 {
        caret
    } else {
        caret_after(caret_after_all(caret, events.drop_last(), size), events.last(), size)
    }
}

pub open spec fn in_viewport(caret: Position, size: Size) -> bool {
    caret.col < size.width && caret.row < size.height
}

/// The frame queued at each turn: while running, the text and the caret at its
/// place; once quitting, a cleared screen with the farewell.
pub open spec fn screen(quitting: bool, caret: Position, lines: Seq<Seq<char>>, size: Size) -> Seq<
    char,
> {
    hide_seq() + move_to_seq(0, 0) + if quitting {
        clear_all_seq() + move_to_seq(0, 0) + FAREWELL@
    } else {
        frame(lines, size) + move_to_seq(clamped(caret.col), clamped(caret.row))
    } + show_seq()
}

/// The editor: its caret, whether it is quitting, and the text it shows.
pub struct Editor {
    pub should_quit: bool,
    pub caret: Position,
    pub view: View,
}

impl Editor {
    /// A running editor with the caret at the origin and no text.
    pub fn new() -> (r: Editor)
        ensures
            !r.should_quit,
            r.caret == (Position { col: 0, row: 0 }),
            r.view.buffer@ == Seq::<Seq<char>>::empty(),
    {
        Editor { should_quit: false, caret: Position { col: 0, row: 0 }, view: View::new() }
    }

    /// Takes in the outcome of reading the file given on start-up: its text,
    /// or `None` where it could not be read, which leaves everything as it was.
    pub fn load(&mut self, text: Option<&str>)
        ensures
            final(self).should_quit == old(self).should_quit,
            final(self).caret == old(self).caret,
            final(self).view.buffer@ == match text {
                Some(t) => split_lines(t@),
                None => old(self).view.buffer@,
            },
    {
        if let Some(t) = text {
            self.view.load(t);
        }
    }

    /// Moves the caret for a navigation key in a viewport of `size`, and
    /// keeps it inside that viewport on both axes.
    pub fn move_point(&mut self, key: Key, size: Size)
        ensures
            final(self).caret == navigated(old(self).caret, key, size),
            size.width >= 1 && size.height >= 1 && is_navigation(key) ==> in_viewport(
                final(self).caret,
                size,
            ),
            final(self).should_quit == old(self).should_quit,
            final(self).view.buffer@ == old(self).view.buffer@,
    {
        let Position { mut col, mut row } = self.caret;
        let Size { height, width } = size;
        let navigation = match key {
            Key::Up => {
                let above = row.saturating_sub(1);
                let last = height.saturating_sub(1);
                row = if above < last { above } else { last };
                true
            },
            Key::Down => {
                let below = row.saturating_add(1);
                let last = height.saturating_sub(1);
                row = if below < last { below } else { last };
                true
            },
            Key::Left => {
                let before = col.saturating_sub(1);
                let last = width.saturating_sub(1);
                col = if before < last { before } else { last };
                true
            },
            Key::Right => {
                let next = col.saturating_add(1);
                let last = width.saturating_sub(1);
                col = if next < last { next } else { last };
                true
            },
            Key::PageUp => {
                row = 0;
                true
            },
            Key::PageDown => {
                row = height.saturating_sub(1);
                true
            },
            Key::Home => {
                col = 0;
                true
            },
            Key::End => {
                col = width.saturating_sub(1);
                true
            },
            _ => false,
        };
        self.caret = Position { col, row };
        if navigation {
            self.clamp_caret(size);
        }
    }

    /// Brings the caret back into a viewport of `size`, which may have
    /// shrunk since it was placed.
    pub fn clamp_caret(&mut self, size: Size)
        ensures
            final(self).caret == clamp_caret(old(self).caret, size),
            final(self).should_quit == old(self).should_quit,
            final(self).view.buffer@ == old(self).view.buffer@,
    {
        let last_col = size.width.saturating_sub(1);
        let last_row = size.height.saturating_sub(1);
        if self.caret.col > last_col {
            self.caret.col = last_col;
        }
        if self.caret.row > last_row {
            self.caret.row = last_row;
        }
    }

    /// Dispatches one input event, with the geometry queried for it.
    pub fn evaluate_event(&mut self, event: Event, size: Size)
        ensures
            final(self).should_quit == (old(self).should_quit || quits(event)),
            final(self).caret == caret_after(old(self).caret, event, size),
            final(self).view.buffer@ == old(self).view.buffer@,
    {
        if let Event::Key(KeyInput { key, control_only, press: true }) = event {
            match key {
                Key::Char('x') if control_only => self.should_quit = true,
                Key::Up | Key::Down | Key::Left | Key::Right | Key::PageUp | Key::PageDown
                | Key::Home | Key::End => self.move_point(key, size),
                _ => {},
            }
        }
    }

    /// Queues the frame for the current state in a viewport of `size`.
    pub fn refresh_screen(&self, terminal: &mut Terminal, size: Size)
        ensures
            final(terminal)@ == old(terminal)@ + screen(
                self.should_quit,
                self.caret,
                self.view.buffer@,
                size,
            ),
    {
        terminal.hide_cursor();
        terminal.move_cursor_to(Position { col: 0, row: 0 });
        if self.should_quit {
            terminal.clear_screen();
            terminal.move_cursor_to(Position { col: 0, row: 0 });
            terminal.print(FAREWELL);
        } else {
            self.view.render(terminal, size);
            terminal.move_cursor_to(self.caret);
        }
        terminal.show_cursor();
        assert(terminal@ =~= old(terminal)@ + screen(
            self.should_quit,
            self.caret,
            self.view.buffer@,
            size,
        ));
    }

    /// One turn of the editor's loop: dispatches `event`, the input read
    /// since the last frame (none before the first), brings the caret into
    /// the viewport, then queues the next frame, all with the geometry `size`
    /// queried for this turn. Returns
    /// whether another event is to be read; once it is `false`, the frame
    /// queued was the last.
    pub fn run(&mut self, terminal: &mut Terminal, event: Option<Event>, size: Size) -> (read_more:
        bool)
        ensures
            final(self).should_quit == quitting_after(old(self).should_quit, event),
            final(self).caret == clamp_caret(
                match event {
                    Some(e) => caret_after(old(self).caret, e, size),
                    None => old(self).caret,
                },
                size,
            ),
            size.width >= 1 && size.height >= 1 ==> in_viewport(final(self).caret, size),
            final(self).view.buffer@ == old(self).view.buffer@,
            final(terminal)@ == old(terminal)@ + screen(
                final(self).should_quit,
                final(self).caret,
                final(self).view.buffer@,
                size,
            ),
            read_more == !final(self).should_quit,
    {
        if let Some(e) = event {
            self.evaluate_event(e, size);
        }
        self.clamp_caret(size);
        self.refresh_screen(terminal, size);
        !self.should_quit
    }
}

/// In a viewport of at least one cell, a caret inside it stays inside it
/// after any one event.
pub proof fn lemma_event_keeps_caret_in_viewport(caret: Position, event: Event, size: Size)
    requires
        size.width >= 1,
        size.height >= 1,
        in_viewport(caret, size),
    ensures
        in_viewport(caret_after(caret, event, size), size),
{
}

/// In a viewport of at least one cell, a navigation key leaves the caret
/// inside it on both axes, wherever the caret was before (a resize may have
/// left it outside).
pub proof fn lemma_navigation_lands_in_viewport(caret: Position, key: Key, size: Size)
    requires
        size.width >= 1,
        size.height >= 1,
        is_navigation(key),
    ensures
        in_viewport(navigated(caret, key, size), size),
{
}

/// In a viewport of at least one cell, a caret that starts inside it is
/// inside it after any sequence of events.
pub proof fn lemma_caret_stays_in_viewport(caret: Position, events: Seq<Event>, size: Size)
    requires
        size.width >= 1,
        size.height >= 1,
        in_viewport(caret, size),
    ensures
        in_viewport(caret_after_all(caret, events, size), size),
    decreases events.len(),
{
    if events.len() > 0 {
        lemma_caret_stays_in_viewport(caret, events.drop_last(), size);
        lemma_event_keeps_caret_in_viewport(
            caret_after_all(caret, events.drop_last(), size),
            events.last(),
            size,
        );
    }
}

/// Home then End puts the caret on the last column, wherever it started; its
/// row is kept, brought into the viewport.
pub proof fn lemma_home_then_end(caret: Position, size: Size)
    requires
        size.width >= 1,
    ensures
        navigated(navigated(caret, Key::Home, size), Key::End, size).col == size.width - 1,
        navigated(navigated(caret, Key::Home, size), Key::End, size).row == at_most(
            caret.row,
            last_index(size.height),
        ),
{
}

/// PageUp then PageDown puts the caret on the last row, wherever it started;
/// its column is kept, brought into the viewport.
pub proof fn lemma_page_up_then_page_down(caret: Position, size: Size)
    requires
        size.height >= 1,
    ensures
        navigated(navigated(caret, Key::PageUp, size), Key::PageDown, size).row == size.height
            - 1,
        navigated(navigated(caret, Key::PageUp, size), Key::PageDown, size).col == at_most(
            caret.col,
            last_index(size.width),
        ),
{
}

/// Whether the editor is quitting after a turn that dispatched `event`.
pub open spec fn quitting_after(quitting: bool, event: Option<Event>) -> bool {
    match event {
        Some(e) => quitting || quits(e),
        None => quitting,
    }
}

/// The last frame: a cleared screen with the farewell.
pub open spec fn farewell_screen() -> Seq<char> {
    hide_seq() + move_to_seq(0, 0) + clear_all_seq() + move_to_seq(0, 0) + FAREWELL@ + show_seq()
}

/// The turn that dispatches the quit chord leaves the editor quitting, from
/// any state, and queues the farewell frame, whatever the caret and the text;
/// no event dispatched later takes the editor out of quitting.
pub proof fn lemma_quit_is_final(
    quitting: bool,
    event: Event,
    later: Option<Event>,
    caret: Position,
    lines: Seq<Seq<char>>,
    size: Size,
)
    requires
        quits(event),
    ensures
        quitting_after(quitting, Some(event)),
        screen(quitting_after(quitting, Some(event)), caret, lines, size) == farewell_screen(),
        quitting_after(quitting_after(quitting, Some(event)), later),
{
    assert(screen(true, caret, lines, size) =~= farewell_screen());
}

} // verus!
