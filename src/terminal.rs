use vstd::prelude::*;
use crossterm::Command;
use crossterm::cursor::{Hide, MoveDown, MoveLeft, MoveRight, MoveTo, MoveUp, Show};
use crossterm::style::Print;
use crossterm::terminal::{Clear, ClearType};

verus! {

/// Width and height of the viewport, in cells.
#[derive(Clone, Copy, Debug, PartialEq, Eq, Structural)]
pub struct Size {
    pub height: usize,
    pub width: usize,
}

/// A cell of the screen, counted from the top-left corner.
#[derive(Clone, Copy, Debug, PartialEq, Eq, Structural)]
pub struct Position {
    pub col: usize,
    pub row: usize,
}

/// The largest coordinate a cursor placement can address: the terminal
/// protocol counts cells from one in a `u16`.
pub const MAX_COORDINATE: u16 = 65534;

/// The saturating conversion of a coordinate into the terminal's range.
pub open spec fn clamped(v: usize) -> u16 {
    if v <= MAX_COORDINATE as usize {
        v as u16
    } else {
        MAX_COORDINATE
    }
}

/// The control sequence introducer followed by `body`.
pub open spec fn csi(body: Seq<char>) -> Seq<char> {
    seq!['\x1b', '['] + body
}

pub open spec fn digit(d: nat) -> char {
    seq!['0', '1', '2', '3', '4', '5', '6', '7', '8', '9'][d as int]
}

/// The decimal digits of `n`, most significant first.
pub open spec fn decimal(n: nat) -> Seq<char>
    decreases n,
{
    if n < 10 {
        seq![digit(n)]
    } else {
        decimal(n / 10).push(digit(n % 10))
    }
}

pub open spec fn clear_all_seq() -> Seq<char> {
    csi(seq!['2', 'J'])
}

pub open spec fn clear_line_seq() -> Seq<char> {
    csi(seq!['2', 'K'])
}

pub open spec fn hide_seq() -> Seq<char> {
    csi(seq!['?', '2', '5', 'l'])
}

pub open spec fn show_seq() -> Seq<char> {
    csi(seq!['?', '2', '5', 'h'])
}

/// Places the cursor at column `col`, row `row` (both from zero).
pub open spec fn move_to_seq(col: u16, row: u16) -> Seq<char> {
    csi(decimal(row as nat + 1) + seq![';'] + decimal(col as nat + 1) + seq!['H'])
}

/// Moves the cursor one cell in the direction given by `letter`.
pub open spec fn step_seq(letter: char) -> Seq<char> {
    csi(seq!['1', letter])
}

/// Relies on crossterm's `Clear` command: `Clear(ClearType::All)` writes `ESC [ 2 J`.
#[verifier::external_body]
fn queue_clear_all(out: &mut String)
    ensures
        final(out)@ == old(out)@ + clear_all_seq(),
{
    let _ = Clear(ClearType::All).write_ansi(out);
}

/// Relies on crossterm's `Clear` command: `Clear(ClearType::CurrentLine)` writes `ESC [ 2 K`.
#[verifier::external_body]
fn queue_clear_line(out: &mut String)
    ensures
        final(out)@ == old(out)@ + clear_line_seq(),
{
    let _ = Clear(ClearType::CurrentLine).write_ansi(out);
}

/// Relies on crossterm's `MoveTo` command: writes `ESC [ row+1 ; col+1 H` in decimal.
/// It adds one to each coordinate in `u16`, hence the bound.
#[verifier::external_body]
fn queue_move_to(out: &mut String, col: u16, row: u16)
    requires
        col <= MAX_COORDINATE,
        row <= MAX_COORDINATE,
    ensures
        final(out)@ == old(out)@ + move_to_seq(col, row),
{
    let _ = MoveTo(col, row).write_ansi(out);
}

/// Relies on crossterm's `MoveRight` command: `MoveRight(1)` writes `ESC [ 1 C`.
#[verifier::external_body]
fn queue_move_right(out: &mut String)
    ensures
        final(out)@ == old(out)@ + step_seq('C'),
{
    let _ = MoveRight(1).write_ansi(out);
}

/// Relies on crossterm's `MoveLeft` command: `MoveLeft(1)` writes `ESC [ 1 D`.
#[verifier::external_body]
fn queue_move_left(out: &mut String)
    ensures
        final(out)@ == old(out)@ + step_seq('D'),
{
    let _ = MoveLeft(1).write_ansi(out);
}

/// Relies on crossterm's `MoveDown` command: `MoveDown(1)` writes `ESC [ 1 B`.
#[verifier::external_body]
fn queue_move_down(out: &mut String)
    ensures
        final(out)@ == old(out)@ + step_seq('B'),
{
    let _ = MoveDown(1).write_ansi(out);
}

/// Relies on crossterm's `MoveUp` command: `MoveUp(1)` writes `ESC [ 1 A`.
#[verifier::external_body]
fn queue_move_up(out: &mut String)
    ensures
        final(out)@ == old(out)@ + step_seq('A'),
{
    let _ = MoveUp(1).write_ansi(out);
}

/// Relies on crossterm's `Hide` command: writes `ESC [ ? 2 5 l`.
#[verifier::external_body]
fn queue_hide(out: &mut String)
    ensures
        final(out)@ == old(out)@ + hide_seq(),
{
    let _ = Hide.write_ansi(out);
}

/// Relies on crossterm's `Show` command: writes `ESC [ ? 2 5 h`.
#[verifier::external_body]
fn queue_show(out: &mut String)
    ensures
        final(out)@ == old(out)@ + show_seq(),
{
    let _ = Show.write_ansi(out);
}

/// Relies on crossterm's `Print` command: a `&str` is written as it is.
#[verifier::external_body]
fn queue_print(out: &mut String, text: &str)
    ensures
        final(out)@ == old(out)@ + text@,
{
    let _ = Print(text).write_ansi(out);
}

impl Size {
    /// The geometry a terminal reports as columns and rows.
    pub fn from_terminal(columns: u16, rows: u16) -> (r: Size)
        ensures
            r.width == columns as usize,
            r.height == rows as usize,
    {
        Size { height: rows as usize, width: columns as usize }
    }
}

/// Converts a coordinate into the range a cursor placement can address,
/// saturating at the largest one rather than wrapping.
pub fn clamp_coordinate(v: usize) -> (r: u16)
    ensures
        r == clamped(v),
        r <= MAX_COORDINATE,
{
    if v <= MAX_COORDINATE as usize {
        v as u16
    } else {
        MAX_COORDINATE
    }
}

/// The terminal as seen by the program: output is queued here, and nothing
/// reaches the screen until the queued frame is taken by `execute` and written
/// out in one piece.
pub struct Terminal {
    pending: String,
}

impl View for Terminal {
    type V = Seq<char>;

    /// The output queued since the last `execute`.
    closed spec fn view(&self) -> Seq<char> {
        self.pending@
    }
}

impl Terminal {
    /// A terminal with nothing queued.
    pub fn new() -> (r: Terminal)
        ensures
            r@ == Seq::<char>::empty(),
    {
        Terminal { pending: String::new() }
    }

    /// Queues the start-up frame: a cleared screen with the cursor at the origin.
    pub fn initialize(&mut self)
        ensures
            final(self)@ == old(self)@ + clear_all_seq() + move_to_seq(0, 0),
    {
        self.clear_screen();
        self.move_cursor_to(Position { col: 0, row: 0 });
    }

    pub fn clear_screen(&mut self)
        ensures
            final(self)@ == old(self)@ + clear_all_seq(),
    {
        queue_clear_all(&mut self.pending);
    }

    pub fn clear_line(&mut self)
        ensures
            final(self)@ == old(self)@ + clear_line_seq(),
    {
        queue_clear_line(&mut self.pending);
    }

    /// Queues a cursor placement; each coordinate saturates at `MAX_COORDINATE`.
    pub fn move_cursor_to(&mut self, position: Position)
        ensures
            final(self)@ == old(self)@ + move_to_seq(clamped(position.col), clamped(position.row)),
    {
        let col = clamp_coordinate(position.col);
        let row = clamp_coordinate(position.row);
        queue_move_to(&mut self.pending, col, row);
    }

    pub fn move_cursor_to_right(&mut self)
        ensures
            final(self)@ == old(self)@ + step_seq('C'),
    {
        queue_move_right(&mut self.pending);
    }

    pub fn move_cursor_to_left(&mut self)
        ensures
            final(self)@ == old(self)@ + step_seq('D'),
    {
        queue_move_left(&mut self.pending);
    }

    pub fn move_cursor_to_down(&mut self)
        ensures
            final(self)@ == old(self)@ + step_seq('B'),
    {
        queue_move_down(&mut self.pending);
    }

    pub fn move_cursor_to_up(&mut self)
        ensures
            final(self)@ == old(self)@ + step_seq('A'),
    {
        queue_move_up(&mut self.pending);
    }

    pub fn hide_cursor(&mut self)
        ensures
            final(self)@ == old(self)@ + hide_seq(),
    {
        queue_hide(&mut self.pending);
    }

    pub fn show_cursor(&mut self)
        ensures
            final(self)@ == old(self)@ + show_seq(),
    {
        queue_show(&mut self.pending);
    }

    pub fn print(&mut self, text: &str)
        ensures
            final(self)@ == old(self)@ + text@,
    {
        queue_print(&mut self.pending, text);
    }

    /// Takes everything queued so far, to be written to the screen at once,
    /// and leaves the queue empty.
    pub fn execute(&mut self) -> (frame: String)
        ensures
            frame@ == old(self)@,
            final(self)@ == Seq::<char>::empty(),
    {
        let mut taken = String::new();
        std::mem::swap(&mut taken, &mut self.pending);
        taken
    }
}

} // verus!
