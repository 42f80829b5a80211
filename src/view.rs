use vstd::prelude::*;
use vstd::string::*;
use vstd::view::View as _;
use crate::buffer::{split_lines, Buffer};
use crate::terminal::{clear_line_seq, Size, Terminal};

verus! {

/// The name and version shown on the welcome row.
pub const BANNER: &'static str = "hecto editor -- version 0.1.0";

/// The marker painted on a row that has no line of text.
pub open spec fn marker() -> Seq<char> {
    seq!['~']
}

pub open spec fn row_break() -> Seq<char> {
    seq!['\r', '\n']
}

/// The welcome row for a viewport `width` cells wide: the banner centred,
/// after a marker that takes the place of the first padding space, cut to
/// `width` cells.
pub open spec fn welcome_row(width: nat) -> Seq<char> {
    let len = BANNER@.len();
    let padding: nat = if width >= len { ((width - len) / 2) as nat } else { 0 };
    let spaces: nat = if padding >= 1 { (padding - 1) as nat } else { 0 };
    let full = marker() + Seq::new(spaces, |i: int| ' ') + BANNER@;
    if full.len() <= width {
        full
    } else {
        full.take(width as int)
    }
}

/// What row `r` of the viewport shows: the line of text at `r` if there is
/// one, else the welcome row on the row a third of the way down, else a marker.
pub open spec fn row_content(lines: Seq<Seq<char>>, r: nat, size: Size) -> Seq<char> {
    if r < lines.len() {
        lines[r as int]
    } else if r == size.height / 3 {
        welcome_row(size.width as nat)
    } else {
        marker()
    }
}

/// Row `r` as queued: the line is cleared, painted, and followed by a row
/// break unless it is the last row.
pub open spec fn row_output(lines: Seq<Seq<char>>, r: nat, size: Size) -> Seq<char> {
    clear_line_seq() + row_content(lines, r, size) + if r + 1 < size.height {
        row_break()
    } else {
        Seq::<char>::empty()
    }
}

/// The first `n` rows of the frame.
pub open spec fn rows_output(lines: Seq<Seq<char>>, n: nat, size: Size) -> Seq<char>
    decreases n,
{
    if n == 0 {
        Seq::<char>::empty()
    } else {
        rows_output(lines, (n - 1) as nat, size) + row_output(lines, (n - 1) as nat, size)
    }
}

/// The whole frame painted for `lines` in a viewport of `size`.
pub open spec fn frame(lines: Seq<Seq<char>>, size: Size) -> Seq<char> {
    rows_output(lines, size.height as nat, size)
}

/// Paints the lines of a buffer into the viewport.
pub struct View {
    pub buffer: Buffer,
}

impl View {
    /// A view of the empty buffer.
    pub fn new() -> (r: View)
        ensures
            r.buffer@ == Seq::<Seq<char>>::empty(),
    {
        View { buffer: Buffer::new() }
    }

    /// Replaces the whole buffer by the lines of `text`.
    pub fn load(&mut self, text: &str)
        ensures
            final(self).buffer@ == split_lines(text@),
    {
        self.buffer = Buffer::from_text(text);
    }

    /// Queues one full frame for a viewport of `size`.
    pub fn render(&self, terminal: &mut Terminal, size: Size)
        ensures
            final(terminal)@ == old(terminal)@ + frame(self.buffer@, size),
    {
        let height = size.height;
        let mut current_row: usize = 0;
        while current_row < height
            invariant
                current_row <= height,
                height == size.height,
                terminal@ == old(terminal)@ + rows_output(self.buffer@, current_row as nat, size),
            decreases height - current_row,
        {
            let ghost before = terminal@;
            terminal.clear_line();
            if current_row < self.buffer.lines.len() {
                terminal.print(self.buffer.lines[current_row].as_str());
            } else if current_row == height / 3 {
                Self::draw_welcome_message(terminal, size.width);
            } else {
                Self::draw_empty_row(terminal);
            }
            if current_row + 1 < height {
                proof {
                    reveal_strlit("\r\n");
                }
                terminal.print("\r\n");
            }
            assert(terminal@ =~= before + row_output(self.buffer@, current_row as nat, size));
            current_row = current_row + 1;
        }
    }

    fn draw_welcome_message(terminal: &mut Terminal, width: usize)
        ensures
            final(terminal)@ == old(terminal)@ + welcome_row(width as nat),
    {
        proof {
            reveal_strlit("~");
            reveal_strlit(" ");
        }
        let len = BANNER.unicode_len();
        let padding = width.saturating_sub(len) / 2;
        let spaces = padding.saturating_sub(1);
        assert(spaces <= width / 2);
        assert(len == 29) by {
            reveal_strlit("hecto editor -- version 0.1.0");
        }
        let total = 1 + spaces + len;
        let mut message = String::new();
        message.append("~");
        let mut i: usize = 0;
        while i < spaces
            invariant
                i <= spaces,
                message@ == marker() + Seq::new(i as nat, |k: int| ' '),
            decreases spaces - i,
        {
            proof {
                reveal_strlit(" ");
            }
            message.append(" ");
            i = i + 1;
            assert(message@ =~= marker() + Seq::new(i as nat, |k: int| ' '));
        }
        message.append(BANNER);
        assert(message@.len() == total);
        if total <= width {
            terminal.print(message.as_str());
        } else {
            terminal.print(message.as_str().substring_char(0, width));
        }
    }

    fn draw_empty_row(terminal: &mut Terminal)
        ensures
            final(terminal)@ == old(terminal)@ + marker(),
    {
        proof {
            reveal_strlit("~");
        }
        terminal.print("~");
    }
}

/// The welcome row never overflows the viewport: it is as long as the marker,
/// the padding and the banner, cut to `width`.
pub proof fn lemma_welcome_row_fits(width: nat)
    ensures
        welcome_row(width).len() <= width,
        welcome_row(width).len() == {
            let len = BANNER@.len();
            let padding: nat = if width >= len { ((width - len) / 2) as nat } else { 0 };
            let lead: nat = if padding >= 1 { padding } else { 1 };
            if lead + len <= width { lead + len } else { width }
        },
{
}

/// Where the viewport has room for the banner and a cell on each side, the
/// welcome row is not cut: the banner starts at column `(width - len) / 2`,
/// so the margins left and right of it differ by at most one cell.
pub proof fn lemma_welcome_row_centred(width: nat)
    requires
        width >= BANNER@.len() + 2,
    ensures
        ({
            let len = BANNER@.len();
            let start = (width - len) / 2;
            let right = width - len - start;
            &&& welcome_row(width).len() == start + len
            &&& welcome_row(width).subrange(start, start + len) == BANNER@
            &&& welcome_row(width)[0] == '~'
            &&& forall|i: int| 1 <= i < start ==> #[trigger] welcome_row(width)[i] == ' '
            &&& start <= right <= start + 1
        }),
{
    let len = BANNER@.len();
    let start = (width - len) / 2;
    let full = marker() + Seq::new((start - 1) as nat, |i: int| ' ') + BANNER@;
    assert(full.subrange(start, start + len) =~= BANNER@);
}

/// Every row of an empty buffer's frame shows the marker, but for the row a
/// third of the way down, which shows the welcome row.
pub proof fn lemma_empty_buffer_rows(r: nat, size: Size)
    requires
        r < size.height,
    ensures
        row_content(Seq::<Seq<char>>::empty(), r, size) == if r == size.height / 3 {
            welcome_row(size.width as nat)
        } else {
            marker()
        },
{
}

} // verus!
