use vstd::prelude::*;

verus! {

/// The lines of `text`, split at each `'\n'`: `k` terminators give `k + 1`
/// lines, so a trailing terminator yields a trailing empty line.
pub open spec fn split_lines(text: Seq<char>) -> Seq<Seq<char>>
    decreases text.len(),
{
    if text.len() == 0 {
        seq![Seq::<char>::empty()]
    } else {
        let before = split_lines(text.drop_last());
        if text.last() == '\n' {
            before.push(Seq::<char>::empty())
        } else {
            before.update(before.len() - 1, before.last().push(text.last()))
        }
    }
}

pub proof fn lemma_split_lines_nonempty(text: Seq<char>)
    ensures
        split_lines(text).len() >= 1,
    decreases text.len(),
{
    if text.len() > 0 {
        lemma_split_lines_nonempty(text.drop_last());
    }
}

/// Relies on `String::push`: appends one character.
#[verifier::external_body]
fn push_char(s: &mut String, c: char)
    ensures
        final(s)@ == old(s)@.push(c),
{
    s.push(c);
}

/// The text of a file, as an ordered sequence of lines.
pub struct Buffer {
    pub lines: Vec<String>,
}

impl View for Buffer {
    type V = Seq<Seq<char>>;

    open spec fn view(&self) -> Seq<Seq<char>> {
        self.lines@.map_values(|l: String| l@)
    }
}

impl Buffer {
    /// The buffer with no lines, as before anything is loaded.
    pub fn new() -> (r: Buffer)
        ensures
            r@ == Seq::<Seq<char>>::empty(),
    {
        Buffer { lines: Vec::new() }
    }

    /// The buffer holding the lines of `text`.
    pub fn from_text(text: &str) -> (r: Buffer)
        ensures
            r@ == split_lines(text@),
    {
        let mut lines: Vec<String> = Vec::new();
        let mut current = String::new();
        let ghost mut seen: Seq<char> = Seq::empty();
        for c in it: text.chars()
            invariant
                seen == it.seq().take(it.index() as int),
                it.seq() == text@,
                lines@.map_values(|l: String| l@).push(current@) == split_lines(seen),
        {
            proof {
                let next = seen.push(c);
                assert(next.drop_last() == seen);
                lemma_split_lines_nonempty(seen);
                seen = next;
            }
            if c == '\n' {
                lines.push(current);
                current = String::new();
                assert(lines@.map_values(|l: String| l@).push(current@) =~= split_lines(seen));
            } else {
                push_char(&mut current, c);
                assert(lines@.map_values(|l: String| l@).push(current@) =~= split_lines(seen));
            }
        }
        assert(seen =~= text@);
        lines.push(current);
        let r = Buffer { lines };
        assert(r@ =~= split_lines(text@));
        r
    }

    pub fn is_empty(&self) -> (r: bool)
        ensures
            r == (self@.len() == 0),
    {
        self.lines.len() == 0
    }
}

} // verus!
