//! Framing of the requests that lightningd writes to a plugin's input:
//! each request is a block of non-blank lines, ended by a blank line (or by
//! the end of the input), and the request text is the block's lines joined
//! without separators. Blank lines before a block are skipped.

use vstd::prelude::*;
use crate::text::{is_blank, spec_is_blank};

verus! {

/// One step of framing: the text collected so far and the next line give
/// the text collected afterwards and, when the line ends a block, the block's text.
pub open spec fn feed_step(pending: Seq<char>, line: Seq<char>) -> (Seq<char>, Option<Seq<char>>) {
    if !spec_is_blank(line) {
        (pending + line, None)
    } else if spec_is_blank(pending) {
        (Seq::empty(), None)
    } else {
        (Seq::empty(), Some(pending))
    }
}

/// Feeding lines one by one: the text collected at the end, and what each line gave.
pub open spec fn feed_each(pending: Seq<char>, lines: Seq<Seq<char>>) -> (Seq<char>, Seq<Option<Seq<char>>>)
    decreases lines.len(),
{
    if lines.len() == 0 {
        (pending, Seq::empty())
    } else {
        let before = feed_each(pending, lines.drop_last());
        let step = feed_step(before.0, lines.last());
        (step.0, before.1.push(step.1))
    }
}

/// The lines joined without separators.
pub open spec fn concat_lines(lines: Seq<Seq<char>>) -> Seq<char>
    decreases lines.len(),
{
    if lines.len() == 0 {
        Seq::empty()
    } else {
        concat_lines(lines.drop_last()) + lines.last()
    }
}

/// What the input's end gives: the collected text, unless it is blank.
pub open spec fn finish_step(pending: Seq<char>) -> Option<Seq<char>> {
    if spec_is_blank(pending) {
        None
    } else {
        Some(pending)
    }
}

/// The characters of an optional string.
pub open spec fn opt_view(o: Option<String>) -> Option<Seq<char>> {
    match o {
        Some(s) => Some(s@),
        None => None,
    }
}

/// Cuts the lines of the input into request texts.
pub struct ObjectFramer {
    pending: String,
}

impl ObjectFramer {
    /// The text collected from the lines of the current block.
    pub closed spec fn pending(self) -> Seq<char> {
        self.pending@
    }

    /// A framer that has collected nothing.
    pub fn new() -> (r: Self)
        ensures
            r.pending() == Seq::<char>::empty(),
    {
        ObjectFramer { pending: String::new() }
    }

    /// Takes the next line of input (without its line terminator) and gives
    /// the request text when the line ends a block.
    pub fn feed_line(&mut self, line: &str) -> (r: Option<String>)
        ensures
            (final(self).pending(), opt_view(r)) == feed_step(old(self).pending(), line@),
    {
        if !is_blank(line) {
            self.pending.append(line);
            None
        } else if is_blank(self.pending.as_str()) {
            self.pending = String::new();
            None
        } else {
            let text: String = self.pending.clone();
            self.pending = String::new();
            Some(text)
        }
    }

    /// Takes the end of the input: gives the text of an unfinished block, if any.
    pub fn finish(&mut self) -> (r: Option<String>)
        ensures
            opt_view(r) == finish_step(old(self).pending()),
            !spec_is_blank(old(self).pending()) ==> opt_view(r) == Some(old(self).pending()),
            spec_is_blank(old(self).pending()) ==> r is None,
            final(self).pending() == Seq::<char>::empty(),
    {
        if is_blank(self.pending.as_str()) {
            self.pending = String::new();
            None
        } else {
            let text: String = self.pending.clone();
            self.pending = String::new();
            Some(text)
        }
    }
}

/// Feeding `a` and then `b` is feeding `a + b`.
pub proof fn lemma_feed_each_append(pending: Seq<char>, a: Seq<Seq<char>>, b: Seq<Seq<char>>)
    ensures
        feed_each(pending, a + b).0 == feed_each(feed_each(pending, a).0, b).0,
        feed_each(pending, a + b).1 == feed_each(pending, a).1 + feed_each(feed_each(pending, a).0, b).1,
    decreases b.len(),
{
    if b.len() == 0 {
        assert(a + b =~= a);
    } else {
        lemma_feed_each_append(pending, a, b.drop_last());
        assert((a + b).drop_last() =~= a + b.drop_last());
        assert((a + b).last() == b.last());
    }
}

/// Blank lines before a block leave nothing collected and give nothing.
pub proof fn lemma_blank_lines_skipped(lines: Seq<Seq<char>>)
    requires
        forall|i: int| 0 <= i < lines.len() ==> spec_is_blank(#[trigger] lines[i]),
    ensures
        feed_each(Seq::empty(), lines).0 == Seq::<char>::empty(),
        feed_each(Seq::empty(), lines).1 == Seq::new(lines.len(), |i: int| None::<Seq<char>>),
    decreases lines.len(),
{
    if lines.len() > 0 {
        lemma_blank_lines_skipped(lines.drop_last());
        assert(spec_is_blank(lines.last()));
        assert(spec_is_blank(Seq::<char>::empty()));
        assert(feed_each(Seq::empty(), lines).1 =~= Seq::new(lines.len(), |i: int| None::<Seq<char>>));
    }
}

/// Non-blank lines are collected one after the other and give nothing.
pub proof fn lemma_block_collected(pending: Seq<char>, lines: Seq<Seq<char>>)
    requires
        forall|i: int| 0 <= i < lines.len() ==> !spec_is_blank(#[trigger] lines[i]),
    ensures
        feed_each(pending, lines).0 == pending + concat_lines(lines),
        feed_each(pending, lines).1 == Seq::new(lines.len(), |i: int| None::<Seq<char>>),
    decreases lines.len(),
{
    if lines.len() == 0 {
        assert(pending + concat_lines(lines) =~= pending);
    } else {
        lemma_block_collected(pending, lines.drop_last());
        assert(!spec_is_blank(lines.last()));
        assert(pending + concat_lines(lines.drop_last()) + lines.last() =~= pending + concat_lines(lines));
        assert(feed_each(pending, lines).1 =~= Seq::new(lines.len(), |i: int| None::<Seq<char>>));
    }
}

/// The text of a block holds a non-whitespace character when the block has a line.
pub proof fn lemma_block_not_blank(lines: Seq<Seq<char>>)
    requires
        lines.len() > 0,
        forall|i: int| 0 <= i < lines.len() ==> !spec_is_blank(#[trigger] lines[i]),
    ensures
        !spec_is_blank(concat_lines(lines)),
    decreases lines.len(),
{
    let last = lines.last();
    assert(!spec_is_blank(last));
    let k: int = choose|k: int| 0 <= k < last.len() && !crate::text::spec_is_whitespace(#[trigger] last[k]);
    let whole = concat_lines(lines);
    let prefix_len: nat = concat_lines(lines.drop_last()).len();
    assert(whole[prefix_len + k] == last[k]);
}

/// Framing law: after any number of blank lines, a block of non-blank lines
/// ended by a blank line gives exactly one request text, the block's lines
/// joined, when its ending line is read, and leaves nothing collected.
pub proof fn lemma_frame_request(leading: Seq<Seq<char>>, block: Seq<Seq<char>>, end: Seq<char>)
    requires
        forall|i: int| 0 <= i < leading.len() ==> spec_is_blank(#[trigger] leading[i]),
        block.len() > 0,
        forall|i: int| 0 <= i < block.len() ==> !spec_is_blank(#[trigger] block[i]),
        spec_is_blank(end),
    ensures
        ({
            let lines = leading + block + seq![end];
            let fed = feed_each(Seq::empty(), lines);
            &&& fed.0 == Seq::<char>::empty()
            &&& fed.1 == Seq::new(lines.len(), |i: int|
                    if i == lines.len() - 1 { Some(concat_lines(block)) } else { None::<Seq<char>> })
        }),
{
    lemma_blank_lines_skipped(leading);
    lemma_feed_each_append(Seq::empty(), leading, block);
    lemma_block_collected(Seq::empty(), block);
    lemma_block_not_blank(block);
    assert(Seq::<char>::empty() + concat_lines(block) =~= concat_lines(block));
    let first = leading + block;
    lemma_feed_each_append(Seq::empty(), first, seq![end]);
    assert(seq![end].drop_last() =~= Seq::<Seq<char>>::empty());
    let lines = first + seq![end];
    let collected = concat_lines(block);
    assert(feed_each(Seq::empty(), first).0 == collected);
    assert(feed_each(Seq::empty(), first).1 =~= Seq::new(first.len(), |i: int| None::<Seq<char>>));
    assert(feed_each(collected, Seq::<Seq<char>>::empty()) == (collected, Seq::<Option<Seq<char>>>::empty()));
    assert(feed_step(collected, end) == (Seq::<char>::empty(), Some(collected)));
    assert(feed_each(collected, seq![end]).0 == Seq::<char>::empty());
    assert(feed_each(collected, seq![end]).1 =~= seq![Some(collected)]);
    assert(feed_each(Seq::empty(), lines).1 =~= Seq::new(lines.len(), |i: int|
        if i == lines.len() - 1 { Some(concat_lines(block)) } else { None::<Seq<char>> }));
}

/// At the end of the input, an unfinished block is given back whole, exactly
/// as collected, whenever it holds a character that is not whitespace, and
/// nothing is given back when it is blank.
pub proof fn lemma_finish_gives_unfinished_block(pending: Seq<char>)
    ensures
        !spec_is_blank(pending) ==> finish_step(pending) == Some(pending),
        spec_is_blank(pending) ==> finish_step(pending) is None,
{
}

/// Framing law at the end of the input: after any number of blank lines, a
/// block of non-blank lines that the input ends in gives nothing while its
/// lines are read, and the end of the input gives the block's lines joined.
pub proof fn lemma_frame_request_at_end(leading: Seq<Seq<char>>, block: Seq<Seq<char>>)
    requires
        forall|i: int| 0 <= i < leading.len() ==> spec_is_blank(#[trigger] leading[i]),
        block.len() > 0,
        forall|i: int| 0 <= i < block.len() ==> !spec_is_blank(#[trigger] block[i]),
    ensures
        ({
            let lines = leading + block;
            let fed = feed_each(Seq::empty(), lines);
            &&& fed.1 == Seq::new(lines.len(), |i: int| None::<Seq<char>>)
            &&& finish_step(fed.0) == Some(concat_lines(block))
        }),
{
    lemma_blank_lines_skipped(leading);
    lemma_feed_each_append(Seq::empty(), leading, block);
    lemma_block_collected(Seq::empty(), block);
    lemma_block_not_blank(block);
    assert(Seq::<char>::empty() + concat_lines(block) =~= concat_lines(block));
    let lines = leading + block;
    assert(feed_each(Seq::empty(), lines).1 =~= Seq::new(lines.len(), |i: int| None::<Seq<char>>));
}

} // verus!
