//! The delimiter scanner: a line-mode state machine that splits the input
//! lines into a metadata block and a content block at exact `---` lines.

use vstd::prelude::*;
use vstd::string::StringExecFns;

verus! {

/// The state of the scanner: before the opening delimiter, inside the
/// metadata block, or past the closing delimiter.
#[derive(Clone, Copy, PartialEq, Eq, Structural, Debug)]
pub enum ScanState {
    Unknown,
    FrontMatter,
    Content,
}

/// The delimiter that opens and closes the metadata block in the source
/// dialect.
pub open spec fn delimiter() -> Seq<char> {
    "---"@
}

/// Whether a line is exactly the delimiter line.
pub open spec fn spec_is_delimiter(line: String) -> bool {
    line@ == delimiter()
}

/// One transition of the scanner's state machine: a delimiter line moves
/// `Unknown` to `FrontMatter` and `FrontMatter` to `Content`; `Content` is
/// terminal.
pub open spec fn spec_step(state: ScanState, line: String) -> ScanState {
    match state {
        ScanState::Unknown => if spec_is_delimiter(line) {
            ScanState::FrontMatter
        } else {
            ScanState::Unknown
        },
        ScanState::FrontMatter => if spec_is_delimiter(line) {
            ScanState::Content
        } else {
            ScanState::FrontMatter
        },
        ScanState::Content => ScanState::Content,
    }
}

/// The scanner's state after consuming all of `lines`, starting from
/// `Unknown`.
pub open spec fn spec_state(lines: Seq<String>) -> ScanState
    decreases lines.len(),
{
    if lines.len() == 0 {
        ScanState::Unknown
    } else {
        spec_step(spec_state(lines.drop_last()), lines.last())
    }
}

/// The metadata block collected by the scanner: every non-delimiter line
/// consumed while the state was `FrontMatter`.
pub open spec fn spec_front(lines: Seq<String>) -> Seq<String>
    decreases lines.len(),
{
    if lines.len() == 0 {
        Seq::empty()
    } else {
        let rest = spec_front(lines.drop_last());
        if spec_state(lines.drop_last()) is FrontMatter && !spec_is_delimiter(lines.last()) {
            rest.push(lines.last())
        } else {
            rest
        }
    }
}

/// The content block collected by the scanner: every line consumed while the
/// state was already `Content`, delimiter lines included.
pub open spec fn spec_content(lines: Seq<String>) -> Seq<String>
    decreases lines.len(),
{
    if lines.len() == 0 {
        Seq::empty()
    } else {
        let rest = spec_content(lines.drop_last());
        if spec_state(lines.drop_last()) is Content {
            rest.push(lines.last())
        } else {
            rest
        }
    }
}

/// What the scanner hands on: its terminal state and the two blocks, still as
/// lines without their line breaks.
pub struct ScanOutcome {
    pub state: ScanState,
    pub front: Vec<String>,
    pub content: Vec<String>,
}

fn is_delimiter(line: &String) -> (r: bool)
    ensures
        r == spec_is_delimiter(*line),
{
    let delim: String = String::from_str("---");
    *line == delim
}

/// Partition the input lines into the metadata block and the content block.
/// Lines before the opening delimiter are discarded; the two delimiter lines
/// themselves belong to neither block.
pub fn scan(lines: &Vec<String>) -> (r: ScanOutcome)
    ensures
        r.state == spec_state(lines@),
        r.front@ == spec_front(lines@),
        r.content@ == spec_content(lines@),
{
    let mut state = ScanState::Unknown;
    let mut front: Vec<String> = Vec::new();
    let mut content: Vec<String> = Vec::new();
    let mut i: usize = 0;
    while i < lines.len()
        invariant
            i <= lines.len(),
            state == spec_state(lines@.take(i as int)),
            front@ == spec_front(lines@.take(i as int)),
            content@ == spec_content(lines@.take(i as int)),
        decreases lines.len() - i,
    {
        let line = &lines[i];
        proof {
            assert(lines@.take(i + 1 as int).drop_last() =~= lines@.take(i as int));
            assert(lines@.take(i + 1 as int).last() == lines@[i as int]);
        }
        match state {
            ScanState::Unknown => {
                if is_delimiter(line) {
                    state = ScanState::FrontMatter;
                }
            },
            ScanState::FrontMatter => {
                if is_delimiter(line) {
                    state = ScanState::Content;
                } else {
                    front.push(line.clone());
                }
            },
            ScanState::Content => {
                content.push(line.clone());
            },
        }
        i = i + 1;
    }
    proof {
        assert(lines@.take(lines@.len() as int) =~= lines@);
    }
    ScanOutcome { state, front, content }
}

/// Whether no line of the block is the delimiter line.
pub open spec fn has_no_delimiter(lines: Seq<String>) -> bool {
    forall|i: int| 0 <= i < lines.len() ==> !spec_is_delimiter(#[trigger] lines[i])
}

/// One consumed line moves the scanner by one step: the state advances by
/// `spec_step`, the line lands in the metadata block exactly when the state
/// was `FrontMatter` and the line is no delimiter, and in the content block
/// exactly when the state was already `Content`.
pub proof fn lemma_scan_push(lines: Seq<String>, line: String)
    ensures
        spec_state(lines.push(line)) == spec_step(spec_state(lines), line),
        spec_front(lines.push(line)) == if spec_state(lines) is FrontMatter
            && !spec_is_delimiter(line) {
            spec_front(lines).push(line)
        } else {
            spec_front(lines)
        },
        spec_content(lines.push(line)) == if spec_state(lines) is Content {
            spec_content(lines).push(line)
        } else {
            spec_content(lines)
        },
{
    assert(lines.push(line).drop_last() =~= lines);
}

/// While the scanner is still `Unknown`, non-delimiter lines are discarded:
/// they change neither the state nor either block.
pub proof fn lemma_unknown_skips(lines: Seq<String>, tail: Seq<String>)
    requires
        spec_state(lines) is Unknown,
        has_no_delimiter(tail),
    ensures
        spec_state(lines + tail) is Unknown,
        spec_front(lines + tail) == spec_front(lines),
        spec_content(lines + tail) == spec_content(lines),
    decreases tail.len(),
{
    if tail.len() == 0 {
        assert(lines + tail =~= lines);
    } else {
        assert forall|i: int| 0 <= i < tail.drop_last().len() implies !spec_is_delimiter(
            #[trigger] tail.drop_last()[i],
        ) by {
            assert(tail.drop_last()[i] == tail[i]);
        }
        lemma_unknown_skips(lines, tail.drop_last());
        assert((lines + tail).drop_last() =~= lines + tail.drop_last());
        assert(!spec_is_delimiter(tail.last()));
        assert((lines + tail).last() == tail.last());
    }
}

/// While the scanner is inside the metadata block, non-delimiter lines are
/// appended to it, in order, and the content block is untouched.
pub proof fn lemma_front_matter_collects(lines: Seq<String>, tail: Seq<String>)
    requires
        spec_state(lines) is FrontMatter,
        has_no_delimiter(tail),
    ensures
        spec_state(lines + tail) is FrontMatter,
        spec_front(lines + tail) == spec_front(lines) + tail,
        spec_content(lines + tail) == spec_content(lines),
    decreases tail.len(),
{
    if tail.len() == 0 {
        assert(lines + tail =~= lines);
        assert(spec_front(lines) + tail =~= spec_front(lines));
    } else {
        assert forall|i: int| 0 <= i < tail.drop_last().len() implies !spec_is_delimiter(
            #[trigger] tail.drop_last()[i],
        ) by {
            assert(tail.drop_last()[i] == tail[i]);
        }
        lemma_front_matter_collects(lines, tail.drop_last());
        assert((lines + tail).drop_last() =~= lines + tail.drop_last());
        assert(!spec_is_delimiter(tail.last()));
        assert((lines + tail).last() == tail.last());
        assert((spec_front(lines) + tail.drop_last()).push(tail.last()) =~= spec_front(lines)
            + tail);
    }
}

/// Once the scanner has reached the content block, it never leaves it: every
/// further line is appended to the content verbatim, a literal delimiter
/// line included: and the metadata block never reopens.
pub proof fn lemma_content_collects(lines: Seq<String>, tail: Seq<String>)
    requires
        spec_state(lines) is Content,
    ensures
        spec_state(lines + tail) is Content,
        spec_front(lines + tail) == spec_front(lines),
        spec_content(lines + tail) == spec_content(lines) + tail,
    decreases tail.len(),
{
    if tail.len() == 0 {
        assert(lines + tail =~= lines);
        assert(spec_content(lines) + tail =~= spec_content(lines));
    } else {
        lemma_content_collects(lines, tail.drop_last());
        assert((lines + tail).drop_last() =~= lines + tail.drop_last());
        assert((lines + tail).last() == tail.last());
        assert((spec_content(lines) + tail.drop_last()).push(tail.last()) =~= spec_content(lines)
            + tail);
    }
}

/// The scanner's partition law. On an input shaped as: any prefix without a
/// delimiter line, a delimiter, the metadata lines (no delimiter among them),
/// a delimiter, and then anything at all, the scanner ends in `Content`, the
/// metadata block is exactly the middle part, and the content block is
/// exactly the rest: even where the rest holds further literal delimiter
/// lines, which stay in the content verbatim and never reopen the metadata.
pub proof fn lemma_scan_partition(
    pre: Seq<String>,
    open: String,
    mid: Seq<String>,
    close: String,
    rest: Seq<String>,
)
    requires
        has_no_delimiter(pre),
        spec_is_delimiter(open),
        has_no_delimiter(mid),
        spec_is_delimiter(close),
    ensures
        spec_state(pre + seq![open] + mid + seq![close] + rest) is Content,
        spec_front(pre + seq![open] + mid + seq![close] + rest) == mid,
        spec_content(pre + seq![open] + mid + seq![close] + rest) == rest,
{
    let empty = Seq::<String>::empty();
    lemma_unknown_skips(empty, pre);
    assert(empty + pre =~= pre);
    lemma_scan_push(pre, open);
    assert(pre.push(open) =~= pre + seq![open]);
    lemma_front_matter_collects(pre + seq![open], mid);
    lemma_scan_push(pre + seq![open] + mid, close);
    assert((pre + seq![open] + mid).push(close) =~= pre + seq![open] + mid + seq![close]);
    lemma_content_collects(pre + seq![open] + mid + seq![close], rest);
    assert(spec_front(empty) + mid =~= mid);
    assert(spec_content(empty) + rest =~= rest);
}

/// A block of lines as one text buffer: each line followed by its line break.
pub open spec fn spec_joined(lines: Seq<String>) -> Seq<char>
    decreases lines.len(),
{
    if lines.len() == 0 {
        Seq::empty()
    } else {
        spec_joined(lines.drop_last()) + lines.last()@ + "\n"@
    }
}

/// Concatenate a block of lines into one buffer, appending a line break after
/// every line.
pub fn join_lines(lines: &Vec<String>) -> (r: String)
    ensures
        r@ == spec_joined(lines@),
{
    let mut buffer = String::new();
    let mut i: usize = 0;
    while i < lines.len()
        invariant
            i <= lines.len(),
            buffer@ == spec_joined(lines@.take(i as int)),
        decreases lines.len() - i,
    {
        proof {
            assert(lines@.take(i + 1 as int).drop_last() =~= lines@.take(i as int));
            assert(lines@.take(i + 1 as int).last() == lines@[i as int]);
        }
        buffer.append(lines[i].as_str());
        buffer.append("\n");
        i = i + 1;
    }
    proof {
        assert(lines@.take(lines@.len() as int) =~= lines@);
    }
    buffer
}

} // verus!
