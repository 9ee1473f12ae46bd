//! The prompt box: the current prompt compared with the input character by
//! character, followed by a preview of the prompts to come.

use crate::app::{App, AppView};
use crate::text::{char_at, chars_of, push_char};
use vstd::prelude::*;
use vstd::string::StringExecFns;

verus! {

/// The greatest number of upcoming prompts that the prompt box previews.
pub const MAX_PREVIEW: usize = 20;

/// One piece of the prompt box.
#[derive(Debug, PartialEq, Eq)]
pub enum Segment {
    /// A typed character that equals the prompt's character at its position.
    Correct(char),
    /// A typed character that differs from the prompt's character at its
    /// position. It is the typed character, not the prompt's.
    Incorrect(char),
    /// A character of the prompt that has not been typed yet.
    Pending(char),
    /// An upcoming prompt.
    Preview(String),
}

/// A segment, with the text of an upcoming prompt as a sequence of
/// characters.
pub enum SegmentView {
    Correct(char),
    Incorrect(char),
    Pending(char),
    Preview(Seq<char>),
}

impl SegmentView {
    /// The characters that the segment shows. An upcoming prompt is set off
    /// by one space before it.
    pub open spec fn text(self) -> Seq<char> {
        match self {
            SegmentView::Correct(c) => seq![c],
            SegmentView::Incorrect(c) => seq![c],
            SegmentView::Pending(c) => seq![c],
            SegmentView::Preview(prompt) => seq![' '] + prompt,
        }
    }
}

impl View for Segment {
    type V = SegmentView;

    open spec fn view(&self) -> SegmentView {
        match self {
            Segment::Correct(c) => SegmentView::Correct(*c),
            Segment::Incorrect(c) => SegmentView::Incorrect(*c),
            Segment::Pending(c) => SegmentView::Pending(*c),
            Segment::Preview(prompt) => SegmentView::Preview(prompt@),
        }
    }
}

impl Segment {
    /// The text that the segment shows. An upcoming prompt is set off by one
    /// space before it.
    pub fn text(&self) -> (text: String)
        ensures
            text@ == self@.text(),
    {
        match self {
            Segment::Correct(c) | Segment::Incorrect(c) | Segment::Pending(c) => {
                let mut text = String::new();
                push_char(&mut text, *c);
                assert(text@ =~= seq![*c]);
                text
            },
            Segment::Preview(prompt) => {
                let mut text = String::new();
                push_char(&mut text, ' ');
                let text = text.concat(prompt.as_str());
                assert(text@ =~= seq![' '] + prompt@);
                text
            },
        }
    }
}

/// The segment at position `i` of the prompt `target`, given the input:
/// the typed character, marked by whether it equals the prompt's, where the
/// input reaches position `i`; the prompt's own character, pending, where it
/// does not.
pub open spec fn compared(target: Seq<char>, input: Seq<char>, i: int) -> SegmentView {
    if i < input.len() {
        if input[i] == target[i] {
            SegmentView::Correct(input[i])
        } else {
            SegmentView::Incorrect(input[i])
        }
    } else {
        SegmentView::Pending(target[i])
    }
}

/// The number of prompts previewed out of `n` upcoming ones.
pub open spec fn previewed(n: nat) -> nat {
    if n <= MAX_PREVIEW {
        n
    } else {
        MAX_PREVIEW as nat
    }
}

/// The segments of the prompt box: one for each position of the prompt
/// `target`, then one for each of the first `MAX_PREVIEW` upcoming prompts.
/// Input beyond the prompt's length shows nowhere.
pub open spec fn rendered(target: Seq<char>, input: Seq<char>, upcoming: Seq<Seq<char>>) -> Seq<
    SegmentView,
> {
    Seq::new(target.len(), |i: int| compared(target, input, i)) + Seq::new(
        previewed(upcoming.len()),
        |j: int| SegmentView::Preview(upcoming[j]),
    )
}

/// The prompt box of a session: its input compared with its current prompt,
/// then the preview of the prompts that follow.
pub open spec fn prompt_box(state: AppView) -> Seq<SegmentView> {
    rendered(state.queue.pending[0], state.input.text, state.queue.upcoming(MAX_PREVIEW as nat))
}

/// The views of a sequence of segments.
pub open spec fn segment_views(segments: Seq<Segment>) -> Seq<SegmentView> {
    segments.map_values(|s: Segment| s@)
}

/// The character sequences of a sequence of string slices.
pub open spec fn slice_texts(slices: Seq<&str>) -> Seq<Seq<char>> {
    slices.map_values(|s: &str| s@)
}

/// Compares the input with the prompt `target` position by position and
/// appends a preview of the upcoming prompts.
pub fn render_prompt(target: &str, input: &str, upcoming: &Vec<&str>) -> (segments: Vec<Segment>)
    ensures
        segment_views(segments@) == rendered(target@, input@, slice_texts(upcoming@)),
{
    let target_chars = chars_of(target);
    let input_chars = chars_of(input);
    let mut segments: Vec<Segment> = Vec::new();
    let mut i: usize = 0;
    while i < target_chars.len()
        invariant
            i <= target_chars@.len(),
            target_chars@ == target@,
            input_chars@ == input@,
            segments@.len() == i,
            forall|k: int|
                0 <= k < i ==> (#[trigger] segments@[k])@ == compared(target@, input@, k),
        decreases target_chars@.len() - i,
    {
        let expected = char_at(&target_chars, i);
        let segment = if i < input_chars.len() {
            let typed = char_at(&input_chars, i);
            if typed == expected {
                Segment::Correct(typed)
            } else {
                Segment::Incorrect(typed)
            }
        } else {
            Segment::Pending(expected)
        };
        segments.push(segment);
        i = i + 1;
    }
    let mut j: usize = 0;
    while j < upcoming.len() && j < MAX_PREVIEW
        invariant
            j <= upcoming.len(),
            j <= MAX_PREVIEW,
            segments@.len() == target@.len() + j,
            forall|k: int|
                0 <= k < target@.len() ==> (#[trigger] segments@[k])@ == compared(
                    target@,
                    input@,
                    k,
                ),
            forall|k: int|
                0 <= k < j ==> (#[trigger] segments@[target@.len() + k])@ == SegmentView::Preview(
                    upcoming@[k]@,
                ),
        decreases upcoming.len() - j,
    {
        segments.push(Segment::Preview(String::from_str(upcoming[j])));
        j = j + 1;
    }
    proof {
        let shown = segment_views(segments@);
        let wanted = rendered(target@, input@, slice_texts(upcoming@));
        assert(j == previewed(slice_texts(upcoming@).len()));
        assert(shown.len() == wanted.len());
        assert forall|k: int| 0 <= k < shown.len() implies shown[k] == wanted[k] by {
            if k >= target@.len() {
                let m = k - target@.len();
                assert(segments@[target@.len() + m]@ == SegmentView::Preview(upcoming@[m]@));
            }
        }
        assert(shown =~= wanted);
    }
    segments
}

/// The segments of the prompt box for a session: its input compared with
/// its current prompt, then the preview of the prompts that follow. The
/// session's queue must not be exhausted.
pub fn prompt_widget(app: &App) -> (segments: Vec<Segment>)
    requires
        app@.queue.pending.len() > 0,
    ensures
        segment_views(segments@) == prompt_box(app@),
{
    let input = app.input.text();
    let upcoming = app.prompts.peek(MAX_PREVIEW);
    assert(slice_texts(upcoming@) =~= app@.queue.upcoming(MAX_PREVIEW as nat));
    render_prompt(app.prompts.current(), input.as_str(), &upcoming)
}

/// Rendering keeps no state of its own. Two sessions with the same input
/// text and the same pending prompts show the same prompt box, whatever their
/// modes, layouts, cursors and histories.
pub proof fn lemma_prompt_box_depends_on_text_and_prompts_alone(a: AppView, b: AppView)
    requires
        a.input.text == b.input.text,
        a.queue.pending == b.queue.pending,
    ensures
        prompt_box(a) == prompt_box(b),
{
}

/// The prompt box has one segment for each character of the prompt and one
/// for each previewed prompt, whatever the input's length.
pub proof fn lemma_rendered_length(target: Seq<char>, input: Seq<char>, upcoming: Seq<Seq<char>>)
    ensures
        rendered(target, input, upcoming).len() == target.len() + previewed(upcoming.len()),
        forall|i: int|
            0 <= i < target.len() ==> rendered(target, input, upcoming)[i] == compared(
                target,
                input,
                i,
            ),
        forall|j: int|
            0 <= j < previewed(upcoming.len()) ==> rendered(target, input, upcoming)[target.len()
                + j] == SegmentView::Preview(upcoming[j]),
{
}

} // verus!
