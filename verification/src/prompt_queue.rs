//! The queue of prompts to type and the history of the prompts typed.

use crate::text::texts;
use vstd::prelude::*;
use vstd::string::StringExecFns;

verus! {

/// The state of a prompt queue: the prompts still to type, the current one
/// first, and the prompts typed so far, in the order of their completion.
pub struct QueueView {
    pub pending: Seq<Seq<char>>,
    pub history: Seq<Seq<char>>,
}

impl QueueView {
    /// Whether `candidate` is the current prompt, character for character.
    /// An exhausted queue accepts nothing.
    pub open spec fn accepts(self, candidate: Seq<char>) -> bool {
        self.pending.len() > 0 && candidate == self.pending[0]
    }

    /// The state after `candidate` was submitted: where it is accepted, the
    /// current prompt has left the queue and stands at the end of the
    /// history; where it is not, nothing has changed.
    pub open spec fn submit(self, candidate: Seq<char>) -> QueueView {
        if self.accepts(candidate) {
            QueueView {
                pending: self.pending.drop_first(),
                history: self.history.push(candidate),
            }
        } else {
            self
        }
    }

    /// The prompts that follow the current one, at most `n` of them.
    pub open spec fn upcoming(self, n: nat) -> Seq<Seq<char>> {
        if self.pending.len() == 0 {
            Seq::empty()
        } else if n < self.pending.len() - 1 {
            self.pending.subrange(1, 1 + n as int)
        } else {
            self.pending.drop_first()
        }
    }
}

/// An ordered queue of prompts, of which the first is the current one, and
/// the history of submitted prompts, which only grows.
pub struct PromptQueue {
    prompts: Vec<String>,
    history: Vec<String>,
}

impl View for PromptQueue {
    type V = QueueView;

    closed spec fn view(&self) -> QueueView {
        QueueView { pending: texts(self.prompts@), history: texts(self.history@) }
    }
}

impl PromptQueue {
    /// A queue of the given prompts, the first of them current, with an empty
    /// history.
    pub fn new(prompts: Vec<String>) -> (queue: PromptQueue)
        ensures
            queue@.pending == texts(prompts@),
            queue@.history == Seq::<Seq<char>>::empty(),
    {
        let queue = PromptQueue { prompts, history: Vec::new() };
        assert(queue@.history =~= Seq::<Seq<char>>::empty());
        queue
    }

    /// The number of prompts still to type, the current one included.
    pub fn len(&self) -> (len: usize)
        ensures
            len == self@.pending.len(),
    {
        self.prompts.len()
    }

    /// Whether no prompt is left.
    pub fn is_empty(&self) -> (empty: bool)
        ensures
            empty <==> self@.pending.len() == 0,
    {
        self.prompts.len() == 0
    }

    /// The current prompt. The queue must not be exhausted.
    pub fn current(&self) -> (prompt: &str)
        requires
            self@.pending.len() > 0,
        ensures
            prompt@ == self@.pending[0],
    {
        self.prompts[0].as_str()
    }

    /// Up to `n` of the prompts that follow the current one, in order; fewer
    /// where the queue is shorter.
    pub fn peek(&self, n: usize) -> (upcoming: Vec<&str>)
        ensures
            upcoming@.len() == self@.upcoming(n as nat).len(),
            forall|i: int|
                0 <= i < upcoming@.len() ==> (#[trigger] upcoming@[i])@ == self@.upcoming(
                    n as nat,
                )[i],
    {
        let mut upcoming: Vec<&str> = Vec::new();
        let mut i: usize = 1;
        while i < self.prompts.len() && upcoming.len() < n
            invariant
                1 <= i,
                upcoming@.len() == i - 1,
                upcoming@.len() <= n,
                upcoming@.len() <= self@.upcoming(n as nat).len(),
                forall|j: int|
                    0 <= j < upcoming@.len() ==> (#[trigger] upcoming@[j])@ == self@.pending[1 + j],
            decreases self.prompts.len() - i,
        {
            upcoming.push(self.prompts[i].as_str());
            i = i + 1;
        }
        upcoming
    }

    /// The prompts submitted so far, in the order of their completion.
    pub fn history(&self) -> (history: &Vec<String>)
        ensures
            texts(history@) == self@.history,
    {
        &self.history
    }

    /// Submits `candidate` against the current prompt. Where the two are
    /// equal character for character, the current prompt leaves the queue,
    /// `candidate` is appended to the history and the result is `true`.
    /// Otherwise nothing changes and the result is `false`.
    pub fn try_submit(&mut self, candidate: &str) -> (accepted: bool)
        ensures
            accepted == old(self)@.accepts(candidate@),
            final(self)@ == old(self)@.submit(candidate@),
            !accepted ==> final(self)@ == old(self)@,
    {
        if self.prompts.len() == 0 {
            return false;
        }
        let entry = String::from_str(candidate);
        if entry == self.prompts[0] {
            self.prompts.remove(0);
            self.history.push(entry);
            assert(final(self)@.pending =~= old(self)@.pending.drop_first());
            assert(final(self)@.history =~= old(self)@.history.push(candidate@));
            true
        } else {
            false
        }
    }
}

/// Submission is exact: a candidate is accepted if and only if it has the
/// length of the current prompt and the same character at every position.
/// A candidate that is not accepted leaves the queue and the history as they
/// were; one that is accepted moves the current prompt to the history.
pub proof fn lemma_submission_is_exact(queue: QueueView, candidate: Seq<char>)
    requires
        queue.pending.len() > 0,
    ensures
        queue.accepts(candidate) <==> (candidate.len() == queue.pending[0].len() && forall|i: int|
            0 <= i < candidate.len() ==> candidate[i] == queue.pending[0][i]),
        !queue.accepts(candidate) ==> queue.submit(candidate) == queue,
        queue.accepts(candidate) ==> queue.submit(candidate).pending == queue.pending.drop_first()
            && queue.submit(candidate).history == queue.history.push(queue.pending[0]),
{
    if candidate.len() == queue.pending[0].len() && (forall|i: int|
        0 <= i < candidate.len() ==> candidate[i] == queue.pending[0][i]) {
        assert(candidate =~= queue.pending[0]);
    }
}

} // verus!
