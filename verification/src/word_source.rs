//! The source of a session's prompts: a list of words, one on each line of
//! a text, and the random draw of prompts from it.

use crate::text::{string_of, texts};
use rand::rngs::ThreadRng;
use rand::seq::SliceRandom;
use vstd::prelude::*;

verus! {

/// Number of prompts that a session's queue is seeded with.
pub const PROMPT_COUNT: usize = 2000;

/// A line without the carriage return at its end, if it has one.
pub open spec fn without_carriage_return(line: Seq<char>) -> Seq<char> {
    if line.len() > 0 && line.last() == '\r' {
        line.drop_last()
    } else {
        line
    }
}

/// The lines of a text. A line ends at a line feed, or at a carriage return
/// with a line feed behind it; neither belongs to the line. What follows the
/// last line feed is a line too, as it stands, unless it is empty.
pub open spec fn lines_of(text: Seq<char>) -> Seq<Seq<char>>
    decreases text.len(),
{
    if text.len() == 0 {
        Seq::empty()
    } else {
        match text.index_of_first('\n') {
            Some(end) => {
                proof {
                    text.index_of_first_ensures('\n');
                }
                seq![without_carriage_return(text.take(end))] + lines_of(text.skip(end + 1))
            },
            None => seq![text],
        }
    }
}

/// The lines of a text whose first line feed stands at `end`.
proof fn lemma_lines_at_line_feed(text: Seq<char>, end: int)
    requires
        0 <= end < text.len(),
        text[end] == '\n',
        forall|k: int| 0 <= k < end ==> text[k] != '\n',
    ensures
        lines_of(text) == seq![without_carriage_return(text.take(end))] + lines_of(
            text.skip(end + 1),
        ),
{
    text.index_of_first_ensures('\n');
    assert(text.contains('\n'));
    assert(text.index_of_first('\n') == Some(end));
}

/// The lines of a text without a line feed.
proof fn lemma_lines_of_last_line(text: Seq<char>)
    requires
        forall|k: int| 0 <= k < text.len() ==> text[k] != '\n',
    ensures
        lines_of(text) == if text.len() == 0 {
            Seq::<Seq<char>>::empty()
        } else {
            seq![text]
        },
{
    text.index_of_first_ensures('\n');
}

/// Splits a text into its lines, each of them a word of the list.
pub fn word_list(source: &str) -> (words: Vec<String>)
    ensures
        texts(words@) == lines_of(source@),
{
    broadcast use vstd::string::group_string_axioms;

    let mut words: Vec<String> = Vec::new();
    let mut line: Vec<char> = Vec::new();
    let ghost mut start: int = 0;
    proof {
        assert(source@.skip(0) =~= source@);
        assert(texts(words@) + lines_of(source@) =~= lines_of(source@));
    }
    for c in it: source.chars()
        invariant
            it.seq() == source@,
            0 <= start <= it.index(),
            line@ == source@.subrange(start, it.index()),
            forall|k: int| start <= k < it.index() ==> source@[k] != '\n',
            texts(words@) + lines_of(source@.skip(start)) == lines_of(source@),
    {
        let ghost at = it.index();
        let ghost rest = source@.skip(start);
        if c == '\n' {
            proof {
                assert forall|k: int| 0 <= k < at - start implies rest[k] != '\n' by {
                    assert(rest[k] == source@[start + k]);
                }
                lemma_lines_at_line_feed(rest, at - start);
                assert(rest.take(at - start) =~= line@);
                assert(rest.skip(at - start + 1) =~= source@.skip(at + 1));
            }
            let length = line.len();
            if length > 0 && line[length - 1] == '\r' {
                line.pop();
                assert(line@ =~= without_carriage_return(rest.take(at - start)));
            }
            let word = string_of(&line);
            proof {
                assert(texts(words@.push(word)) =~= texts(words@).push(word@));
                assert(texts(words@).push(word@) + lines_of(source@.skip(at + 1)) =~= texts(
                    words@,
                ) + (seq![word@] + lines_of(source@.skip(at + 1))));
                start = at + 1;
            }
            words.push(word);
            line.clear();
            assert(line@ =~= source@.subrange(start, at + 1));
        } else {
            line.push(c);
            assert(line@ =~= source@.subrange(start, at + 1));
        }
    }
    proof {
        let rest = source@.skip(start);
        assert(rest =~= line@);
        lemma_lines_of_last_line(rest);
    }
    if line.len() > 0 {
        let word = string_of(&line);
        proof {
            assert(texts(words@.push(word)) =~= texts(words@).push(word@));
            assert(texts(words@).push(word@) =~= texts(words@) + seq![word@]);
        }
        words.push(word);
    } else {
        assert(texts(words@) + Seq::<Seq<char>>::empty() =~= texts(words@));
    }
    words
}

#[verifier::external_type_specification]
#[verifier::external_body]
pub struct ExThreadRng(ThreadRng);

/// `rand::thread_rng`: a handle to the thread's random number generator.
/// Nothing is claimed of it.
pub assume_specification[ rand::thread_rng ]() -> (rng: ThreadRng)
;

/// `SliceRandom::choose` of `rand`, on a slice of strings: `None` for an
/// empty slice, else a reference to one of its elements, picked by `rng`.
/// Which element is not stated.
#[verifier::external_body]
fn choose_word<'a>(words: &'a Vec<String>, rng: &mut ThreadRng) -> (word: Option<&'a String>)
    ensures
        match word {
            Some(w) => words@.contains(*w),
            None => words@.len() == 0,
        },
{
    words.choose(rng)
}

/// Draws the prompts of a session: `PROMPT_COUNT` words, each picked at
/// random from `words`, which may give a word more than once. The list of
/// words must not be empty.
pub fn generate_prompts(words: &Vec<String>) -> (prompts: Vec<String>)
    requires
        words@.len() > 0,
    ensures
        prompts@.len() == PROMPT_COUNT,
        forall|i: int| 0 <= i < prompts@.len() ==> words@.contains(#[trigger] prompts@[i]),
{
    let mut rng = rand::thread_rng();
    let mut prompts: Vec<String> = Vec::new();
    while prompts.len() < PROMPT_COUNT
        invariant
            words@.len() > 0,
            prompts@.len() <= PROMPT_COUNT,
            forall|i: int| 0 <= i < prompts@.len() ==> words@.contains(#[trigger] prompts@[i]),
        decreases PROMPT_COUNT - prompts@.len(),
    {
        let word = choose_word(words, &mut rng).unwrap();
        prompts.push(word.clone());
    }
    prompts
}

} // verus!
