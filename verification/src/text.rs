//! Verified helpers on strings.

use vstd::prelude::*;
use vstd::string::*;

verus! {

/// How many copies of `mark` stand at the front of `text` before the first
/// other character.
pub open spec fn leading_run(text: Seq<char>, mark: char) -> nat
    decreases text.len(),
{
    if text.len() > 0 && text[0] == mark {
        1 + leading_run(text.drop_first(), mark)
    } else {
        0
    }
}

/// `text` with every leading `mark` removed and the rest untouched.
pub open spec fn without_leading(text: Seq<char>, mark: char) -> Seq<char> {
    text.subrange(leading_run(text, mark) as int, text.len() as int)
}

/// The leading run lies inside the text, consists of `mark` only, and is
/// followed by something else or by the end of the text.
pub proof fn lemma_leading_run(text: Seq<char>, mark: char)
    ensures
        leading_run(text, mark) <= text.len(),
        forall|i: int| 0 <= i < leading_run(text, mark) ==> text[i] == mark,
        leading_run(text, mark) < text.len() ==> text[leading_run(text, mark) as int] != mark,
    decreases text.len(),
{
    if text.len() > 0 && text[0] == mark {
        let rest = text.drop_first();
        lemma_leading_run(rest, mark);
        assert forall|i: int| 0 <= i < leading_run(text, mark) implies text[i] == mark by {
            if i > 0 {
                assert(text[i] == rest[i - 1]);
            }
        }
        if leading_run(text, mark) < text.len() {
            assert(text[leading_run(text, mark) as int] == rest[leading_run(rest, mark) as int]);
        }
    }
}

/// A position that ends a run of `mark` from the front, with another character
/// or the end of the text behind it, is the leading run.
pub proof fn lemma_leading_run_is(text: Seq<char>, mark: char, cut: int)
    requires
        0 <= cut <= text.len(),
        forall|i: int| 0 <= i < cut ==> text[i] == mark,
        cut < text.len() ==> text[cut] != mark,
    ensures
        leading_run(text, mark) == cut,
    decreases text.len(),
{
    if cut > 0 {
        let rest = text.drop_first();
        assert forall|i: int| 0 <= i < cut - 1 implies rest[i] == mark by {
            assert(rest[i] == text[i + 1]);
        }
        if cut - 1 < rest.len() {
            assert(rest[cut - 1] == text[cut]);
        }
        lemma_leading_run_is(rest, mark, cut - 1);
    }
}

/// What [`without_leading`] returns never starts with `mark`, and stripping it
/// again changes nothing.
pub proof fn lemma_without_leading_is_stripped(text: Seq<char>, mark: char)
    ensures
        without_leading(text, mark).len() > 0 ==> without_leading(text, mark)[0] != mark,
        without_leading(without_leading(text, mark), mark) == without_leading(text, mark),
{
    lemma_leading_run(text, mark);
    let stripped = without_leading(text, mark);
    lemma_leading_run_is(stripped, mark, 0);
    assert(stripped.subrange(0, stripped.len() as int) == stripped);
}

/// A text that does not start with `mark` is left as it is.
pub proof fn lemma_without_leading_keeps(text: Seq<char>, mark: char)
    requires
        text.len() == 0 || text[0] != mark,
    ensures
        without_leading(text, mark) == text,
{
    assert(text.subrange(0, text.len() as int) == text);
}

/// Removes every leading `mark` from `text`.
pub fn strip_leading(text: &str, mark: char) -> (stripped: String)
    ensures
        stripped@ == without_leading(text@, mark),
{
    let length = text.unicode_len();
    let mut cut: usize = 0;
    while cut < length && text.get_char(cut) == mark
        invariant
            cut <= length,
            length == text@.len(),
            forall|i: int| 0 <= i < cut ==> text@[i] == mark,
        decreases length - cut,
    {
        cut = cut + 1;
    }
    proof {
        lemma_leading_run_is(text@, mark, cut as int);
    }
    text.substring_char(cut, length).to_owned()
}

} // verus!
