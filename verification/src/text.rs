//! Joining words into one line of text.

use itertools::Itertools;
use vstd::prelude::*;
use vstd::string::*;

verus! {

/// Where an item stands among the items of a sequence.
enum Position<T> {
    /// The first of several items.
    First(T),
    /// Neither the first nor the last item.
    Middle(T),
    /// The last of several items.
    Last(T),
    /// The one item of a sequence of length one.
    Only(T),
}

/// The item at index `i` of `len` items, marked with its position.
spec fn mark<T>(item: T, i: int, len: int) -> Position<T> {
    if len == 1 {
        Position::Only(item)
    } else if i == 0 {
        Position::First(item)
    } else if i == len - 1 {
        Position::Last(item)
    } else {
        Position::Middle(item)
    }
}

/// The words in order, with `sep` between each two neighbours and nowhere
/// else.
pub open spec fn join(words: Seq<Seq<char>>, sep: Seq<char>) -> Seq<char>
    decreases words.len(),
{
    if words.len() == 0 {
        Seq::empty()
    } else if words.len() == 1 {
        words[0]
    } else {
        join(words.drop_last(), sep) + sep + words.last()
    }
}

/// Joining can as well be read from the front: the first word, the
/// separator, and the rest joined.
pub proof fn lemma_join_front(words: Seq<Seq<char>>, sep: Seq<char>)
    requires
        words.len() >= 2,
    ensures
        join(words, sep) == words[0] + sep + join(words.skip(1), sep),
    decreases words.len(),
{
    let rest = words.skip(1);
    assert(rest.last() == words.last());
    if words.len() == 2 {
        assert(join(words.drop_last(), sep) == words[0]);
        assert(join(rest, sep) == words[1]);
        assert(join(words, sep) =~= words[0] + sep + join(rest, sep));
    } else {
        let front = words.drop_last();
        lemma_join_front(front, sep);
        assert(front.skip(1) =~= rest.drop_last());
        assert(join(words, sep) == join(front, sep) + sep + words.last());
        assert(join(rest, sep) == join(rest.drop_last(), sep) + sep + rest.last());
        assert(join(words, sep) =~= words[0] + sep + join(rest, sep));
    }
}

/// The separator stands between words only: what is joined begins with the
/// first word and ends with the last.
pub proof fn lemma_join_ends(words: Seq<Seq<char>>, sep: Seq<char>)
    requires
        words.len() >= 1,
    ensures
        words[0].is_prefix_of(join(words, sep)),
        words.last().is_suffix_of(join(words, sep)),
    decreases words.len(),
{
    let joined = join(words, sep);
    if words.len() == 1 {
        assert(joined.subrange(0, joined.len() as int) =~= joined);
    } else {
        let front = join(words.drop_last(), sep);
        lemma_join_ends(words.drop_last(), sep);
        assert(front.subrange(0, words[0].len() as int) == words[0]);
        assert(joined.subrange(0, words[0].len() as int) =~= front.subrange(
            0,
            words[0].len() as int,
        ));
        assert(joined.subrange(joined.len() - words.last().len(), joined.len() as int)
            =~= words.last());
    }
}

/// Calls `itertools::Itertools::with_position` on the items of the vector.
///
/// Trusted: the adaptor yields every item once, in order, wrapped in the
/// variant that tells whether it is the only, the first, the last or an inner
/// item.
#[verifier::external_body]
fn with_position<T>(items: Vec<T>) -> (placed: Vec<Position<T>>)
    ensures
        placed@.len() == items@.len(),
        forall|i: int|
            0 <= i < items@.len() ==> #[trigger] placed@[i] == mark(
                items@[i],
                i,
                items@.len() as int,
            ),
{
    items.into_iter().with_position().map(|p| match p {
        itertools::Position::First(item) => Position::First(item),
        itertools::Position::Middle(item) => Position::Middle(item),
        itertools::Position::Last(item) => Position::Last(item),
        itertools::Position::Only(item) => Position::Only(item),
    }).collect()
}

/// Joins the words with `sep` between them.
pub fn join_with(words: Vec<String>, sep: &str) -> (joined: String)
    ensures
        joined@ == join(words.deep_view(), sep@),
{
    let ghost items = words@;
    let ghost texts = words.deep_view();
    let placed = with_position(words);
    let mut joined = String::new();
    let mut i: usize = 0;
    while i < placed.len()
        invariant
            i <= placed@.len(),
            placed@.len() == items.len(),
            forall|k: int|
                0 <= k < placed@.len() ==> #[trigger] placed@[k] == mark(
                    items[k],
                    k,
                    placed@.len() as int,
                ),
            texts.len() == items.len(),
            forall|k: int| 0 <= k < items.len() ==> #[trigger] texts[k] == items[k]@,
            joined@ == join(texts.take(i as int), sep@) + (if 0 < i < placed@.len() {
                sep@
            } else {
                Seq::empty()
            }),
        decreases placed@.len() - i,
    {
        proof {
            let upto = texts.take(i as int + 1);
            assert(upto.last() == texts[i as int]);
            assert(upto.drop_last() =~= texts.take(i as int));
        }
        match &placed[i] {
            Position::First(word) | Position::Middle(word) => {
                joined.append(word.as_str());
                joined.append(sep);
            },
            Position::Last(word) | Position::Only(word) => {
                joined.append(word.as_str());
            },
        }
        i += 1;
    }
    proof {
        assert(texts.take(i as int) =~= texts);
    }
    joined
}

} // verus!
