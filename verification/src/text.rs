//! Words joined by single spaces.

use vstd::prelude::*;

verus! {

/// The words in order, with one space between neighbours. No words give the
/// empty text.
pub open spec fn joined(words: Seq<Seq<char>>) -> Seq<char>
    decreases words.len(),
{
    if words.len() == 0 {
        Seq::empty()
    } else if words.len() == 1 {
        words[0]
    } else {
        joined(words.drop_last()) + seq![' '] + words.last()
    }
}

/// Joins the words with single spaces.
pub fn join(words: &Vec<String>) -> (text: String)
    ensures
        text@ == joined(words.deep_view()),
{
    let ghost all = words.deep_view();
    let mut text = String::new();
    let n: usize = words.len();
    let mut i: usize = 0;
    while i < n
        invariant
            i <= n,
            n == words@.len(),
            all == words.deep_view(),
            text@ == joined(all.take(i as int)),
        decreases n - i,
    {
        assert(all.take(i + 1).drop_last() =~= all.take(i as int));
        if i > 0 {
            proof {
                reveal_strlit(" ");
            }
            text.append(" ");
        }
        text.append(words[i].as_str());
        i = i + 1;
    }
    assert(all.take(n as int) =~= all);
    text
}

} // verus!
