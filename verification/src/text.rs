//! Texts as sequences of characters, and texts made of parts.

use vstd::prelude::*;

verus! {

/// The characters of an optional text.
pub open spec fn text_of(value: Option<&str>) -> Option<Seq<char>> {
    match value {
        Some(s) => Some(s@),
        None => None,
    }
}

/// The characters of each text.
pub open spec fn texts_of(texts: Seq<&str>) -> Seq<Seq<char>> {
    Seq::new(texts.len(), |i: int| texts[i]@)
}

/// The parts one after the other.
pub open spec fn joined(parts: Seq<Seq<char>>) -> Seq<char>
    decreases parts.len(),
{
    if parts.len() == 0 {
        Seq::empty()
    } else {
        joined(parts.drop_last()) + parts.last()
    }
}

/// Joining one part more appends it.
pub proof fn lemma_joined_take(parts: Seq<Seq<char>>, k: int)
    requires
        0 <= k < parts.len(),
    ensures
        joined(parts.take(k + 1)) == joined(parts.take(k)) + parts[k],
{
    assert(parts.take(k + 1).drop_last() =~= parts.take(k));
    assert(parts.take(k + 1).last() == parts[k]);
}

/// The first `k` parts, joined, are the start of all parts joined.
pub proof fn lemma_joined_prefix(parts: Seq<Seq<char>>, k: int)
    requires
        0 <= k <= parts.len(),
    ensures
        joined(parts.take(k)).len() <= joined(parts).len(),
        joined(parts).take(joined(parts.take(k)).len() as int) == joined(parts.take(k)),
    decreases parts.len() - k,
{
    if k == parts.len() {
        assert(parts.take(k) =~= parts);
        assert(joined(parts).take(joined(parts).len() as int) =~= joined(parts));
    } else {
        lemma_joined_prefix(parts, k + 1);
        lemma_joined_take(parts, k);
        let short = joined(parts.take(k));
        let long = joined(parts.take(k + 1));
        assert(joined(parts).take(short.len() as int) =~= long.take(short.len() as int));
        assert(long.take(short.len() as int) =~= short);
    }
}

/// Writes the parts one after the other into one text.
pub fn join_parts(parts: &Vec<&str>) -> (text: String)
    ensures
        text@ == joined(texts_of(parts@)),
{
    let mut text = String::new();
    let ghost all = texts_of(parts@);
    assert(all.take(0) =~= Seq::<Seq<char>>::empty());
    let mut i: usize = 0;
    while i < parts.len()
        invariant
            i <= parts.len(),
            all == texts_of(parts@),
            text@ == joined(all.take(i as int)),
        decreases parts.len() - i,
    {
        text.append(parts[i]);
        proof {
            lemma_joined_take(all, i as int);
        }
        i += 1;
    }
    assert(all.take(i as int) =~= all);
    text
}

} // verus!
