//! Views of sequences, element by element.

use vstd::prelude::*;

verus! {

/// The views of the elements of `s`, in order.
pub open spec fn views<T: View>(s: Seq<T>) -> Seq<T::V> {
    s.map_values(|e: T| e@)
}

/// An empty sequence has no views.
pub proof fn lemma_views_empty<T: View>()
    ensures
        views(Seq::<T>::empty()) == Seq::<T::V>::empty(),
{
    assert(views(Seq::<T>::empty()) =~= Seq::<T::V>::empty());
}

/// The views of a sequence with one more element are the views of the
/// sequence with the view of the element.
pub proof fn lemma_views_push<T: View>(s: Seq<T>, e: T)
    ensures
        views(s.push(e)) == views(s).push(e@),
{
    assert(views(s.push(e)) =~= views(s).push(e@));
}

/// The view of a pair of texts.
pub open spec fn pair_view(p: (String, String)) -> (Seq<char>, Seq<char>) {
    (p.0@, p.1@)
}

/// The views of a sequence of pairs of texts, in order.
pub open spec fn pair_views(s: Seq<(String, String)>) -> Seq<(Seq<char>, Seq<char>)> {
    s.map_values(|p: (String, String)| pair_view(p))
}

/// The views of a sequence with one more pair are the views of the
/// sequence with the view of the pair.
pub proof fn lemma_pair_views_push(s: Seq<(String, String)>, p: (String, String))
    ensures
        pair_views(s.push(p)) == pair_views(s).push(pair_view(p)),
{
    assert(pair_views(s.push(p)) =~= pair_views(s).push(pair_view(p)));
}

/// Copies a list of texts.
pub fn clone_texts(texts: &Vec<String>) -> (copy: Vec<String>)
    ensures
        views(copy@) == views(texts@),
{
    let mut copy: Vec<String> = Vec::new();
    let mut i: usize = 0;
    while i < texts.len()
        invariant
            i <= texts.len(),
            views(copy@) == views(texts@.take(i as int)),
        decreases texts.len() - i,
    {
        proof {
            lemma_views_push(copy@, texts@[i as int]);
            assert(texts@.take(i as int).push(texts@[i as int]) =~= texts@.take(i as int + 1));
            lemma_views_push(texts@.take(i as int), texts@[i as int]);
        }
        copy.push(texts[i].clone());
        i = i + 1;
    }
    assert(texts@.take(i as int) =~= texts@);
    copy
}

/// Copies a list of pairs of texts.
pub fn clone_text_pairs(pairs: &Vec<(String, String)>) -> (copy: Vec<(String, String)>)
    ensures
        pair_views(copy@) == pair_views(pairs@),
{
    let mut copy: Vec<(String, String)> = Vec::new();
    let mut i: usize = 0;
    while i < pairs.len()
        invariant
            i <= pairs.len(),
            pair_views(copy@) == pair_views(pairs@.take(i as int)),
        decreases pairs.len() - i,
    {
        let pair = (pairs[i].0.clone(), pairs[i].1.clone());
        proof {
            lemma_pair_views_push(copy@, pair);
            assert(pairs@.take(i as int).push(pairs@[i as int]) =~= pairs@.take(i as int + 1));
            lemma_pair_views_push(pairs@.take(i as int), pairs@[i as int]);
        }
        copy.push(pair);
        i = i + 1;
    }
    assert(pairs@.take(i as int) =~= pairs@);
    copy
}

/// Copies a list of bytes.
pub fn clone_bytes(bytes: &Vec<u8>) -> (copy: Vec<u8>)
    ensures
        copy@ == bytes@,
{
    let mut copy: Vec<u8> = Vec::new();
    let mut i: usize = 0;
    while i < bytes.len()
        invariant
            i <= bytes.len(),
            copy@ == bytes@.take(i as int),
        decreases bytes.len() - i,
    {
        copy.push(bytes[i]);
        assert(bytes@.take(i as int).push(bytes@[i as int]) =~= bytes@.take(i as int + 1));
        i = i + 1;
    }
    assert(bytes@.take(i as int) =~= bytes@);
    copy
}

/// The view of a text that may be absent.
pub open spec fn option_view(text: Option<String>) -> Option<Seq<char>> {
    match text {
        Some(text) => Some(text@),
        None => None,
    }
}

/// The views of a sequence of texts that may be absent, in order.
pub open spec fn option_views(s: Seq<Option<String>>) -> Seq<Option<Seq<char>>> {
    s.map_values(|text: Option<String>| option_view(text))
}

} // verus!
