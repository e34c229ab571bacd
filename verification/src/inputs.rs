//! The `sys.inputs` dictionary that a document sees, built from key/value pairs.
use vstd::prelude::*;

use typst::foundations::{Dict, IntoValue, Str};

verus! {

/// The dictionary type of Typst, seen by Verus as an opaque value.
#[verifier::external_type_specification]
#[verifier::external_body]
pub struct ExDict(Dict);

/// The pairs that a dictionary holds, in its order: each key with the text of
/// its value (the dictionaries of this crate only ever hold string values).
pub uninterp spec fn dict_pairs(dict: Dict) -> Seq<(Seq<char>, Seq<char>)>;

/// A key/value pair of text.
pub type TextPair = (Seq<char>, Seq<char>);

/// Whether `key` is the key of some pair in `pairs`.
pub open spec fn has_key(pairs: Seq<TextPair>, key: Seq<char>) -> bool {
    exists|i: int| 0 <= i < pairs.len() && #[trigger] pairs[i].0 == key
}

/// The index of a pair with the given key (meaningful only where one exists).
pub open spec fn index_of_key(pairs: Seq<TextPair>, key: Seq<char>) -> int {
    choose|i: int| 0 <= i < pairs.len() && #[trigger] pairs[i].0 == key
}

/// What an insertion makes of an ordered map: a pair whose key is already
/// there gets the new value in its old place; any other pair goes to the end.
pub open spec fn with_pair(pairs: Seq<TextPair>, key: Seq<char>, value: Seq<char>) -> Seq<TextPair> {
    if has_key(pairs, key) {
        pairs.update(index_of_key(pairs, key), (key, value))
    } else {
        pairs.push((key, value))
    }
}

/// No two pairs share a key.
pub open spec fn keys_distinct(pairs: Seq<TextPair>) -> bool {
    forall|i: int, j: int|
        0 <= i < pairs.len() && 0 <= j < pairs.len() && i != j ==> #[trigger] pairs[i].0
            != #[trigger] pairs[j].0
}

/// The pairs of the dictionary that inserting `inputs` in order into an empty
/// one gives.
pub open spec fn pairs_of_inputs(inputs: Seq<TextPair>) -> Seq<TextPair>
    decreases inputs.len(),
{
    if inputs.len() == 0 {
        Seq::empty()
    } else {
        with_pair(pairs_of_inputs(inputs.drop_last()), inputs.last().0, inputs.last().1)
    }
}

/// The pairs of text that a slice of string pairs holds.
pub open spec fn text_pairs(inputs: Seq<(String, String)>) -> Seq<TextPair> {
    inputs.map_values(|p: (String, String)| (p.0@, p.1@))
}

/// The value that the last pair with the given key in `inputs` carries.
pub open spec fn last_value(inputs: Seq<TextPair>, key: Seq<char>) -> Seq<char>
    recommends
        has_key(inputs, key),
    decreases inputs.len(),
{
    if inputs.len() == 0 {
        Seq::empty()
    } else if inputs.last().0 == key {
        inputs.last().1
    } else {
        last_value(inputs.drop_last(), key)
    }
}

/// The index of the first input pair with the given key (meaningful only
/// where one exists).
pub open spec fn first_index(inputs: Seq<TextPair>, key: Seq<char>) -> int
    decreases inputs.len(),
{
    if inputs.len() == 0 {
        0
    } else if has_key(inputs.drop_last(), key) {
        first_index(inputs.drop_last(), key)
    } else {
        inputs.len() - 1
    }
}

/// Calls `Dict::new`: the new dictionary holds no pair.
#[verifier::external_body]
fn dict_new() -> (dict: Dict)
    ensures
        dict_pairs(dict) == Seq::<TextPair>::empty(),
{
    Dict::new()
}

/// Calls `Dict::insert` with `key` as a `Str` and `value` as a string value.
/// Claims what the dictionary's ordered map does on an insertion: the pair
/// whose key is already there gets the new value in its place, a new key is
/// appended at the end.
#[verifier::external_body]
fn dict_insert(dict: &mut Dict, key: &str, value: &str)
    ensures
        dict_pairs(*final(dict)) == with_pair(dict_pairs(*old(dict)), key@, value@),
{
    dict.insert(Str::from(key), value.into_value());
}

/// Converts the input pairs to a dictionary, as `sys.inputs` will see it:
/// the pairs are inserted in order, so that a later pair with the same key
/// overrides the value of an earlier one.
pub fn inputs_dict(inputs: &[(String, String)]) -> (dict: Dict)
    ensures
        dict_pairs(dict) == pairs_of_inputs(text_pairs(inputs@)),
{
    let mut dict = dict_new();
    let n = inputs.len();
    let mut i: usize = 0;
    while i < n
        invariant
            n == inputs@.len(),
            i <= n,
            dict_pairs(dict) == pairs_of_inputs(text_pairs(inputs@).take(i as int)),
        decreases n - i,
    {
        let (key, value) = &inputs[i];
        dict_insert(&mut dict, key.as_str(), value.as_str());
        proof {
            let t = text_pairs(inputs@);
            assert(t.take(i + 1).drop_last() =~= t.take(i as int));
        }
        i = i + 1;
    }
    proof {
        assert(text_pairs(inputs@).take(n as int) =~= text_pairs(inputs@));
    }
    dict
}

/// Building the dictionary never leaves two pairs with the same key.
pub proof fn lemma_inputs_keys_distinct(inputs: Seq<TextPair>)
    ensures
        keys_distinct(pairs_of_inputs(inputs)),
    decreases inputs.len(),
{
    if inputs.len() > 0 {
        lemma_inputs_keys_distinct(inputs.drop_last());
    }
}

/// A key is in the dictionary exactly when some input pair carries it.
pub proof fn lemma_inputs_keys(inputs: Seq<TextPair>, key: Seq<char>)
    ensures
        has_key(pairs_of_inputs(inputs), key) == has_key(inputs, key),
    decreases inputs.len(),
{
    if inputs.len() > 0 {
        let prev = inputs.drop_last();
        lemma_inputs_keys(prev, key);
        let p = pairs_of_inputs(prev);
        let q = pairs_of_inputs(inputs);
        let (k, v) = inputs.last();
        if has_key(p, k) {
            let j = index_of_key(p, k);
            if has_key(inputs, key) {
                let w = choose|i: int| 0 <= i < inputs.len() && #[trigger] inputs[i].0 == key;
                if w == inputs.len() - 1 {
                    assert(q[j].0 == key);
                } else {
                    assert(prev[w].0 == key);
                    let u = choose|i: int| 0 <= i < p.len() && #[trigger] p[i].0 == key;
                    assert(q[u].0 == key);
                }
            }
            if has_key(q, key) {
                let u = choose|i: int| 0 <= i < q.len() && #[trigger] q[i].0 == key;
                if u == j {
                    assert(inputs[inputs.len() - 1].0 == key);
                } else {
                    assert(p[u].0 == key);
                    let w = choose|i: int| 0 <= i < prev.len() && #[trigger] prev[i].0 == key;
                    assert(inputs[w].0 == key);
                }
            }
        } else {
            if has_key(inputs, key) {
                let w = choose|i: int| 0 <= i < inputs.len() && #[trigger] inputs[i].0 == key;
                if w == inputs.len() - 1 {
                    assert(q[q.len() - 1].0 == key);
                } else {
                    assert(prev[w].0 == key);
                    let u = choose|i: int| 0 <= i < p.len() && #[trigger] p[i].0 == key;
                    assert(q[u].0 == key);
                }
            }
            if has_key(q, key) {
                let u = choose|i: int| 0 <= i < q.len() && #[trigger] q[i].0 == key;
                if u == q.len() - 1 {
                    assert(inputs[inputs.len() - 1].0 == key);
                } else {
                    assert(p[u].0 == key);
                    let w = choose|i: int| 0 <= i < prev.len() && #[trigger] prev[i].0 == key;
                    assert(inputs[w].0 == key);
                }
            }
        }
    }
}

/// The value that the dictionary holds for a key is the one that the last
/// input pair with that key gives: later inputs override earlier ones.
pub proof fn lemma_inputs_last_wins(inputs: Seq<TextPair>, key: Seq<char>)
    requires
        has_key(inputs, key),
    ensures
        has_key(pairs_of_inputs(inputs), key),
        pairs_of_inputs(inputs)[index_of_key(pairs_of_inputs(inputs), key)].1 == last_value(
            inputs,
            key,
        ),
    decreases inputs.len(),
{
    lemma_inputs_keys(inputs, key);
    lemma_inputs_keys_distinct(inputs);
    let prev = inputs.drop_last();
    let p = pairs_of_inputs(prev);
    let q = pairs_of_inputs(inputs);
    let (k, v) = inputs.last();
    lemma_inputs_keys_distinct(prev);
    let u = index_of_key(q, key);
    if k == key {
        if has_key(p, k) {
            let j = index_of_key(p, k);
            assert(q[j].0 == key);
            assert(u == j);
        } else {
            assert(q[q.len() - 1].0 == key);
            assert(u == q.len() - 1);
        }
    } else {
        let w = choose|i: int| 0 <= i < inputs.len() && #[trigger] inputs[i].0 == key;
        assert(w != inputs.len() - 1);
        assert(prev[w].0 == key);
        lemma_inputs_last_wins(prev, key);
        let t = index_of_key(p, key);
        assert(q[t].0 == key);
        assert(u == t);
    }
}

/// The first input pair with a key is at an index below the length and
/// carries the key.
proof fn lemma_first_index(inputs: Seq<TextPair>, key: Seq<char>)
    requires
        has_key(inputs, key),
    ensures
        0 <= first_index(inputs, key) < inputs.len(),
        inputs[first_index(inputs, key)].0 == key,
        forall|i: int| 0 <= i < first_index(inputs, key) ==> #[trigger] inputs[i].0 != key,
    decreases inputs.len(),
{
    let prev = inputs.drop_last();
    if has_key(prev, key) {
        lemma_first_index(prev, key);
        assert forall|i: int| 0 <= i < first_index(inputs, key) implies #[trigger] inputs[i].0
            != key by {
            assert(prev[i] == inputs[i]);
        }
    } else {
        let w = choose|i: int| 0 <= i < inputs.len() && #[trigger] inputs[i].0 == key;
        if w < inputs.len() - 1 {
            assert(prev[w].0 == key);
        }
        assert forall|i: int| 0 <= i < first_index(inputs, key) implies #[trigger] inputs[i].0
            != key by {
            if inputs[i].0 == key {
                assert(prev[i].0 == key);
            }
        }
    }
}

/// The keys of the dictionary keep the order in which they first occur in
/// the inputs: a key given again later keeps its place.
pub proof fn lemma_inputs_first_order(inputs: Seq<TextPair>)
    ensures
        forall|g: int, h: int|
            0 <= g < h < pairs_of_inputs(inputs).len() ==> first_index(
                inputs,
                #[trigger] pairs_of_inputs(inputs)[g].0,
            ) < first_index(inputs, #[trigger] pairs_of_inputs(inputs)[h].0),
        forall|g: int|
            0 <= g < pairs_of_inputs(inputs).len() ==> has_key(
                inputs,
                #[trigger] pairs_of_inputs(inputs)[g].0,
            ),
    decreases inputs.len(),
{
    if inputs.len() > 0 {
        let prev = inputs.drop_last();
        lemma_inputs_first_order(prev);
        let p = pairs_of_inputs(prev);
        let q = pairs_of_inputs(inputs);
        let (k, v) = inputs.last();
        assert forall|g: int| 0 <= g < q.len() implies has_key(inputs, #[trigger] q[g].0) by {
            if g < p.len() && q[g].0 == p[g].0 {
                let w = choose|i: int| 0 <= i < prev.len() && #[trigger] prev[i].0 == p[g].0;
                assert(inputs[w].0 == q[g].0);
            } else {
                assert(q[g].0 == k);
                assert(inputs[inputs.len() - 1].0 == k);
            }
        }
        // Keys already present keep their first index.
        assert forall|g: int| 0 <= g < p.len() implies first_index(inputs, #[trigger] p[g].0)
            == first_index(prev, p[g].0) by {
            assert(has_key(prev, p[g].0));
        }
        if has_key(p, k) {
            assert forall|g: int| 0 <= g < q.len() implies #[trigger] q[g].0 == p[g].0 by {}
            assert(q.len() == p.len());
        } else {
            lemma_inputs_keys(prev, k);
            assert(!has_key(prev, k));
            assert(first_index(inputs, k) == inputs.len() - 1);
            assert forall|g: int| 0 <= g < p.len() implies first_index(inputs, #[trigger] p[g].0)
                < inputs.len() - 1 by {
                lemma_first_index(prev, p[g].0);
            }
            assert(q[q.len() - 1].0 == k);
        }
        assert forall|g: int, h: int| 0 <= g < h < q.len() implies first_index(
            inputs,
            #[trigger] q[g].0,
        ) < first_index(inputs, #[trigger] q[h].0) by {
            if h < p.len() {
                assert(q[g].0 == p[g].0);
                assert(q[h].0 == p[h].0);
            } else {
                assert(q[g].0 == p[g].0);
            }
        }
    }
}

} // verus!
