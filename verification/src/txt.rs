//! The text-attribute mapping a registration carries.

use vstd::prelude::*;

verus! {

/// The key/value pairs of `pairs`, each as its specification-level view.
pub open spec fn txt_views(pairs: Seq<(String, String)>) -> Seq<(Seq<char>, Seq<char>)> {
    pairs.map_values(|p: (String, String)| (p.0@, p.1@))
}

/// The value `key` maps to after the pairs of `pairs` were inserted in
/// order: the value of the last pair carrying that key, if any.
pub open spec fn txt_lookup(pairs: Seq<(Seq<char>, Seq<char>)>, key: Seq<char>) -> Option<
    Seq<char>,
>
    decreases pairs.len(),
{
    if pairs.len() == 0 {
        None
    } else if pairs.last().0 == key {
        Some(pairs.last().1)
    } else {
        txt_lookup(pairs.drop_last(), key)
    }
}

/// An ordered string-to-string attribute mapping with the overwrite
/// behavior of the platform's text-attribute map: pairs are kept in
/// insertion order, and a key inserted more than once reads as the value
/// inserted last.
pub struct TxtRecords {
    pairs: Vec<(String, String)>,
}

impl View for TxtRecords {
    type V = Seq<(Seq<char>, Seq<char>)>;

    closed spec fn view(&self) -> Seq<(Seq<char>, Seq<char>)> {
        txt_views(self.pairs@)
    }
}

impl TxtRecords {
    /// An empty mapping.
    pub fn new() -> (r: TxtRecords)
        ensures
            r@ == Seq::<(Seq<char>, Seq<char>)>::empty(),
    {
        let r = TxtRecords { pairs: Vec::new() };
        proof {
            assert(r@ =~= Seq::<(Seq<char>, Seq<char>)>::empty());
        }
        r
    }

    /// How many pairs were inserted.
    pub fn len(&self) -> (n: usize)
        ensures
            n == self@.len(),
    {
        self.pairs.len()
    }

    /// Appends one key/value pair.
    pub fn insert(&mut self, key: String, value: String)
        ensures
            final(self)@ == old(self)@.push((key@, value@)),
    {
        let ghost k: Seq<char> = key@;
        let ghost v: Seq<char> = value@;
        let ghost prior = self.pairs@;
        self.pairs.push((key, value));
        proof {
            assert(self@ =~= txt_views(prior).push((k, v)));
        }
    }

    /// The value most recently inserted for `key`, if the key was ever
    /// inserted.
    pub fn get(&self, key: &String) -> (r: Option<&String>)
        ensures
            match r {
                Some(v) => txt_lookup(self@, key@) == Some(v@),
                None => txt_lookup(self@, key@) is None,
            },
    {
        proof {
            assert(self@.take(self.pairs@.len() as int) =~= self@);
        }
        let mut i: usize = self.pairs.len();
        while i > 0
            invariant
                i <= self.pairs.len(),
                self@.len() == self.pairs@.len(),
                txt_lookup(self@, key@) == txt_lookup(self@.take(i as int), key@),
            decreases i,
        {
            proof {
                assert(self@[i - 1] == (self.pairs@[i - 1].0@, self.pairs@[i - 1].1@));
                assert(self@.take(i as int).last() == self@[i - 1]);
            }
            if self.pairs[i - 1].0 == *key {
                return Some(&self.pairs[i - 1].1);
            }
            proof {
                assert(self@.take(i as int).drop_last() =~= self@.take(i - 1));
            }
            i = i - 1;
        }
        proof {
            assert(self@.take(0).len() == 0);
        }
        None
    }
}

/// Law: every key that stands in the mapping's pair sequence is
/// retrievable — inserting a pair never makes an earlier or later key
/// unreachable.
pub proof fn lemma_inserted_key_retrievable(pairs: Seq<(Seq<char>, Seq<char>)>, i: int)
    requires
        0 <= i < pairs.len(),
    ensures
        txt_lookup(pairs, pairs[i].0) is Some,
    decreases pairs.len(),
{
    if i < pairs.len() - 1 && pairs.last().0 != pairs[i].0 {
        lemma_inserted_key_retrievable(pairs.drop_last(), i);
    }
}

/// Law: a duplicate key reads as the value inserted last — where the pair
/// at `i` carries `key` and no later pair does, looking `key` up yields
/// exactly that pair's value.
pub proof fn lemma_last_insert_wins(pairs: Seq<(Seq<char>, Seq<char>)>, key: Seq<char>, i: int)
    requires
        0 <= i < pairs.len(),
        pairs[i].0 == key,
        forall|j: int| i < j < pairs.len() ==> (#[trigger] pairs[j]).0 != key,
    ensures
        txt_lookup(pairs, key) == Some(pairs[i].1),
    decreases pairs.len(),
{
    if i < pairs.len() - 1 {
        assert(pairs[pairs.len() - 1].0 != key);
        lemma_last_insert_wins(pairs.drop_last(), key, i);
    }
}

} // verus!
