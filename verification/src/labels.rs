//! A label mapping: keys bound to values, viewed as a mathematical map.

use vstd::prelude::*;

verus! {

/// The sequence of (key, value) views of an entry sequence.
pub open spec fn pairs_view(s: Seq<(String, String)>) -> Seq<(Seq<char>, Seq<char>)> {
    s.map_values(|p: (String, String)| (p.0@, p.1@))
}

/// The mapping an entry sequence denotes: each key is bound to the value of
/// its last entry.
pub open spec fn label_map_of(s: Seq<(Seq<char>, Seq<char>)>) -> Map<Seq<char>, Seq<char>>
    decreases s.len(),
{
    if s.len() == 0 {
        Map::empty()
    } else {
        label_map_of(s.drop_last()).insert(s.last().0, s.last().1)
    }
}

/// A mapping from label keys to label values, stored as an entry list in
/// insertion order. A later entry for a key shadows any earlier one, so the
/// abstract view — the map the entries denote — is what every contract speaks
/// of.
pub struct LabelMap {
    pairs: Vec<(String, String)>,
}

impl View for LabelMap {
    type V = Map<Seq<char>, Seq<char>>;

    closed spec fn view(&self) -> Map<Seq<char>, Seq<char>> {
        label_map_of(pairs_view(self.pairs@))
    }
}

impl LabelMap {
    /// The empty mapping.
    pub fn new() -> (m: LabelMap)
        ensures
            m@ == Map::<Seq<char>, Seq<char>>::empty(),
    {
        let m = LabelMap { pairs: Vec::new() };
        proof {
            assert(pairs_view(m.pairs@) =~= Seq::<(Seq<char>, Seq<char>)>::empty());
        }
        m
    }

    /// Bind `key` to `value`, replacing any existing binding of `key` and
    /// leaving every other binding unchanged.
    pub fn insert(&mut self, key: String, value: String)
        ensures
            final(self)@ == old(self)@.insert(key@, value@),
    {
        let ghost kv = key@;
        let ghost vv = value@;
        let ghost s0 = pairs_view(old(self).pairs@);
        self.pairs.push((key, value));
        proof {
            let s1 = pairs_view(self.pairs@);
            assert(s1.last() == (kv, vv));
            assert(s1.drop_last() =~= s0);
        }
    }

    /// Look up the value bound to `key`, scanning entries from the most
    /// recent backwards.
    pub fn get(&self, key: &str) -> (r: Option<&String>)
        ensures
            match r {
                Some(v) => self@.contains_key(key@) && v@ == self@[key@],
                None => !self@.contains_key(key@),
            },
    {
        let kq: String = key.to_owned();
        let ghost s = pairs_view(self.pairs@);
        let mut i: usize = self.pairs.len();
        proof {
            assert(s.take(i as int) =~= s);
        }
        while i > 0
            invariant
                i <= self.pairs.len(),
                kq@ == key@,
                s == pairs_view(self.pairs@),
                self@.contains_key(key@) == label_map_of(s.take(i as int)).contains_key(key@),
                self@.contains_key(key@) ==> self@[key@] == label_map_of(s.take(i as int))[key@],
            decreases i,
        {
            i = i - 1;
            let p = &self.pairs[i];
            proof {
                assert(s.take(i as int + 1).drop_last() =~= s.take(i as int));
                assert(s.take(i as int + 1).last() == (p.0@, p.1@));
            }
            if p.0 == kq {
                return Some(&p.1);
            }
        }
        proof {
            assert(s.take(0) =~= Seq::<(Seq<char>, Seq<char>)>::empty());
        }
        None
    }

    /// Whether `key` is bound exactly to `value`.
    pub fn contains_pair(&self, key: &str, value: &str) -> (r: bool)
        ensures
            r == (self@.contains_key(key@) && self@[key@] == value@),
    {
        match self.get(key) {
            Some(v) => {
                let vq: String = value.to_owned();
                *v == vq
            },
            None => false,
        }
    }

    /// The underlying entries, in insertion order; the last entry for a key
    /// is its binding.
    pub fn entries(&self) -> (r: &Vec<(String, String)>)
        ensures
            label_map_of(pairs_view(r@)) == self@,
    {
        &self.pairs
    }
}

} // verus!
