//! The resolved set of variable bindings handed to the renderer.
//!
//! A binding set is built from an ordered sequence of `(key, value)` pairs;
//! when a key is defined more than once, the last definition wins. Its
//! abstract value is therefore a finite map from variable names to values.

use vstd::prelude::*;

verus! {

/// The view of one ordered list of `(key, value)` pairs.
pub open spec fn pair_views(s: Seq<(String, String)>) -> Seq<(Seq<char>, Seq<char>)> {
    s.map_values(|p: (String, String)| (p.0@, p.1@))
}

/// The map defined by an ordered list of pairs: a later definition of a key
/// overrides an earlier one.
pub open spec fn map_of_pairs(s: Seq<(Seq<char>, Seq<char>)>) -> Map<Seq<char>, Seq<char>>
    decreases s.len(),
{
    if s.len() == 0 {
        Map::empty()
    } else {
        map_of_pairs(s.drop_last()).insert(s.last().0, s.last().1)
    }
}

/// The set of keys that appear in an ordered list of pairs.
pub open spec fn keys_of(s: Seq<(Seq<char>, Seq<char>)>) -> Set<Seq<char>>
    decreases s.len(),
{
    if s.len() == 0 {
        Set::empty()
    } else {
        keys_of(s.drop_last()).insert(s.last().0)
    }
}

/// The domain of the map of a pair list is exactly its key set.
pub proof fn lemma_map_of_pairs_dom(s: Seq<(Seq<char>, Seq<char>)>)
    ensures
        map_of_pairs(s).dom() == keys_of(s),
    decreases s.len(),
{
    if s.len() == 0 {
        assert(map_of_pairs(s).dom() =~= keys_of(s));
    } else {
        lemma_map_of_pairs_dom(s.drop_last());
        assert(map_of_pairs(s).dom() =~= keys_of(s));
    }
}

/// Concatenating two pair lists merges their maps, the second list winning on
/// any key both define.
pub proof fn lemma_map_of_pairs_concat(a: Seq<(Seq<char>, Seq<char>)>, b: Seq<(Seq<char>, Seq<char>)>)
    ensures
        map_of_pairs(a + b) == map_of_pairs(a).union_prefer_right(map_of_pairs(b)),
    decreases b.len(),
{
    if b.len() == 0 {
        assert(a + b =~= a);
        assert(map_of_pairs(a + b) =~= map_of_pairs(a).union_prefer_right(map_of_pairs(b)));
    } else {
        lemma_map_of_pairs_concat(a, b.drop_last());
        assert((a + b).drop_last() =~= a + b.drop_last());
        assert((a + b).last() == b.last());
        assert(map_of_pairs(a + b) =~= map_of_pairs(a).union_prefer_right(map_of_pairs(b)));
    }
}

/// The pair at a position binds its key if no later pair redefines the key.
pub proof fn lemma_map_of_pairs_get(s: Seq<(Seq<char>, Seq<char>)>, i: int, k: Seq<char>)
    requires
        0 <= i < s.len(),
        s[i].0 == k,
        forall|j: int| i < j < s.len() ==> s[j].0 != k,
    ensures
        map_of_pairs(s).dom().contains(k),
        map_of_pairs(s)[k] == s[i].1,
    decreases s.len(),
{
    if i == s.len() - 1 {
    } else {
        assert(s.last().0 != k);
        lemma_map_of_pairs_get(s.drop_last(), i, k);
    }
}

/// A key that no pair defines is not bound.
pub proof fn lemma_map_of_pairs_absent(s: Seq<(Seq<char>, Seq<char>)>, k: Seq<char>)
    requires
        forall|j: int| 0 <= j < s.len() ==> s[j].0 != k,
    ensures
        !map_of_pairs(s).dom().contains(k),
    decreases s.len(),
{
    if s.len() > 0 {
        lemma_map_of_pairs_absent(s.drop_last(), k);
    }
}

/// A fully resolved set of variable bindings, abstractly a map from variable
/// names to values.
pub struct BindingSet {
    pub(crate) pairs: Vec<(String, String)>,
}

impl View for BindingSet {
    type V = Map<Seq<char>, Seq<char>>;

    closed spec fn view(&self) -> Map<Seq<char>, Seq<char>> {
        map_of_pairs(pair_views(self.pairs@))
    }
}

impl BindingSet {
    /// The bindings defined by one ordered list of pairs, the last definition
    /// of a key winning.
    pub fn from_pairs(pairs: Vec<(String, String)>) -> (b: BindingSet)
        ensures
            b@ == map_of_pairs(pair_views(pairs@)),
    {
        BindingSet { pairs }
    }

    /// The bindings defined by a base list and an overlay list: every key of
    /// either is bound, and the overlay wins where both define a key.
    pub fn merged(base: Vec<(String, String)>, overlay: Vec<(String, String)>) -> (b: BindingSet)
        ensures
            b@ == map_of_pairs(pair_views(base@)).union_prefer_right(
                map_of_pairs(pair_views(overlay@)),
            ),
    {
        let ghost base0 = base@;
        let ghost overlay0 = overlay@;
        let mut pairs = base;
        let mut rest = overlay;
        pairs.append(&mut rest);
        proof {
            assert(pair_views(base0 + overlay0) =~= pair_views(base0) + pair_views(overlay0));
            lemma_map_of_pairs_concat(pair_views(base0), pair_views(overlay0));
        }
        BindingSet { pairs }
    }

    /// The value bound to `key`, if any: the value of the last pair that
    /// defines `key`.
    pub fn get(&self, key: &String) -> (r: Option<&String>)
        ensures
            match r {
                Some(v) => self@.dom().contains(key@) && self@[key@] == v@,
                None => !self@.dom().contains(key@),
            },
    {
        let mut i = self.pairs.len();
        while i > 0
            invariant
                i <= self.pairs.len(),
                forall|j: int| i <= j < self.pairs@.len() ==> self.pairs@[j].0@ != key@,
            decreases i,
        {
            i = i - 1;
            if self.pairs[i].0 == *key {
                proof {
                    lemma_map_of_pairs_get(pair_views(self.pairs@), i as int, key@);
                }
                return Some(&self.pairs[i].1);
            }
        }
        proof {
            lemma_map_of_pairs_absent(pair_views(self.pairs@), key@);
        }
        None
    }
}

} // verus!
