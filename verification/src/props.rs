//! The property map that the daemon attaches to every global object.

use vstd::prelude::*;
use crate::text::same_text;

verus! {

/// One property as mathematics: its key and its value.
pub type Pair = (Seq<char>, Seq<char>);

/// The position of the first pair with the given key, if there is one.
pub open spec fn position_of(pairs: Seq<Pair>, key: Seq<char>) -> Option<int>
    decreases pairs.len(),
{
    if pairs.len() == 0 {
        None
    } else if pairs[0].0 == key {
        Some(0)
    } else {
        match position_of(pairs.drop_first(), key) {
            Some(i) => Some(i + 1),
            None => None,
        }
    }
}

/// The value of the first pair with the given key, if there is one.
pub open spec fn value_of(pairs: Seq<Pair>, key: Seq<char>) -> Option<Seq<char>> {
    match position_of(pairs, key) {
        Some(i) => Some(pairs[i].1),
        None => None,
    }
}

/// No key occurs in two pairs.
pub open spec fn distinct_keys(pairs: Seq<Pair>) -> bool {
    forall|i: int, j: int|
        0 <= i < pairs.len() && 0 <= j < pairs.len() && i != j ==> (#[trigger] pairs[i]).0 != (
        #[trigger] pairs[j]).0
}

/// `pairs` after the key has been given the value: the pair that holds the key
/// keeps its place and takes the value, or a new pair is added at the end.
pub open spec fn with_pair(pairs: Seq<Pair>, key: Seq<char>, value: Seq<char>) -> Seq<Pair> {
    match position_of(pairs, key) {
        Some(i) => pairs.update(i, (key, value)),
        None => pairs.push((key, value)),
    }
}

/// The pairs that result from giving each key of `raw` its value in turn,
/// starting from nothing.
pub open spec fn collected(raw: Seq<Pair>) -> Seq<Pair>
    decreases raw.len(),
{
    if raw.len() == 0 {
        Seq::empty()
    } else {
        with_pair(collected(raw.drop_last()), raw.last().0, raw.last().1)
    }
}

/// What `position_of` finds, said without recursion.
pub proof fn lemma_position_of(pairs: Seq<Pair>, key: Seq<char>)
    ensures
        match position_of(pairs, key) {
            Some(i) => 0 <= i < pairs.len() && pairs[i].0 == key && forall|j: int|
                0 <= j < i ==> (#[trigger] pairs[j]).0 != key,
            None => forall|j: int| 0 <= j < pairs.len() ==> (#[trigger] pairs[j]).0 != key,
        },
    decreases pairs.len(),
{
    if pairs.len() > 0 && pairs[0].0 != key {
        let rest = pairs.drop_first();
        lemma_position_of(rest, key);
        match position_of(rest, key) {
            Some(i) => {
                assert forall|j: int| 0 <= j < i + 1 implies (#[trigger] pairs[j]).0 != key by {
                    if j > 0 {
                        assert(rest[j - 1] == pairs[j]);
                    }
                }
            },
            None => {
                assert forall|j: int| 0 <= j < pairs.len() implies (#[trigger] pairs[j]).0
                    != key by {
                    if j > 0 {
                        assert(rest[j - 1] == pairs[j]);
                    }
                }
            },
        }
    }
}

/// A position that holds the key first is the position that `position_of` finds.
pub proof fn lemma_position_of_first(pairs: Seq<Pair>, key: Seq<char>, at: int)
    requires
        0 <= at < pairs.len(),
        pairs[at].0 == key,
        forall|j: int| 0 <= j < at ==> (#[trigger] pairs[j]).0 != key,
    ensures
        position_of(pairs, key) == Some(at),
{
    lemma_position_of(pairs, key);
}

/// Giving a key a value keeps the keys distinct.
pub proof fn lemma_with_pair_distinct(pairs: Seq<Pair>, key: Seq<char>, value: Seq<char>)
    requires
        distinct_keys(pairs),
    ensures
        distinct_keys(with_pair(pairs, key, value)),
{
    lemma_position_of(pairs, key);
}

/// After a key has been given a value, that key has that value and every
/// other key has the value it had.
pub proof fn lemma_with_pair_value(
    pairs: Seq<Pair>,
    key: Seq<char>,
    value: Seq<char>,
    other: Seq<char>,
)
    ensures
        value_of(with_pair(pairs, key, value), other) == if other == key {
            Some(value)
        } else {
            value_of(pairs, other)
        },
{
    let after = with_pair(pairs, key, value);
    lemma_position_of(pairs, key);
    lemma_position_of(pairs, other);
    lemma_position_of(after, other);
    match position_of(pairs, key) {
        Some(i) => {
            if other == key {
                lemma_position_of_first(after, other, i);
            } else {
                match position_of(pairs, other) {
                    Some(k) => {
                        lemma_position_of_first(after, other, k);
                    },
                    None => {},
                }
            }
        },
        None => {
            if other == key {
                lemma_position_of_first(after, other, pairs.len() as int);
            } else {
                match position_of(pairs, other) {
                    Some(k) => {
                        lemma_position_of_first(after, other, k);
                    },
                    None => {},
                }
            }
        },
    }
}

/// Collecting raw pairs yields distinct keys.
pub proof fn lemma_collected_distinct(raw: Seq<Pair>)
    ensures
        distinct_keys(collected(raw)),
    decreases raw.len(),
{
    if raw.len() > 0 {
        lemma_collected_distinct(raw.drop_last());
        lemma_with_pair_distinct(collected(raw.drop_last()), raw.last().0, raw.last().1);
    }
}

/// A string-to-string map that remembers the order in which its keys arrived.
#[derive(Debug, PartialEq, Eq)]
pub struct Properties {
    entries: Vec<(String, String)>,
}

impl View for Properties {
    type V = Seq<Pair>;

    closed spec fn view(&self) -> Seq<Pair> {
        pairs_view(self.entries@)
    }
}

impl Properties {
    #[verifier::type_invariant]
    closed spec fn keys_are_distinct(&self) -> bool {
        distinct_keys(self@)
    }

    /// The map without any property.
    pub fn new() -> (props: Properties)
        ensures
            props@ == Seq::<Pair>::empty(),
    {
        let props = Properties { entries: Vec::new() };
        props
    }

    /// The number of properties. No two of them share a key.
    pub fn len(&self) -> (n: usize)
        ensures
            n == self@.len(),
            distinct_keys(self@),
    {
        proof {
            use_type_invariant(self);
        }
        self.entries.len()
    }

    /// The key of the property at a position.
    pub fn key_at(&self, index: usize) -> (key: &String)
        requires
            index < self@.len(),
        ensures
            key@ == self@[index as int].0,
    {
        &self.entries[index].0
    }

    /// The value of the property at a position.
    pub fn value_at(&self, index: usize) -> (value: &String)
        requires
            index < self@.len(),
        ensures
            value@ == self@[index as int].1,
    {
        &self.entries[index].1
    }

    fn find(&self, key: &str) -> (found: Option<usize>)
        ensures
            match found {
                Some(i) => position_of(self@, key@) == Some(i as int) && i < self@.len(),
                None => position_of(self@, key@) is None,
            },
    {
        let n = self.entries.len();
        let mut i: usize = 0;
        while i < n
            invariant
                i <= n,
                n == self.entries@.len(),
                n == self@.len(),
                forall|j: int| 0 <= j < i ==> (#[trigger] self@[j]).0 != key@,
            decreases n - i,
        {
            if same_text(self.entries[i].0.as_str(), key) {
                proof {
                    lemma_position_of_first(self@, key@, i as int);
                }
                return Some(i);
            }
            i += 1;
        }
        proof {
            lemma_position_of(self@, key@);
        }
        None
    }

    /// The value that a key has, if the map holds the key.
    pub fn get(&self, key: &str) -> (value: Option<&String>)
        ensures
            match value {
                Some(v) => value_of(self@, key@) == Some(v@),
                None => value_of(self@, key@) is None,
            },
    {
        match self.find(key) {
            Some(i) => Some(&self.entries[i].1),
            None => None,
        }
    }

    /// Gives a key a value: replaces the value that the key had, or adds the
    /// key after all others.
    pub fn insert(&mut self, key: String, value: String)
        ensures
            final(self)@ == with_pair(old(self)@, key@, value@),
    {
        proof {
            use_type_invariant(&*self);
            lemma_with_pair_distinct(self@, key@, value@);
        }
        let ghost before = self@;
        let found = self.find(key.as_str());
        let mut entries: Vec<(String, String)> = Vec::new();
        std::mem::swap(&mut self.entries, &mut entries);
        match found {
            Some(i) => {
                entries.set(i, (key, value));
            },
            None => {
                entries.push((key, value));
            },
        }
        proof {
            match found {
                Some(i) => {
                    assert(pairs_view(entries@) =~= before.update(i as int, (key@, value@)));
                },
                None => {
                    assert(pairs_view(entries@) =~= before.push((key@, value@)));
                },
            }
        }
        self.entries = entries;
    }

    /// Builds the map from raw pairs, each given in turn: of two pairs with
    /// one key the later value stays, at the place of the earlier.
    pub fn from_pairs(raw: &Vec<(String, String)>) -> (props: Properties)
        ensures
            props@ == collected(pairs_view(raw@)),
    {
        let mut props = Properties::new();
        let n = raw.len();
        let mut i: usize = 0;
        while i < n
            invariant
                i <= n,
                n == raw@.len(),
                props@ == collected(pairs_view(raw@).take(i as int)),
            decreases n - i,
        {
            let ghost all = pairs_view(raw@);
            assert(all.take(i + 1).drop_last() =~= all.take(i as int));
            props.insert(raw[i].0.clone(), raw[i].1.clone());
            i += 1;
        }
        assert(pairs_view(raw@).take(n as int) =~= pairs_view(raw@));
        props
    }
}

impl Clone for Properties {
    fn clone(&self) -> (copy: Self)
        ensures
            copy@ == self@,
    {
        proof {
            use_type_invariant(self);
        }
        let mut entries: Vec<(String, String)> = Vec::new();
        let n = self.entries.len();
        let mut i: usize = 0;
        while i < n
            invariant
                i <= n,
                n == self.entries@.len(),
                entries@.len() == i,
                forall|j: int|
                    0 <= j < i ==> (#[trigger] entries@[j]).0@ == self.entries@[j].0@
                        && entries@[j].1@ == self.entries@[j].1@,
            decreases n - i,
        {
            entries.push((self.entries[i].0.clone(), self.entries[i].1.clone()));
            i += 1;
        }
        assert(pairs_view(entries@) =~= self@);
        Properties { entries }
    }
}

/// Raw pairs as mathematics.
pub open spec fn pairs_view(raw: Seq<(String, String)>) -> Seq<Pair> {
    Seq::new(raw.len(), |i: int| (raw[i].0@, raw[i].1@))
}

/// The value of the first raw pair with the given key, if there is one.
pub fn lookup<'a>(raw: &'a Vec<(String, String)>, key: &str) -> (value: Option<&'a String>)
    ensures
        match value {
            Some(v) => value_of(pairs_view(raw@), key@) == Some(v@),
            None => value_of(pairs_view(raw@), key@) is None,
        },
{
    let ghost pairs = pairs_view(raw@);
    let n = raw.len();
    let mut i: usize = 0;
    while i < n
        invariant
            i <= n,
            n == raw@.len(),
            pairs == pairs_view(raw@),
            forall|j: int| 0 <= j < i ==> (#[trigger] pairs[j]).0 != key@,
        decreases n - i,
    {
        if same_text(raw[i].0.as_str(), key) {
            proof {
                lemma_position_of_first(pairs, key@, i as int);
            }
            return Some(&raw[i].1);
        }
        i += 1;
    }
    proof {
        lemma_position_of(pairs, key@);
    }
    None
}

} // verus!
