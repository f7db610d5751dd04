use vstd::prelude::*;

verus! {

/// The order in which the game's levels are played, as a list of level names.
pub struct LevelOrder(pub Vec<String>);

/// `i` is the position of the first occurrence of `name` in `names`.
pub open spec fn is_first_occurrence(names: Seq<Seq<char>>, name: Seq<char>, i: int) -> bool {
    &&& 0 <= i < names.len()
    &&& names[i] == name
    &&& forall|j: int| 0 <= j < i ==> names[j] != name
}

/// The level that follows the first occurrence of `name` in `names`, if `name` occurs and is
/// not the last entry.
pub open spec fn spec_next_level(names: Seq<Seq<char>>, name: Seq<char>) -> Option<Seq<char>> {
    if exists|i: int| is_first_occurrence(names, name, i) {
        let i = choose|i: int| is_first_occurrence(names, name, i);
        if i + 1 < names.len() {
            Some(names[i + 1])
        } else {
            None
        }
    } else {
        None
    }
}

/// Two first occurrences of the same name are at the same position.
pub proof fn lemma_first_occurrence_unique(names: Seq<Seq<char>>, name: Seq<char>, i: int, k: int)
    requires
        is_first_occurrence(names, name, i),
        is_first_occurrence(names, name, k),
    ensures
        i == k,
{
    if i < k {
        assert(names[i] != name);
    } else if k < i {
        assert(names[k] != name);
    }
}

/// Any occurrence of `name` at or after some position implies a first occurrence.
pub proof fn lemma_first_occurrence_exists(names: Seq<Seq<char>>, name: Seq<char>, i: int)
    requires
        0 <= i < names.len(),
        names[i] == name,
    ensures
        exists|k: int| 0 <= k <= i && is_first_occurrence(names, name, k),
    decreases i,
{
    if exists|j: int| 0 <= j < i && names[j] == name {
        let j = choose|j: int| 0 <= j < i && names[j] == name;
        lemma_first_occurrence_exists(names, name, j);
    } else {
        assert(is_first_occurrence(names, name, i));
    }
}

/// When the first occurrence of `name` is at `i`, the next level is the entry after `i`.
pub proof fn lemma_next_level_at(names: Seq<Seq<char>>, name: Seq<char>, i: int)
    requires
        is_first_occurrence(names, name, i),
    ensures
        spec_next_level(names, name) == (if i + 1 < names.len() {
            Some(names[i + 1])
        } else {
            None::<Seq<char>>
        }),
{
    let k = choose|k: int| is_first_occurrence(names, name, k);
    lemma_first_occurrence_unique(names, name, i, k);
}

impl LevelOrder {
    /// The names of the levels, in playing order.
    pub open spec fn names(&self) -> Seq<Seq<char>> {
        self.0@.map_values(|s: String| s@)
    }

    /// The name of the level that comes after `current_level_name`, if it is in the order and
    /// is not the last level. When a name occurs more than once, its first occurrence counts.
    pub fn next_level<'a>(&'a self, current_level_name: &str) -> (next: Option<&'a str>)
        ensures
            match next {
                Some(n) => spec_next_level(self.names(), current_level_name@) == Some(n@),
                None => spec_next_level(self.names(), current_level_name@) is None,
            },
    {
        let current: String = current_level_name.to_owned();
        let levels = &self.0;
        let n = levels.len();
        let mut index: usize = 0;
        while index < n
            invariant
                n == levels.len(),
                levels == &self.0,
                current@ == current_level_name@,
                index <= n,
                forall|j: int| 0 <= j < index ==> self.names()[j] != current@,
            decreases n - index,
        {
            if levels[index] == current {
                proof {
                    assert(is_first_occurrence(self.names(), current@, index as int));
                    lemma_next_level_at(self.names(), current@, index as int);
                }
                if index + 1 < n {
                    return Some(levels[index + 1].as_str());
                } else {
                    return None;
                }
            }
            index += 1;
        }
        proof {
            assert forall|i: int| !is_first_occurrence(self.names(), current@, i) by {
                if 0 <= i < n {
                    assert(self.names()[i] != current@);
                }
            }
        }
        None
    }
}

/// In an order without repeated names, every level but the last is followed by the next entry,
/// and the last level has no successor.
pub proof fn lemma_next_level_of_distinct(names: Seq<Seq<char>>, i: int)
    requires
        0 <= i < names.len(),
        forall|a: int, b: int| 0 <= a < b < names.len() ==> names[a] != names[b],
    ensures
        i + 1 < names.len() ==> spec_next_level(names, names[i]) == Some(names[i + 1]),
        i + 1 == names.len() ==> spec_next_level(names, names[i]) is None,
{
    assert(is_first_occurrence(names, names[i], i));
    lemma_next_level_at(names, names[i], i);
}

/// A name that is not in the order has no next level.
pub proof fn lemma_next_level_of_unknown(names: Seq<Seq<char>>, name: Seq<char>)
    requires
        !names.contains(name),
    ensures
        spec_next_level(names, name) is None,
{
    assert forall|i: int| !is_first_occurrence(names, name, i) by {
        if is_first_occurrence(names, name, i) {
            assert(names.contains(name));
        }
    }
}

/// A name that is in the order has a next level unless its first occurrence is the last entry.
pub proof fn lemma_next_level_of_known(names: Seq<Seq<char>>, name: Seq<char>)
    requires
        names.contains(name),
    ensures
        exists|i: int| is_first_occurrence(names, name, i),
        spec_next_level(names, name) is None <==> is_first_occurrence(names, name, names.len() - 1),
{
    let j = choose|j: int| 0 <= j < names.len() && names[j] == name;
    lemma_first_occurrence_exists(names, name, j);
    let i = choose|i: int| 0 <= i <= j && is_first_occurrence(names, name, i);
    lemma_next_level_at(names, name, i);
    if is_first_occurrence(names, name, names.len() - 1) {
        lemma_first_occurrence_unique(names, name, i, names.len() - 1);
    }
}

} // verus!
