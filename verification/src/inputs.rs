//! Circuit inputs: the named integer sequences a caller hands to a proof.
//!
//! The inputs are a mapping from signal name to a sequence of integers. The
//! order within a sequence is significant, the order of the names is not. The
//! mapping is kept as a list of signals in which no name occurs twice; the
//! list order is the order in which the names were first inserted, and it is
//! the order in which the signals reach the proving engine.

use vstd::prelude::*;

verus! {

/// Whether some signal in the list has the given name.
pub open spec fn has_name(signals: Seq<(Seq<char>, Seq<i32>)>, name: Seq<char>) -> bool {
    exists|i: int| 0 <= i < signals.len() && (#[trigger] signals[i]).0 == name
}

/// The position of a signal with the given name, if there is one.
pub open spec fn index_of_name(signals: Seq<(Seq<char>, Seq<i32>)>, name: Seq<char>) -> int {
    choose|i: int| 0 <= i < signals.len() && (#[trigger] signals[i]).0 == name
}

/// Whether no name occurs twice in the list.
pub open spec fn distinct_names(signals: Seq<(Seq<char>, Seq<i32>)>) -> bool {
    forall|i: int, j: int|
        0 <= i < j < signals.len() ==> (#[trigger] signals[i]).0 != (#[trigger] signals[j]).0
}

/// The mapping that a list of signals stands for.
pub open spec fn signals_map(signals: Seq<(Seq<char>, Seq<i32>)>) -> Map<Seq<char>, Seq<i32>> {
    Map::new(
        |name: Seq<char>| has_name(signals, name),
        |name: Seq<char>| signals[index_of_name(signals, name)].1,
    )
}

/// In a list without repeated names, a name is found at one position only.
pub proof fn lemma_index_of_name_is_unique(
    signals: Seq<(Seq<char>, Seq<i32>)>,
    name: Seq<char>,
    position: int,
)
    requires
        distinct_names(signals),
        0 <= position < signals.len(),
        signals[position].0 == name,
    ensures
        has_name(signals, name),
        index_of_name(signals, name) == position,
{
    let found = index_of_name(signals, name);
    assert(signals[found].0 == signals[position].0);
}

/// Appending a signal with a new name adds that name to the mapping.
pub proof fn lemma_push_inserts(
    signals: Seq<(Seq<char>, Seq<i32>)>,
    name: Seq<char>,
    values: Seq<i32>,
)
    requires
        distinct_names(signals),
        !has_name(signals, name),
    ensures
        distinct_names(signals.push((name, values))),
        signals_map(signals.push((name, values))) == signals_map(signals).insert(name, values),
{
    let after = signals.push((name, values));
    assert(distinct_names(after)) by {
        assert forall|i: int| 0 <= i < signals.len() implies (#[trigger] after[i]).0 != name by {
            assert(signals[i].0 == after[i].0);
        }
    }
    assert forall|other: Seq<char>| has_name(after, other) == (other == name || has_name(
        signals,
        other,
    )) by {
        if has_name(signals, other) {
            assert(after[index_of_name(signals, other)].0 == other);
        }
        if other == name {
            assert(after[signals.len() as int].0 == other);
        }
    }
    assert forall|other: Seq<char>| has_name(after, other) implies signals_map(after)[other]
        == signals_map(signals).insert(name, values)[other] by {
        if other == name {
            lemma_index_of_name_is_unique(after, other, signals.len() as int);
        } else {
            lemma_index_of_name_is_unique(after, other, index_of_name(signals, other));
        }
    }
    assert(signals_map(after) =~= signals_map(signals).insert(name, values));
}

/// Replacing the values of a signal keeps every name where it is and changes
/// the mapping at that name only.
pub proof fn lemma_update_inserts(
    signals: Seq<(Seq<char>, Seq<i32>)>,
    position: int,
    name: Seq<char>,
    values: Seq<i32>,
)
    requires
        distinct_names(signals),
        0 <= position < signals.len(),
        signals[position].0 == name,
    ensures
        distinct_names(signals.update(position, (name, values))),
        signals_map(signals.update(position, (name, values))) == signals_map(signals).insert(
            name,
            values,
        ),
{
    let after = signals.update(position, (name, values));
    assert forall|i: int| 0 <= i < after.len() implies (#[trigger] after[i]).0 == signals[i].0 by {}
    assert forall|other: Seq<char>| has_name(after, other) == has_name(signals, other) by {
        if has_name(after, other) {
            assert(signals[index_of_name(after, other)].0 == other);
        }
        if has_name(signals, other) {
            assert(after[index_of_name(signals, other)].0 == other);
        }
    }
    assert forall|other: Seq<char>| has_name(after, other) implies signals_map(after)[other]
        == signals_map(signals).insert(name, values)[other] by {
        if other == name {
            lemma_index_of_name_is_unique(after, other, position);
        } else {
            lemma_index_of_name_is_unique(after, other, index_of_name(signals, other));
        }
    }
    assert(signals_map(after) =~= signals_map(signals).insert(name, values));
}

/// The inputs of one proof: a mapping from signal name to the signal's values.
#[derive(Debug)]
pub struct CircuitInputs {
    signals: Vec<(String, Vec<i32>)>,
}

/// The names and values that a list of owned signals holds.
pub open spec fn signals_view(signals: Seq<(String, Vec<i32>)>) -> Seq<(Seq<char>, Seq<i32>)> {
    Seq::new(signals.len(), |i: int| (signals[i].0@, signals[i].1@))
}

impl View for CircuitInputs {
    type V = Seq<(Seq<char>, Seq<i32>)>;

    /// The signals in the order in which their names were first inserted.
    closed spec fn view(&self) -> Seq<(Seq<char>, Seq<i32>)> {
        signals_view(self.signals@)
    }
}

impl CircuitInputs {
    #[verifier::type_invariant]
    spec fn names_occur_once(self) -> bool {
        distinct_names(self@)
    }

    /// The mapping from signal name to values.
    pub open spec fn to_map(&self) -> Map<Seq<char>, Seq<i32>> {
        signals_map(self@)
    }

    /// Inputs without any signal.
    pub fn new() -> (inputs: Self)
        ensures
            inputs@ == Seq::<(Seq<char>, Seq<i32>)>::empty(),
            inputs.to_map() == Map::<Seq<char>, Seq<i32>>::empty(),
    {
        let inputs = CircuitInputs { signals: Vec::new() };
        assert(inputs.to_map() =~= Map::<Seq<char>, Seq<i32>>::empty());
        inputs
    }

    /// The number of signals.
    pub fn len(&self) -> (count: usize)
        ensures
            count == self@.len(),
    {
        self.signals.len()
    }

    /// The values of the signal with the given name.
    pub fn get(&self, name: &String) -> (found: Option<&Vec<i32>>)
        ensures
            match found {
                Some(values) => self.to_map().contains_key(name@) && self.to_map()[name@]
                    == values@,
                None => !self.to_map().contains_key(name@),
            },
    {
        proof {
            use_type_invariant(self);
        }
        let mut i: usize = 0;
        while i < self.signals.len()
            invariant
                i <= self.signals@.len(),
                distinct_names(self@),
                forall|k: int| 0 <= k < i ==> (#[trigger] self@[k]).0 != name@,
            decreases self.signals@.len() - i,
        {
            if self.signals[i].0 == *name {
                proof {
                    lemma_index_of_name_is_unique(self@, name@, i as int);
                }
                return Some(&self.signals[i].1);
            }
            i += 1;
        }
        None
    }

    /// Sets the values of the signal with the given name and returns the values
    /// it had before, if it had any. A new name goes to the end of the list; a
    /// known name keeps its place.
    pub fn insert(&mut self, name: String, values: Vec<i32>) -> (previous: Option<Vec<i32>>)
        ensures
            distinct_names(final(self)@),
            final(self).to_map() == old(self).to_map().insert(name@, values@),
            has_name(old(self)@, name@) ==> final(self)@ == old(self)@.update(
                index_of_name(old(self)@, name@),
                (name@, values@),
            ),
            !has_name(old(self)@, name@) ==> final(self)@ == old(self)@.push((name@, values@)),
            match previous {
                Some(replaced) => old(self).to_map().contains_key(name@) && old(
                    self,
                ).to_map()[name@] == replaced@,
                None => !old(self).to_map().contains_key(name@),
            },
    {
        proof {
            use_type_invariant(&*self);
        }
        let mut signals: Vec<(String, Vec<i32>)> = Vec::new();
        core::mem::swap(&mut self.signals, &mut signals);
        let ghost before = signals_view(signals@);
        let mut previous: Option<Vec<i32>> = None;
        let mut i: usize = 0;
        while i < signals.len()
            invariant
                i <= signals@.len(),
                signals_view(signals@) == before,
                forall|k: int| 0 <= k < i ==> (#[trigger] before[k]).0 != name@,
            ensures
                i < signals@.len() ==> before[i as int].0 == name@,
            decreases signals@.len() - i,
        {
            if signals[i].0 == name {
                break;
            }
            i += 1;
        }
        if i < signals.len() {
            proof {
                lemma_index_of_name_is_unique(before, name@, i as int);
                lemma_update_inserts(before, i as int, name@, values@);
            }
            let replaced = signals.remove(i);
            signals.insert(i, (name, values));
            assert(signals_view(signals@) =~= before.update(i as int, (name@, values@)));
            previous = Some(replaced.1);
        } else {
            proof {
                lemma_push_inserts(before, name@, values@);
            }
            signals.push((name, values));
            assert(signals_view(signals@) =~= before.push((name@, values@)));
        }
        core::mem::swap(&mut self.signals, &mut signals);
        previous
    }

    /// Gives up the inputs as the list of their signals, in which no name
    /// occurs twice.
    pub fn into_signals(self) -> (signals: Vec<(String, Vec<i32>)>)
        ensures
            signals_view(signals@) == self@,
            distinct_names(self@),
    {
        proof {
            use_type_invariant(&self);
        }
        self.signals
    }
}

} // verus!
