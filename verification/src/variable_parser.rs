//! Placeholders in a command line: a set of keys, each with the value that
//! replaces it and a note of whether a tracked pass has met it.

use crate::text::{texts, Render};
use vstd::hash_map::StringHashMap;
use vstd::prelude::*;
use vstd::string::*;

verus! {

/// The set that `entries` describe: a later entry for a key replaces an earlier
/// one, and no key has been met yet.
pub open spec fn placeholders<Value>(entries: Seq<(&str, Value)>) -> Map<Seq<char>, (Value, bool)>
    decreases entries.len(),
{
    if entries.len() == 0 {
        Map::empty()
    } else {
        placeholders(entries.drop_last()).insert(entries.last().0@, (entries.last().1, false))
    }
}

/// An argument after a pass: the value's text where the whole argument is a
/// key, the argument itself where it is not.
pub open spec fn rewritten_arg<Value: Render>(
    vars: Map<Seq<char>, (Value, bool)>,
    arg: Seq<char>,
) -> Seq<char> {
    if vars.contains_key(arg) {
        vars[arg].0.rendered()
    } else {
        arg
    }
}

/// An argument list after a pass.
pub open spec fn rewritten<Value: Render>(
    vars: Map<Seq<char>, (Value, bool)>,
    args: Seq<Seq<char>>,
) -> Seq<Seq<char>> {
    Seq::new(args.len(), |i: int| rewritten_arg(vars, args[i]))
}

/// The set after a tracked pass over `args`: the keys and values are the same,
/// and a key is noted as met if it was before or if it stands in `args`.
pub open spec fn tracked_over<Value>(
    vars: Map<Seq<char>, (Value, bool)>,
    args: Seq<Seq<char>>,
) -> Map<Seq<char>, (Value, bool)> {
    Map::new(
        |k: Seq<char>| vars.contains_key(k),
        |k: Seq<char>| (vars[k].0, vars[k].1 || args.contains(k)),
    )
}

/// In a set that was just made, no key has been met.
pub proof fn lemma_fresh_keys_are_unmet<Value>(entries: Seq<(&str, Value)>, key: Seq<char>)
    ensures
        placeholders(entries).contains_key(key) ==> !placeholders(entries)[key].1,
        placeholders(entries).contains_key(key) <==> exists|i: int|
            0 <= i < entries.len() && (#[trigger] entries[i]).0@ == key,
    decreases entries.len(),
{
    if entries.len() > 0 {
        let rest = entries.drop_last();
        lemma_fresh_keys_are_unmet(rest, key);
        if placeholders(entries).contains_key(key) {
            if entries.last().0@ == key {
                assert(entries[entries.len() - 1].0@ == key);
            } else {
                let i = choose|i: int| 0 <= i < rest.len() && (#[trigger] rest[i]).0@ == key;
                assert(entries[i].0@ == key);
            }
        }
        if exists|i: int| 0 <= i < entries.len() && (#[trigger] entries[i]).0@ == key {
            let i = choose|i: int| 0 <= i < entries.len() && (#[trigger] entries[i]).0@ == key;
            if i < rest.len() {
                assert(rest[i].0@ == key);
            }
        }
    }
}

/// What was met stays met: two tracked passes in a row note what one pass over
/// both argument lists notes, and a pass over no arguments notes nothing.
pub proof fn lemma_tracking_accumulates<Value>(
    vars: Map<Seq<char>, (Value, bool)>,
    first: Seq<Seq<char>>,
    second: Seq<Seq<char>>,
)
    ensures
        tracked_over(tracked_over(vars, first), second) == tracked_over(vars, first + second),
        tracked_over(vars, Seq::empty()) == vars,
        forall|key: Seq<char>|
            vars.contains_key(key) && vars[key].1 ==> tracked_over(vars, first)[key].1,
{
    assert forall|key: Seq<char>| (first + second).contains(key) <==> (first.contains(key)
        || second.contains(key)) by {
        if first.contains(key) {
            let i = choose|i: int| 0 <= i < first.len() && first[i] == key;
            assert((first + second)[i] == key);
        }
        if second.contains(key) {
            let i = choose|i: int| 0 <= i < second.len() && second[i] == key;
            assert((first + second)[first.len() + i] == key);
        }
        if (first + second).contains(key) {
            let i = choose|i: int| 0 <= i < (first + second).len() && (first + second)[i] == key;
            if i < first.len() {
                assert(first[i] == key);
            } else {
                assert(second[i - first.len()] == key);
            }
        }
    }
    assert(tracked_over(tracked_over(vars, first), second) =~= tracked_over(vars, first + second));
    assert(tracked_over(vars, Seq::<Seq<char>>::empty()) =~= vars);
}

/// Tracking changes no key and no value: whatever was met before, a pass fills
/// in the same arguments in the same way.
pub proof fn lemma_tracking_keeps_values<Value: Render>(
    vars: Map<Seq<char>, (Value, bool)>,
    seen: Seq<Seq<char>>,
    args: Seq<Seq<char>>,
)
    ensures
        tracked_over(vars, seen).dom() == vars.dom(),
        rewritten(tracked_over(vars, seen), args) == rewritten(vars, args),
{
    assert(tracked_over(vars, seen).dom() =~= vars.dom());
    assert(rewritten(tracked_over(vars, seen), args) =~= rewritten(vars, args));
}

/// A set of placeholders.
#[verifier::reject_recursive_types(Value)]
pub struct VariableParser<Value> {
    variables: StringHashMap<(Value, bool)>,
}

impl<Value> View for VariableParser<Value> {
    type V = Map<Seq<char>, (Value, bool)>;

    closed spec fn view(&self) -> Map<Seq<char>, (Value, bool)> {
        self.variables@
    }
}

impl<Value: Copy + Render> VariableParser<Value> {
    /// The set that `variables` describe, with no key met yet.
    pub fn new(variables: Vec<(&str, Value)>) -> (res: Self)
        ensures
            res@ == placeholders(variables@),
    {
        let mut hash: StringHashMap<(Value, bool)> = StringHashMap::with_capacity(variables.len());
        let mut i: usize = 0;
        while i < variables.len()
            invariant
                i <= variables.len(),
                hash@ == placeholders(variables@.take(i as int)),
            decreases variables.len() - i,
        {
            proof {
                assert(variables@.take(i + 1).drop_last() =~= variables@.take(i as int));
            }
            let key: &str = variables[i].0;
            let value: Value = variables[i].1;
            hash.insert(String::from_str(key), (value, false));
            i = i + 1;
        }
        proof {
            assert(variables@.take(variables.len() as int) =~= variables@);
        }
        Self { variables: hash }
    }

    /// Replaces each argument that is a key by the key's value, and leaves the
    /// notes of what was met as they are.
    pub fn parse_string_vec(&self, vec: &mut Vec<String>)
        ensures
            final(vec)@.len() == old(vec)@.len(),
            texts(final(vec)@) == rewritten(self@, texts(old(vec)@)),
    {
        let mut i: usize = 0;
        while i < vec.len()
            invariant
                i <= vec.len(),
                vec.len() == old(vec).len(),
                forall|j: int| 0 <= j < i ==> vec@[j]@ == rewritten_arg(self@, old(vec)@[j]@),
                forall|j: int| i <= j < vec.len() ==> vec@[j] == old(vec)@[j],
            decreases vec.len() - i,
        {
            let found: Option<Value> = match self.variables.get(vec[i].as_str()) {
                Some(entry) => Some(entry.0),
                None => None,
            };
            if let Some(value) = found {
                vec.set(i, value.render());
            }
            i = i + 1;
        }
        proof {
            assert(texts(vec@) =~= rewritten(self@, texts(old(vec)@)));
        }
    }

    /// Replaces each argument that is a key by the key's value, and notes each
    /// such key as met.
    pub fn parse_with_tracker(&mut self, vec: &mut Vec<String>)
        ensures
            final(vec)@.len() == old(vec)@.len(),
            texts(final(vec)@) == rewritten(old(self)@, texts(old(vec)@)),
            final(self)@ == tracked_over(old(self)@, texts(old(vec)@)),
    {
        let mut i: usize = 0;
        proof {
            assert(texts(vec@).take(0) =~= Seq::<Seq<char>>::empty());
            assert(self@ =~= tracked_over(old(self)@, texts(old(vec)@).take(0)));
        }
        while i < vec.len()
            invariant
                i <= vec.len(),
                vec.len() == old(vec).len(),
                forall|j: int|
                    0 <= j < i ==> vec@[j]@ == rewritten_arg(old(self)@, old(vec)@[j]@),
                forall|j: int| i <= j < vec.len() ==> vec@[j] == old(vec)@[j],
                self@ == tracked_over(old(self)@, texts(old(vec)@).take(i as int)),
            decreases vec.len() - i,
        {
            let ghost args = texts(old(vec)@);
            let ghost seen = args.take(i as int);
            let ghost arg = old(vec)@[i as int]@;
            proof {
                assert(args.take(i + 1) =~= seen.push(arg));
                assert forall|k: Seq<char>| args.take(i + 1).contains(k) <==> (seen.contains(k)
                    || k == arg) by {
                    if seen.contains(k) {
                        let j = choose|j: int| 0 <= j < seen.len() && seen[j] == k;
                        assert(seen.push(arg)[j] == k);
                    }
                    if k == arg {
                        assert(seen.push(arg)[i as int] == k);
                    }
                }
            }
            let found: Option<Value> = match self.variables.get(vec[i].as_str()) {
                Some(entry) => Some(entry.0),
                None => None,
            };
            if let Some(value) = found {
                let key = vec[i].clone();
                vec.set(i, value.render());
                self.variables.insert(key, (value, true));
            }
            proof {
                assert(self@ =~= tracked_over(old(self)@, args.take(i + 1)));
            }
            i = i + 1;
        }
        proof {
            assert(texts(old(vec)@).take(vec.len() as int) =~= texts(old(vec)@));
            assert(texts(vec@) =~= rewritten(old(self)@, texts(old(vec)@)));
        }
    }

    /// Whether a tracked pass has met `key`. A key that the set does not hold
    /// was never met.
    pub fn had_used_var(&self, key: &str) -> (res: bool)
        ensures
            res == (self@.contains_key(key@) && self@[key@].1),
    {
        match self.variables.get(key) {
            Some(entry) => entry.1,
            None => false,
        }
    }

    /// The number of keys.
    pub fn get_size(&self) -> (res: usize)
        ensures
            res == self@.len(),
    {
        self.variables.len()
    }
}

} // verus!
