//! The evaluation context: named facts that rules are checked against.
use vstd::prelude::*;

use crate::common::str_map::{
    keys_distinct, lemma_pairs_map_dom, lemma_pairs_map_index, pairs_map, StrMap,
};

verus! {

/// The value of a fact, as JSON knows it: text, booleans and null are held
/// plainly; numbers and structured values are carried as they came.
#[derive(Debug, Clone)]
pub enum FactValue {
    Null,
    Bool(bool),
    Number(serde_json::Number),
    String(String),
    Structured(serde_json::Value),
}

/// The text of a fact value, where it is text.
pub open spec fn text_of(v: FactValue) -> Option<Seq<char>> {
    match v {
        FactValue::String(s) => Some(s@),
        _ => None,
    }
}

/// The boolean of a fact value, where it is a boolean.
pub open spec fn bool_of(v: FactValue) -> Option<bool> {
    match v {
        FactValue::Bool(b) => Some(b),
        _ => None,
    }
}

/// The keys of the members of a JSON object; `None` for any other JSON
/// value.
pub uninterp spec fn json_object_keys(value: serde_json::Value) -> Option<Set<Seq<char>>>;

/// The text of the member under `key` of a JSON object, where that member is
/// a JSON string; `None` otherwise.
pub uninterp spec fn json_member_text(object: serde_json::Value, key: Seq<char>) -> Option<Seq<char>>;

/// The boolean of the member under `key` of a JSON object, where that member
/// is a JSON boolean; `None` otherwise.
pub uninterp spec fn json_member_bool(object: serde_json::Value, key: Seq<char>) -> Option<bool>;

/// The text of a JSON value that is a string; `None` for any other value.
pub uninterp spec fn json_text(value: serde_json::Value) -> Option<Seq<char>>;

/// The boolean of a JSON value that is a boolean; `None` for any other
/// value.
pub uninterp spec fn json_bool(value: serde_json::Value) -> Option<bool>;

/// The keys of a list of entries.
pub open spec fn entry_keys<V>(es: Seq<(String, V)>) -> Set<Seq<char>> {
    es.map_values(|e: (String, V)| e.0@).to_set()
}

/// The members of a JSON object, by `serde_json::Value::Object` and the
/// map's `into_iter`; `None` for any other JSON value.  Each member comes
/// once, under its own key (the keys of a `serde_json::Map` are distinct),
/// carrying its value; the order is left open.
#[verifier::external_body]
fn json_object_entries(value: serde_json::Value) -> (r: Option<Vec<(String, serde_json::Value)>>)
    ensures
        r is Some <==> json_object_keys(value) is Some,
        r matches Some(es) ==> {
            &&& keys_distinct(es@)
            &&& json_object_keys(value) == Some(entry_keys(es@))
            &&& forall|i: int|
                0 <= i < es@.len() ==> json_text(#[trigger] es@[i].1) == json_member_text(
                    value,
                    es@[i].0@,
                ) && json_bool(es@[i].1) == json_member_bool(value, es@[i].0@)
        },
{
    match value {
        serde_json::Value::Object(map) => Some(map.into_iter().collect()),
        _ => None,
    }
}

/// The fact value of a JSON value, by its variant: null, booleans and text
/// are taken out, numbers kept as numbers, arrays and objects kept whole.
/// What is stated: a string gives text and a boolean gives a boolean, and
/// nothing else gives either.
#[verifier::external_body]
fn fact_of_json(value: serde_json::Value) -> (r: FactValue)
    ensures
        text_of(r) == json_text(value),
        bool_of(r) == json_bool(value),
{
    match value {
        serde_json::Value::Null => FactValue::Null,
        serde_json::Value::Bool(b) => FactValue::Bool(b),
        serde_json::Value::Number(n) => FactValue::Number(n),
        serde_json::Value::String(s) => FactValue::String(s),
        other => FactValue::Structured(other),
    }
}

/// A context containing named facts used for policy evaluation.
#[derive(Debug, Clone)]
pub struct EvaluationContext {
    facts: StrMap<FactValue>,
}

impl View for EvaluationContext {
    type V = Map<Seq<char>, FactValue>;

    closed spec fn view(&self) -> Map<Seq<char>, FactValue> {
        self.facts@
    }
}

impl Default for EvaluationContext {
    /// The same as `new`: no facts.
    fn default() -> (r: Self)
        ensures
            r@ == Map::<Seq<char>, FactValue>::empty(),
    {
        Self::new()
    }
}

impl EvaluationContext {
    /// The text fact under `key`: present when the key holds text.
    pub open spec fn string_fact(&self, key: Seq<char>) -> Option<Seq<char>> {
        if self@.contains_key(key) {
            text_of(self@[key])
        } else {
            None
        }
    }

    /// Creates a new empty evaluation context.
    pub fn new() -> (r: Self)
        ensures
            r@ == Map::<Seq<char>, FactValue>::empty(),
    {
        EvaluationContext { facts: StrMap::new() }
    }

    /// Creates an evaluation context from a map of facts.
    pub fn from_map(facts: StrMap<FactValue>) -> (r: Self)
        ensures
            r@ == facts@,
    {
        EvaluationContext { facts }
    }

    /// A context with `entries` as its facts, in order: where two entries
    /// share a key, the later one wins.
    pub fn from_entries(entries: Vec<(String, FactValue)>) -> (r: Self)
        ensures
            r@ == pairs_map(entries@),
    {
        let ghost all = entries@;
        let mut facts: StrMap<FactValue> = StrMap::new();
        let mut rest = entries;
        let ghost mut done: int = 0;
        while rest.len() > 0
            invariant
                0 <= done <= all.len(),
                rest@ == all.skip(done),
                facts@ == pairs_map(all.take(done)),
            decreases rest@.len(),
        {
            let (k, v) = rest.remove(0);
            proof {
                assert(all.take(done + 1).drop_last() =~= all.take(done));
                assert(all[done] == (k, v));
                assert(all.skip(done).drop_first() =~= all.skip(done + 1));
                done = done + 1;
            }
            facts.insert(k, v);
        }
        proof {
            assert(all.take(done) =~= all);
        }
        EvaluationContext { facts }
    }

    /// A context with the members of a JSON object as its facts, each value
    /// taken as a fact value; any other JSON value gives an empty context.
    /// The facts are exactly the object's keys; a member that is a JSON
    /// string reads back as that text, and one that is a JSON boolean as
    /// that boolean.
    pub fn from_json(value: serde_json::Value) -> (r: Self)
        ensures
            r@.dom() == match json_object_keys(value) {
                Some(ks) => ks,
                None => Set::empty(),
            },
            forall|k: Seq<char>|
                #[trigger] r@.contains_key(k) ==> r.string_fact(k) == json_member_text(value, k)
                    && bool_of(r@[k]) == json_member_bool(value, k),
    {
        let ghost v0 = value;
        match json_object_entries(value) {
            None => {
                let r = Self::new();
                assert(r@.dom() =~= Set::<Seq<char>>::empty());
                r
            },
            Some(entries) => {
                let ghost orig = entries@;
                let mut rest = entries;
                let mut converted: Vec<(String, FactValue)> = Vec::new();
                while rest.len() > 0
                    invariant
                        converted@.len() <= orig.len(),
                        rest@ == orig.skip(converted@.len() as int),
                        forall|a: int|
                            0 <= a < converted@.len() ==> #[trigger] converted@[a].0 == orig[a].0
                                && text_of(converted@[a].1) == json_text(orig[a].1) && bool_of(
                                converted@[a].1,
                            ) == json_bool(orig[a].1),
                    decreases rest@.len(),
                {
                    let ghost n = converted@.len() as int;
                    let (k, v) = rest.remove(0);
                    proof {
                        assert(orig[n] == (k, v));
                        assert(orig.skip(n).drop_first() =~= orig.skip(n + 1));
                    }
                    converted.push((k, fact_of_json(v)));
                }
                let ghost conv = converted@;
                assert(conv.len() == orig.len()) by {
                    assert(orig.skip(conv.len() as int).len() == 0);
                }
                assert(keys_distinct(conv)) by {
                    assert forall|a: int, b: int|
                        0 <= a < b < conv.len() implies #[trigger] conv[a].0@ != #[trigger] conv[b].0@ by {
                        assert(conv[a].0 == orig[a].0);
                        assert(conv[b].0 == orig[b].0);
                    }
                }
                let r = Self::from_entries(converted);
                proof {
                    let ks = entry_keys(orig);
                    assert forall|k: Seq<char>| r@.dom().contains(k) <==> ks.contains(k) by {
                        lemma_pairs_map_dom(conv, k);
                        if r@.dom().contains(k) {
                            let i = choose|i: int| 0 <= i < conv.len() && #[trigger] conv[i].0@ == k;
                            assert(conv[i].0 == orig[i].0);
                            assert(orig.map_values(|e: (String, serde_json::Value)| e.0@)[i] == k);
                        }
                        if ks.contains(k) {
                            let m = orig.map_values(|e: (String, serde_json::Value)| e.0@);
                            let i = choose|i: int| 0 <= i < m.len() && m[i] == k;
                            assert(conv[i].0 == orig[i].0);
                            assert(conv[i].0@ == k);
                        }
                    }
                    assert(r@.dom() =~= ks);
                    assert forall|k: Seq<char>| #[trigger] r@.contains_key(k) implies r.string_fact(k)
                        == json_member_text(v0, k) && bool_of(r@[k]) == json_member_bool(v0, k) by {
                        lemma_pairs_map_dom(conv, k);
                        let i = choose|i: int| 0 <= i < conv.len() && #[trigger] conv[i].0@ == k;
                        lemma_pairs_map_index(conv, i);
                        assert(conv[i].0 == orig[i].0);
                        assert(json_text(orig[i].1) == json_member_text(v0, orig[i].0@));
                    }
                }
                r
            },
        }
    }

    /// Sets a fact.
    pub fn set(&mut self, key: &str, value: FactValue)
        ensures
            final(self)@ == old(self)@.insert(key@, value),
    {
        self.facts.insert(String::from_str(key), value);
    }

    /// Sets a text fact.
    pub fn set_string(&mut self, key: &str, value: &str)
        ensures
            final(self)@.dom() == old(self)@.dom().insert(key@),
            final(self)@.remove(key@) == old(self)@.remove(key@),
            final(self).string_fact(key@) == Some(value@),
    {
        let v = String::from_str(value);
        self.facts.insert(String::from_str(key), FactValue::String(v));
        assert(final(self)@.remove(key@) =~= old(self)@.remove(key@));
    }

    /// Sets a boolean fact.
    pub fn set_bool(&mut self, key: &str, value: bool)
        ensures
            final(self)@ == old(self)@.insert(key@, FactValue::Bool(value)),
    {
        self.facts.insert(String::from_str(key), FactValue::Bool(value));
    }

    /// Gets a fact.
    pub fn get(&self, key: &str) -> (r: Option<&FactValue>)
        ensures
            match r {
                Some(v) => self@.contains_key(key@) && *v == self@[key@],
                None => !self@.contains_key(key@),
            },
    {
        self.facts.get(key)
    }

    /// Gets a fact as text: present when the key holds text.
    pub fn get_string(&self, key: &str) -> (r: Option<String>)
        ensures
            match r {
                Some(s) => self.string_fact(key@) == Some(s@),
                None => self.string_fact(key@) is None,
            },
    {
        match self.facts.get(key) {
            Some(FactValue::String(s)) => Some(s.clone()),
            _ => None,
        }
    }

    /// Gets a fact as a boolean: present when the key holds a boolean.
    pub fn get_bool(&self, key: &str) -> (r: Option<bool>)
        ensures
            r == (if self@.contains_key(key@) {
                bool_of(self@[key@])
            } else {
                None
            }),
    {
        match self.facts.get(key) {
            Some(FactValue::Bool(b)) => Some(*b),
            _ => None,
        }
    }

    /// Checks whether a fact exists.
    pub fn contains(&self, key: &str) -> (r: bool)
        ensures
            r == self@.contains_key(key@),
    {
        self.facts.contains_key(key)
    }

    /// All facts.
    pub fn facts(&self) -> (r: &StrMap<FactValue>)
        ensures
            r@ == self@,
    {
        &self.facts
    }

    /// All facts, to change in place.
    pub fn facts_mut(&mut self) -> (r: &mut StrMap<FactValue>)
        ensures
            r@ == old(self)@,
            final(self)@ == final(r)@,
    {
        &mut self.facts
    }

    /// Merges another context into this one; the other context's facts win
    /// where both have a key.
    pub fn merge(&mut self, other: EvaluationContext)
        ensures
            final(self)@ == old(self)@.union_prefer_right(other@),
    {
        let mut rest = other.facts;
        let ghost target = old(self)@.union_prefer_right(other@);
        assert(self.facts@.union_prefer_right(rest@) =~= target);
        loop
            invariant
                self.facts@.union_prefer_right(rest@) == target,
            ensures
                self.facts@ == target,
            decreases rest.spec_entries().len(),
        {
            let ghost before_self = self.facts@;
            let ghost before_rest = rest@;
            match rest.pop_first() {
                None => {
                    assert(self.facts@.union_prefer_right(rest@) =~= self.facts@) by {
                        assert(rest@ =~= Map::<Seq<char>, FactValue>::empty()) by {
                            assert(rest@.len() == 0);
                        }
                    }
                    break;
                },
                Some((k, v)) => {
                    self.facts.insert(k, v);
                    assert(self.facts@.union_prefer_right(rest@) =~= before_self.union_prefer_right(
                        before_rest,
                    ));
                },
            }
        }
    }
}

} // verus!
