//! The values bound to a document's variables, including the reserved
//! pagination variable `__page`.
use vstd::prelude::*;
use crate::json::members_json;
use crate::query::Query;
use crate::value::{Object, Value, has_key, lookup, model};

verus! {

/// Values bound to variable names, in insertion order, each name once.
#[derive(Debug)]
pub struct Variables {
    pub map: Object,
}

/// What `page_init` makes of a set of bindings: `__page` bound to 1 where it
/// is not bound yet.
pub open spec fn page_init_spec(s: Seq<(Seq<char>, Value)>) -> Seq<(Seq<char>, Value)> {
    if has_key(s, "__page"@) {
        s
    } else {
        s.push(("__page"@, Value::Int(1)))
    }
}

/// A name is acceptable to `valid`: non-empty and bound.
pub open spec fn name_ok(s: Seq<(Seq<char>, Value)>, n: Seq<char>) -> bool {
    n.len() > 0 && has_key(s, n)
}

/// The message `valid` gives for a name that it refuses.
pub open spec fn name_error(n: Seq<char>) -> Seq<char> {
    if n.len() == 0 { "empty variable name"@ } else { "missing variable: "@ + n }
}

impl Variables {
    /// The bindings, in order.
    pub open spec fn view(&self) -> Seq<(Seq<char>, Value)> {
        self.map@
    }

    pub open spec fn wf(&self) -> bool {
        self.map.wf()
    }

    /// Whether each name is bound once.
    pub fn names_are_unique(&self) -> (r: bool)
        ensures
            r == self.wf(),
    {
        self.map.keys_are_unique()
    }

    /// No bindings.
    pub fn new() -> (r: Variables)
        ensures
            r@ == Seq::<(Seq<char>, Value)>::empty(),
            r.wf(),
    {
        Variables { map: Object::new() }
    }

    /// No bindings; the capacity is a hint only.
    pub fn with_capacity(capacity: usize) -> (r: Variables)
        ensures
            r@ == Seq::<(Seq<char>, Value)>::empty(),
            r.wf(),
    {
        Variables::new()
    }

    /// No bindings, for the variables of a query.
    pub fn for_query(query: &Query) -> (r: Variables)
        ensures
            r@ == Seq::<(Seq<char>, Value)>::empty(),
            r.wf(),
    {
        Variables::new()
    }

    /// Binds `name` to `value`, replacing an earlier binding in its place.
    pub fn set(&mut self, name: String, value: Value)
        requires
            old(self).wf(),
        ensures
            final(self).wf(),
            !has_key(old(self)@, name@) ==> final(self)@ == old(self)@.push((name@, value)),
            has_key(old(self)@, name@) ==> exists|i: int|
                0 <= i < old(self)@.len() && old(self)@[i].0 == name@
                && final(self)@ == old(self)@.update(i, (name@, value)),
            lookup(final(self)@, name@) == Some(value),
    {
        self.map.insert(name, value);
    }

    /// A copy of the value bound to `name`.
    pub fn get(&self, name: String) -> (r: Option<Value>)
        ensures
            r is Some == has_key(self@, name@),
            r matches Some(v) ==> lookup(self@, name@) matches Some(w) && model(v) == model(w),
    {
        match self.map.get(name.as_str()) {
            Some(v) => Some(v.copy()),
            None => None,
        }
    }

    /// `Ok` when every name is non-empty and bound; else the message for the
    /// first that is not.
    pub fn valid(&self, names: Vec<String>) -> (r: Result<(), String>)
        ensures
            r is Ok == forall|i: int| 0 <= i < names@.len() ==> name_ok(self@, #[trigger] names@[i]@),
            r matches Err(m) ==> exists|i: int|
                0 <= i < names@.len() && !name_ok(self@, names@[i]@)
                && (forall|j: int| 0 <= j < i ==> name_ok(self@, #[trigger] names@[j]@))
                && m@ == name_error(names@[i]@),
    {
        let mut i: usize = 0;
        while i < names.len()
            invariant
                i <= names@.len(),
                forall|j: int| 0 <= j < i ==> name_ok(self@, #[trigger] names@[j]@),
            decreases names@.len() - i,
        {
            let n = &names[i];
            if n.as_str().unicode_len() == 0 {
                return Err(String::from_str("empty variable name"));
            }
            if !self.map.contains_key(n.as_str()) {
                let mut m = String::from_str("missing variable: ");
                m.append(n.as_str());
                return Err(m);
            }
            i = i + 1;
        }
        Ok(())
    }

    /// Binds `__page` to 1 unless it is bound already.
    pub fn page_init(&mut self)
        requires
            old(self).wf(),
        ensures
            final(self).wf(),
            final(self)@ == page_init_spec(old(self)@),
    {
        if self.map.contains_key("__page") {
            return;
        }
        self.set(String::from_str("__page"), Value::Int(1));
    }

    /// The bindings as a JSON object.
    pub fn to_json(&self) -> (r: String)
        ensures
            r@ == "{"@ + members_json(self.map.entries@) + "}"@,
    {
        self.map.to_json()
    }
}

impl Default for Variables {
    fn default() -> (r: Variables)
        ensures
            r@ == Seq::<(Seq<char>, Value)>::empty(),
            r.wf(),
    {
        Variables::new()
    }
}

/// Initialising the page variable a second time changes nothing.
pub proof fn lemma_page_init_idempotent(s: Seq<(Seq<char>, Value)>)
    ensures
        page_init_spec(page_init_spec(s)) == page_init_spec(s),
{
    if !has_key(s, "__page"@) {
        let t = s.push(("__page"@, Value::Int(1)));
        assert(t[s.len() as int].0 == "__page"@);
    }
}

} // verus!
