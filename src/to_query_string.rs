//! The query-string text of values: `key=value` pairs joined by `&`, arrays
//! joined by commas, nested objects rendered the same way.
use vstd::prelude::*;
use crate::text::{decimal, int_text};
use crate::value::{Object, Value};

verus! {

/// Rendering as the query string of a URL.
pub trait ToQueryString {
    /// The text that the value stands for in a query string.
    spec fn query_string_spec(&self) -> Seq<char>;

    fn to_query_string(&self) -> (r: String)
        ensures
            r@ == self.query_string_spec(),
    ;
}

impl ToQueryString for Value {
    open spec fn query_string_spec(&self) -> Seq<char> {
        value_qs(*self)
    }

    fn to_query_string(&self) -> (r: String) {
        self.query_string()
    }
}

impl ToQueryString for Object {
    open spec fn query_string_spec(&self) -> Seq<char> {
        pairs_qs(self.entries@)
    }

    fn to_query_string(&self) -> (r: String) {
        self.query_string()
    }
}

/// The query-string text of a value.
pub open spec fn value_qs(v: Value) -> Seq<char>
    decreases v,
{
    match v {
        Value::Bool(b) => if b { "true"@ } else { "false"@ },
        Value::Int(i) => decimal(i as int),
        Value::Float(t) => t@,
        Value::String(s) => s@,
        Value::Object(o) => pairs_qs(o.entries@),
        Value::Array(a) => items_qs(a@),
        Value::Null => Seq::empty(),
        Value::Variable(_) => Seq::empty(),
    }
}

/// Items joined by commas.
pub open spec fn items_qs(s: Seq<Value>) -> Seq<char>
    decreases s,
{
    if s.len() == 0 {
        Seq::empty()
    } else if s.len() == 1 {
        value_qs(s[0])
    } else {
        items_qs(s.drop_last()) + ","@ + value_qs(s.last())
    }
}

/// `key=value` pairs joined by `&`.
pub open spec fn pairs_qs(s: Seq<(String, Value)>) -> Seq<char>
    decreases s,
{
    if s.len() == 0 {
        Seq::empty()
    } else if s.len() == 1 {
        s[0].0@ + "="@ + value_qs(s[0].1)
    } else {
        pairs_qs(s.drop_last()) + "&"@ + (s.last().0@ + "="@ + value_qs(s.last().1))
    }
}

fn items_to_qs(a: &Vec<Value>) -> (r: String)
    ensures
        r@ == items_qs(a@),
    decreases a,
{
    let mut out = String::new();
    let mut i: usize = 0;
    while i < a.len()
        invariant
            i <= a@.len(),
            out@ == items_qs(a@.subrange(0, i as int)),
        decreases a@.len() - i,
    {
        proof {
            assert(decreases_to!(a => a@[i as int]));
        }
        let t = a[i].query_string();
        let ghost prev = out@;
        if i > 0 {
            out.append(",");
        }
        out.append(t.as_str());
        proof {
            assert(a@.subrange(0, i + 1).drop_last() =~= a@.subrange(0, i as int));
            if i == 0 {
                assert(prev =~= Seq::<char>::empty());
                assert(out@ =~= t@);
            }
        }
        i = i + 1;
    }
    assert(a@.subrange(0, i as int) =~= a@);
    out
}

fn pairs_to_qs(a: &Vec<(String, Value)>) -> (r: String)
    ensures
        r@ == pairs_qs(a@),
    decreases a,
{
    let mut out = String::new();
    let mut i: usize = 0;
    while i < a.len()
        invariant
            i <= a@.len(),
            out@ == pairs_qs(a@.subrange(0, i as int)),
        decreases a@.len() - i,
    {
        proof {
            assert(decreases_to!(a => a@[i as int].1));
        }
        let t = a[i].1.query_string();
        let ghost prev = out@;
        if i > 0 {
            out.append("&");
        }
        out.append(a[i].0.as_str());
        out.append("=");
        out.append(t.as_str());
        proof {
            assert(a@.subrange(0, i + 1).drop_last() =~= a@.subrange(0, i as int));
            if i == 0 {
                assert(out@ =~= a@[0].0@ + "="@ + t@);
            } else {
                assert(out@ =~= prev + "&"@ + (a@[i as int].0@ + "="@ + t@));
            }
        }
        i = i + 1;
    }
    assert(a@.subrange(0, i as int) =~= a@);
    out
}

impl Value {
    /// The query-string text of the value.
    pub fn query_string(&self) -> (r: String)
        ensures
            r@ == value_qs(*self),
        decreases self,
    {
        match self {
            Value::Bool(b) => if *b { String::from_str("true") } else { String::from_str("false") },
            Value::Int(i) => int_text(*i),
            Value::Float(t) => t.clone(),
            Value::String(s) => s.clone(),
            Value::Object(o) => o.query_string(),
            Value::Array(a) => items_to_qs(a),
            Value::Null => String::new(),
            Value::Variable(_) => String::new(),
        }
    }
}

impl Object {
    /// The object as `key=value` pairs joined by `&`.
    pub fn query_string(&self) -> (r: String)
        ensures
            r@ == pairs_qs(self.entries@),
        decreases self,
    {
        pairs_to_qs(&self.entries)
    }
}

} // verus!
