//! JSON text of values, written by the library itself; strings are quoted
//! by serde_json.
use vstd::prelude::*;
use crate::text::{decimal, json_quoted, int_text, quote_json};
use crate::value::{Object, Value};

verus! {

/// A float's text that JSON can carry: neither not-a-number nor infinite.
pub open spec fn finite_text(t: Seq<char>) -> bool {
    t != "NaN"@ && t != "inf"@ && t != "-inf"@
}

/// The JSON text of a float: with a fractional part, so that it reads back
/// as a float; `null` where it is not finite.
pub open spec fn float_json(t: Seq<char>) -> Seq<char> {
    if !finite_text(t) {
        "null"@
    } else if t.contains('.') {
        t
    } else {
        t + ".0"@
    }
}

/// The compact JSON text of a value. A variable reference, which has no JSON
/// form, and a float that is not finite are written as `null`.
pub open spec fn value_json(v: Value) -> Seq<char>
    decreases v,
{
    match v {
        Value::Null => "null"@,
        Value::Bool(b) => if b { "true"@ } else { "false"@ },
        Value::Int(i) => decimal(i as int),
        Value::Float(t) => float_json(t@),
        Value::String(s) => json_quoted(s@),
        Value::Variable(_) => "null"@,
        Value::Object(o) => "{"@ + members_json(o.entries@) + "}"@,
        Value::Array(a) => "["@ + elements_json(a@) + "]"@,
    }
}

/// JSON array elements, separated by commas.
pub open spec fn elements_json(s: Seq<Value>) -> Seq<char>
    decreases s,
{
    if s.len() == 0 {
        Seq::empty()
    } else if s.len() == 1 {
        value_json(s[0])
    } else {
        elements_json(s.drop_last()) + ","@ + value_json(s.last())
    }
}

/// JSON object members, `"key":value`, separated by commas.
pub open spec fn members_json(s: Seq<(String, Value)>) -> Seq<char>
    decreases s,
{
    if s.len() == 0 {
        Seq::empty()
    } else if s.len() == 1 {
        json_quoted(s[0].0@) + ":"@ + value_json(s[0].1)
    } else {
        members_json(s.drop_last()) + ","@ + (json_quoted(s.last().0@) + ":"@ + value_json(s.last().1))
    }
}

fn is_finite_text(t: &String) -> (r: bool)
    ensures
        r == finite_text(t@),
{
    let nan = String::from_str("NaN");
    let inf = String::from_str("inf");
    let neg = String::from_str("-inf");
    !(*t == nan) && !(*t == inf) && !(*t == neg)
}

fn has_dot(t: &str) -> (r: bool)
    ensures
        r == t@.contains('.'),
{
    let n = t.unicode_len();
    let mut i: usize = 0;
    while i < n
        invariant
            n == t@.len(),
            i <= n,
            forall|j: int| 0 <= j < i ==> t@[j] != '.',
        decreases n - i,
    {
        if t.get_char(i) == '.' {
            return true;
        }
        i = i + 1;
    }
    false
}

fn elements_to_json(a: &Vec<Value>) -> (r: String)
    ensures
        r@ == elements_json(a@),
    decreases a,
{
    let mut out = String::new();
    let mut i: usize = 0;
    while i < a.len()
        invariant
            i <= a@.len(),
            out@ == elements_json(a@.subrange(0, i as int)),
        decreases a@.len() - i,
    {
        proof {
            assert(decreases_to!(a => a@[i as int]));
        }
        let t = a[i].to_json();
        let ghost prev = out@;
        if i > 0 {
            out.append(",");
        }
        out.append(t.as_str());
        proof {
            assert(a@.subrange(0, i + 1).drop_last() =~= a@.subrange(0, i as int));
            if i == 0 {
                assert(prev =~= Seq::<char>::empty());
                assert(out@ =~= t@);
            }
        }
        i = i + 1;
    }
    assert(a@.subrange(0, i as int) =~= a@);
    out
}

fn members_to_json(a: &Vec<(String, Value)>) -> (r: String)
    ensures
        r@ == members_json(a@),
    decreases a,
{
    let mut out = String::new();
    let mut i: usize = 0;
    while i < a.len()
        invariant
            i <= a@.len(),
            out@ == members_json(a@.subrange(0, i as int)),
        decreases a@.len() - i,
    {
        proof {
            assert(decreases_to!(a => a@[i as int].1));
        }
        let t = a[i].1.to_json();
        let k = quote_json(a[i].0.as_str());
        let ghost prev = out@;
        if i > 0 {
            out.append(",");
        }
        out.append(k.as_str());
        out.append(":");
        out.append(t.as_str());
        proof {
            assert(a@.subrange(0, i + 1).drop_last() =~= a@.subrange(0, i as int));
            if i == 0 {
                assert(out@ =~= k@ + ":"@ + t@);
            } else {
                assert(out@ =~= prev + ","@ + (k@ + ":"@ + t@));
            }
        }
        i = i + 1;
    }
    assert(a@.subrange(0, i as int) =~= a@);
    out
}

impl Value {
    /// The compact JSON text of the value.
    pub fn to_json(&self) -> (r: String)
        ensures
            r@ == value_json(*self),
        decreases self,
    {
        match self {
            Value::Null => String::from_str("null"),
            Value::Bool(b) => if *b { String::from_str("true") } else { String::from_str("false") },
            Value::Int(i) => int_text(*i),
            Value::Float(t) => {
                if !is_finite_text(t) {
                    String::from_str("null")
                } else if has_dot(t.as_str()) {
                    t.clone()
                } else {
                    let mut out = t.clone();
                    out.append(".0");
                    out
                }
            },
            Value::String(s) => quote_json(s.as_str()),
            Value::Variable(_) => String::from_str("null"),
            Value::Object(o) => o.to_json(),
            Value::Array(a) => {
                let mut out = String::from_str("[");
                let t = elements_to_json(a);
                out.append(t.as_str());
                out.append("]");
                out
            },
        }
    }
}

impl Object {
    /// The compact JSON text of the object, members in order.
    pub fn to_json(&self) -> (r: String)
        ensures
            r@ == "{"@ + members_json(self.entries@) + "}"@,
        decreases self,
    {
        let mut out = String::from_str("{");
        let t = members_to_json(&self.entries);
        out.append(t.as_str());
        out.append("}");
        out
    }
}

} // verus!
