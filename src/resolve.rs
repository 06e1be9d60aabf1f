//! Rendering of values, fields and documents as GraphQL text.
use vstd::prelude::*;
use crate::field::{Field, FieldType};
use crate::query::{Query, QueryType, top_vars, top_paginates};
use crate::text::{decimal, json_quoted, int_text, quote_json};
use crate::value::{Object, Value, Variable, VariableType, has_key};

verus! {

pub open spec fn bool_text(b: bool) -> Seq<char> {
    if b { "true"@ } else { "false"@ }
}

/// The GraphQL literal of a value.
pub open spec fn value_text(v: Value) -> Seq<char>
    decreases v,
{
    match v {
        Value::Null => "null"@,
        Value::Bool(b) => bool_text(b),
        Value::Int(i) => decimal(i as int),
        Value::Float(t) => t@,
        Value::String(s) => json_quoted(s@),
        Value::Variable(x) => "$"@ + x.name@,
        Value::Object(o) => "{ "@ + pairs_text(o.entries@) + " }"@,
        Value::Array(a) => "["@ + items_text(a@) + "]"@,
    }
}

/// The literals of a list of values, separated by `, `.
pub open spec fn items_text(s: Seq<Value>) -> Seq<char>
    decreases s,
{
    if s.len() == 0 {
        Seq::empty()
    } else if s.len() == 1 {
        value_text(s[0])
    } else {
        items_text(s.drop_last()) + ", "@ + value_text(s.last())
    }
}

/// The `key: value` pairs of a list of entries, separated by `, `.
pub open spec fn pairs_text(s: Seq<(String, Value)>) -> Seq<char>
    decreases s,
{
    if s.len() == 0 {
        Seq::empty()
    } else if s.len() == 1 {
        s[0].0@ + ": "@ + value_text(s[0].1)
    } else {
        pairs_text(s.drop_last()) + ", "@ + (s.last().0@ + ": "@ + value_text(s.last().1))
    }
}

/// The label under which a field is rendered.
pub open spec fn label_text(f: Field) -> Seq<char> {
    if f.paginate_name {
        "__paginate:"@ + f.name@
    } else {
        match f.alias {
            Some(a) => a@ + ":"@ + f.name@,
            None => f.name@,
        }
    }
}

/// The field is paginated and names no `page` argument of its own.
pub open spec fn needs_page_arg(f: Field) -> bool {
    f.paginate && !has_key(f.arguments@, "page"@)
}

/// The argument list of a field, with `page: $__page` added where the field
/// is paginated and has no `page` argument; empty when there is none.
pub open spec fn args_text(f: Field) -> Seq<char> {
    let body = pairs_text(f.arguments.entries@);
    if needs_page_arg(f) {
        if f.arguments@.len() == 0 {
            "(page: $__page)"@
        } else {
            "("@ + body + ", page: $__page)"@
        }
    } else if f.arguments@.len() == 0 {
        Seq::empty()
    } else {
        "("@ + body + ")"@
    }
}

pub open spec fn page_info_text() -> Seq<char> {
    "paginatorInfo{__typename count currentPage firstItem hasMorePages lastItem lastPage perPage total}"@
}

/// The GraphQL text of a field: label, arguments, and a selection that
/// holds the sub-selections, wrapped in `data` and followed by the paginator
/// block where the field is paginated.
pub open spec fn field_text(f: Field) -> Seq<char>
    decreases f,
{
    let inner = if f.paginate {
        "data{__typename "@ + children_text(f.fields@) + "} "@ + page_info_text()
    } else {
        children_text(f.fields@)
    };
    label_text(f) + args_text(f) + "{__typename "@ + inner + "}"@
}

/// The texts of a list of sub-selections, separated by spaces.
pub open spec fn children_text(s: Seq<FieldType>) -> Seq<char>
    decreases s,
{
    if s.len() == 0 {
        Seq::empty()
    } else if s.len() == 1 {
        child_text(s[0])
    } else {
        children_text(s.drop_last()) + " "@ + child_text(s.last())
    }
}

pub open spec fn child_text(t: FieldType) -> Seq<char>
    decreases t,
{
    match t {
        FieldType::Node(f) => field_text(f),
        FieldType::Leaf(l) => l@,
    }
}

/// The literals of a list of values, separated by `, `.
fn resolve_items(a: &Vec<Value>) -> (r: String)
    ensures
        r@ == items_text(a@),
    decreases a,
{
    let mut out = String::new();
    let mut i: usize = 0;
    while i < a.len()
        invariant
            i <= a@.len(),
            out@ == items_text(a@.subrange(0, i as int)),
        decreases a@.len() - i,
    {
        proof {
            assert(decreases_to!(a => a@[i as int]));
        }
        let t = a[i].resolve();
        let ghost prev = out@;
        if i > 0 {
            out.append(", ");
        }
        out.append(t.as_str());
        proof {
            let sub = a@.subrange(0, i + 1);
            assert(sub.drop_last() =~= a@.subrange(0, i as int));
            if i == 0 {
                assert(prev =~= Seq::<char>::empty());
                assert(out@ =~= t@);
            }
        }
        i = i + 1;
    }
    assert(a@.subrange(0, i as int) =~= a@);
    out
}

/// The `key: value` pairs of a list of entries, separated by `, `.
fn resolve_pairs(a: &Vec<(String, Value)>) -> (r: String)
    ensures
        r@ == pairs_text(a@),
    decreases a,
{
    let mut out = String::new();
    let mut i: usize = 0;
    while i < a.len()
        invariant
            i <= a@.len(),
            out@ == pairs_text(a@.subrange(0, i as int)),
        decreases a@.len() - i,
    {
        proof {
            assert(decreases_to!(a => a@[i as int].1));
        }
        let t = a[i].1.resolve();
        let ghost prev = out@;
        if i > 0 {
            out.append(", ");
        }
        out.append(a[i].0.as_str());
        out.append(": ");
        out.append(t.as_str());
        proof {
            let sub = a@.subrange(0, i + 1);
            assert(sub.drop_last() =~= a@.subrange(0, i as int));
            if i == 0 {
                assert(out@ =~= a@[0].0@ + ": "@ + t@);
            } else {
                assert(out@ =~= prev + ", "@ + (a@[i as int].0@ + ": "@ + t@));
            }
        }
        i = i + 1;
    }
    assert(a@.subrange(0, i as int) =~= a@);
    out
}

impl Value {
    /// The GraphQL literal of the value.
    pub fn resolve(&self) -> (r: String)
        ensures
            r@ == value_text(*self),
        decreases self,
    {
        match self {
            Value::Null => String::from_str("null"),
            Value::Bool(b) => if *b { String::from_str("true") } else { String::from_str("false") },
            Value::Int(i) => int_text(*i),
            Value::Float(t) => t.clone(),
            Value::String(s) => quote_json(s.as_str()),
            Value::Variable(x) => {
                let mut out = String::from_str("$");
                out.append(x.name.as_str());
                out
            },
            Value::Object(o) => o.resolve_literal(),
            Value::Array(a) => {
                let mut out = String::from_str("[");
                let t = resolve_items(a);
                out.append(t.as_str());
                out.append("]");
                out
            },
        }
    }
}

impl Object {
    /// The object as a GraphQL literal: `{ k: v, ... }`.
    pub fn resolve_literal(&self) -> (r: String)
        ensures
            r@ == "{ "@ + pairs_text(self.entries@) + " }"@,
        decreases self,
    {
        let mut out = String::from_str("{ ");
        let t = resolve_pairs(&self.entries);
        out.append(t.as_str());
        out.append(" }");
        out
    }

    /// The object as an argument list: `(k: v, ...)`, or nothing when empty.
    pub fn resolve(&self) -> (r: String)
        ensures
            r@ == if self@.len() == 0 { Seq::empty() } else { "("@ + pairs_text(self.entries@) + ")"@ },
    {
        if self.is_empty() {
            String::new()
        } else {
            let mut out = String::from_str("(");
            let t = resolve_pairs(&self.entries);
            out.append(t.as_str());
            out.append(")");
            out
        }
    }
}

/// The texts of a list of sub-selections, separated by spaces.
fn resolve_children(a: &Vec<FieldType>) -> (r: String)
    ensures
        r@ == children_text(a@),
    decreases a,
{
    let mut out = String::new();
    let mut i: usize = 0;
    while i < a.len()
        invariant
            i <= a@.len(),
            out@ == children_text(a@.subrange(0, i as int)),
        decreases a@.len() - i,
    {
        proof {
            assert(decreases_to!(a => a@[i as int]));
        }
        let t = a[i].resolve();
        let ghost prev = out@;
        if i > 0 {
            out.append(" ");
        }
        out.append(t.as_str());
        proof {
            let sub = a@.subrange(0, i + 1);
            assert(sub.drop_last() =~= a@.subrange(0, i as int));
            if i == 0 {
                assert(prev =~= Seq::<char>::empty());
                assert(out@ =~= t@);
            }
        }
        i = i + 1;
    }
    assert(a@.subrange(0, i as int) =~= a@);
    out
}

impl FieldType {
    /// The GraphQL text of the sub-selection.
    pub fn resolve(&self) -> (r: String)
        ensures
            r@ == child_text(*self),
        decreases self,
    {
        match self {
            FieldType::Node(f) => f.resolve(),
            FieldType::Leaf(l) => l.clone(),
        }
    }
}

impl Field {
    fn resolve_label(&self) -> (r: String)
        ensures
            r@ == label_text(*self),
    {
        if self.paginate_name {
            let mut out = String::from_str("__paginate:");
            out.append(self.name.as_str());
            out
        } else {
            match &self.alias {
                Some(a) => {
                    let mut out = a.clone();
                    out.append(":");
                    out.append(self.name.as_str());
                    out
                },
                None => self.name.clone(),
            }
        }
    }

    fn resolve_arguments(&self) -> (r: String)
        ensures
            r@ == args_text(*self),
    {
        let page_arg = self.paginate && !self.arguments.contains_key("page");
        if page_arg {
            if self.arguments.is_empty() {
                String::from_str("(page: $__page)")
            } else {
                let mut out = String::from_str("(");
                let t = resolve_pairs(&self.arguments.entries);
                out.append(t.as_str());
                out.append(", page: $__page)");
                out
            }
        } else {
            self.arguments.resolve()
        }
    }

    /// The GraphQL text of the field. A paginated field without a `page`
    /// argument of its own is rendered with `page: $__page`.
    pub fn resolve(&self) -> (r: String)
        ensures
            r@ == field_text(*self),
        decreases self,
    {
        let mut out = self.resolve_label();
        let args = self.resolve_arguments();
        out.append(args.as_str());
        out.append("{__typename ");
        let children = resolve_children(&self.fields);
        if self.paginate {
            out.append("data{__typename ");
            out.append(children.as_str());
            out.append("} ");
            out.append("paginatorInfo{__typename count currentPage firstItem hasMorePages lastItem lastPage perPage total}");
        } else {
            out.append(children.as_str());
        }
        out.append("}");
        out
    }
}

pub open spec fn kind_text(k: QueryType) -> Seq<char> {
    match k {
        QueryType::Query => "query"@,
        QueryType::Mutation => "mutation"@,
    }
}

pub open spec fn type_text(t: VariableType) -> Seq<char> {
    match t {
        VariableType::Int => "Int"@,
        VariableType::String => "String"@,
    }
}

/// The declaration of a variable: `$name: Type`.
pub open spec fn decl_text(x: Variable) -> Seq<char> {
    "$"@ + x.name@ + ": "@ + type_text(x.variable_type)
}

/// Declarations separated by `, `.
pub open spec fn decls_text(s: Seq<Variable>) -> Seq<char>
    decreases s.len(),
{
    if s.len() == 0 {
        Seq::empty()
    } else if s.len() == 1 {
        decl_text(s[0])
    } else {
        decls_text(s.drop_last()) + ", "@ + decl_text(s.last())
    }
}

/// Some variable is named `__page`.
pub open spec fn declares_page(s: Seq<Variable>) -> bool {
    exists|i: int| 0 <= i < s.len() && (#[trigger] s[i]).name@ == "__page"@
}

/// The variable block of a document: the variables its fields refer to,
/// with `$__page: Int` added where a field paginates and none is named
/// `__page`; empty when there is none.
pub open spec fn vars_block(q: Query) -> Seq<char> {
    let v = top_vars(q.fields@);
    let extra = top_paginates(q.fields@) && !declares_page(v);
    if v.len() == 0 {
        if extra { "($__page: Int)"@ } else { Seq::empty() }
    } else if extra {
        "("@ + decls_text(v) + ", $__page: Int)"@
    } else {
        "("@ + decls_text(v) + ")"@
    }
}

/// Top-level field texts separated by spaces.
pub open spec fn top_text(s: Seq<Field>) -> Seq<char>
    decreases s.len(),
{
    if s.len() == 0 {
        Seq::empty()
    } else if s.len() == 1 {
        field_text(s[0])
    } else {
        top_text(s.drop_last()) + " "@ + field_text(s.last())
    }
}

/// The GraphQL document of a query: `kind vars { fields }`.
pub open spec fn query_text(q: Query) -> Seq<char> {
    kind_text(q.query_type) + vars_block(q) + " { "@ + top_text(q.fields@) + " }"@
}

impl QueryType {
    /// `query` or `mutation`.
    pub fn resolve(&self) -> (r: String)
        ensures
            r@ == kind_text(*self),
    {
        match self {
            QueryType::Query => String::from_str("query"),
            QueryType::Mutation => String::from_str("mutation"),
        }
    }
}

impl VariableType {
    /// `Int` or `String`.
    pub fn resolve(&self) -> (r: String)
        ensures
            r@ == type_text(*self),
    {
        match self {
            VariableType::Int => String::from_str("Int"),
            VariableType::String => String::from_str("String"),
        }
    }
}

impl Variable {
    /// The declaration `$name: Type`.
    pub fn resolve(&self) -> (r: String)
        ensures
            r@ == decl_text(*self),
    {
        let mut out = String::from_str("$");
        out.append(self.name.as_str());
        out.append(": ");
        let t = self.variable_type.resolve();
        out.append(t.as_str());
        out
    }
}

fn resolve_decls(a: &Vec<Variable>) -> (r: String)
    ensures
        r@ == decls_text(a@),
{
    let mut out = String::new();
    let mut i: usize = 0;
    while i < a.len()
        invariant
            i <= a@.len(),
            out@ == decls_text(a@.subrange(0, i as int)),
        decreases a@.len() - i,
    {
        let t = a[i].resolve();
        let ghost prev = out@;
        if i > 0 {
            out.append(", ");
        }
        out.append(t.as_str());
        proof {
            let sub = a@.subrange(0, i + 1);
            assert(sub.drop_last() =~= a@.subrange(0, i as int));
            if i == 0 {
                assert(prev =~= Seq::<char>::empty());
                assert(out@ =~= t@);
            }
        }
        i = i + 1;
    }
    assert(a@.subrange(0, i as int) =~= a@);
    out
}

fn has_page_variable(a: &Vec<Variable>) -> (r: bool)
    ensures
        r == declares_page(a@),
{
    let page = String::from_str("__page");
    let mut i: usize = 0;
    while i < a.len()
        invariant
            i <= a@.len(),
            page@ == "__page"@,
            forall|j: int| 0 <= j < i ==> (#[trigger] a@[j]).name@ != "__page"@,
        decreases a@.len() - i,
    {
        if a[i].name == page {
            return true;
        }
        i = i + 1;
    }
    false
}

impl Query {
    /// The GraphQL document: kind, variable block, and the top-level fields.
    pub fn resolve(&self) -> (r: String)
        ensures
            r@ == query_text(*self),
    {
        let vars = self.get_variables();
        let extra = self.will_paginate() && !has_page_variable(&vars);
        let mut out = self.query_type.resolve();
        if vars.len() == 0 {
            if extra {
                out.append("($__page: Int)");
            }
        } else {
            out.append("(");
            let d = resolve_decls(&vars);
            out.append(d.as_str());
            if extra {
                out.append(", $__page: Int)");
            } else {
                out.append(")");
            }
        }
        out.append(" { ");
        let mut i: usize = 0;
        let ghost head = out@;
        let mut body = String::new();
        while i < self.fields.len()
            invariant
                i <= self.fields@.len(),
                body@ == top_text(self.fields@.subrange(0, i as int)),
            decreases self.fields@.len() - i,
        {
            let t = self.fields[i].resolve();
            let ghost prev = body@;
            if i > 0 {
                body.append(" ");
            }
            body.append(t.as_str());
            proof {
                let sub = self.fields@.subrange(0, i + 1);
                assert(sub.drop_last() =~= self.fields@.subrange(0, i as int));
                if i == 0 {
                    assert(prev =~= Seq::<char>::empty());
                    assert(body@ =~= t@);
                }
            }
            i = i + 1;
        }
        assert(self.fields@.subrange(0, i as int) =~= self.fields@);
        out.append(body.as_str());
        out.append(" }");
        out
    }
}

} // verus!

verus! {

/// Rendering is a function of the document: two documents of the same kind
/// with the same fields render the same text, and a document's text starts
/// with its kind and ends with its closing brace.
pub proof fn lemma_resolve_deterministic(q1: Query, q2: Query)
    requires
        q1.query_type == q2.query_type,
        q1.fields@ == q2.fields@,
    ensures
        query_text(q1) == query_text(q2),
        query_text(q1).subrange(0, kind_text(q1.query_type).len() as int) == kind_text(q1.query_type),
{
    let k = kind_text(q1.query_type);
    let rest = vars_block(q1) + " { "@ + top_text(q1.fields@) + " }"@;
    assert(query_text(q1) =~= k + rest);
    assert((k + rest).subrange(0, k.len() as int) =~= k);
}

} // verus!
