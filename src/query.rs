//! Queries and mutations: a kind and a list of top-level fields.
use vstd::prelude::*;
use crate::field::{Field, field_vars, tree_paginates, field_wf};
use crate::value::Variable;

verus! {

/// Whether a document reads or writes.
#[derive(Clone, Copy, Debug, PartialEq, Eq, Structural)]
pub enum QueryType {
    Mutation,
    Query,
}

/// A query or mutation document.
#[derive(Debug)]
pub struct Query {
    pub query_type: QueryType,
    pub fields: Vec<Field>,
}

/// The variables that a list of top-level fields refers to, in order.
pub open spec fn top_vars(s: Seq<Field>) -> Seq<Variable>
    decreases s.len(),
{
    if s.len() == 0 {
        Seq::empty()
    } else {
        top_vars(s.drop_last()) + field_vars(s.last())
    }
}

/// Some top-level field or a descendant is paginated.
pub open spec fn top_paginates(s: Seq<Field>) -> bool {
    exists|i: int| 0 <= i < s.len() && tree_paginates(#[trigger] s[i])
}

/// Every top-level field has a non-empty name.
pub open spec fn names_valid(s: Seq<Field>) -> bool {
    forall|i: int| 0 <= i < s.len() ==> (#[trigger] s[i]).name@.len() > 0
}

impl Query {
    /// All fields hold well-formed argument objects.
    pub open spec fn wf(&self) -> bool {
        forall|i: int| 0 <= i < self.fields@.len() ==> field_wf(#[trigger] self.fields@[i])
    }

    /// A document of the given kind with no fields yet.
    pub fn new(query_type: QueryType) -> (r: Query)
        ensures
            r.query_type == query_type,
            r.fields@.len() == 0,
            r.wf(),
    {
        Query { query_type, fields: Vec::new() }
    }

    /// The document with one more top-level field.
    pub fn field(self, field: Field) -> (r: Query)
        requires
            self.wf(),
            field_wf(field),
        ensures
            r.query_type == self.query_type,
            r.fields@ == self.fields@.push(field),
            r.wf(),
    {
        let mut q = self;
        q.fields.push(field);
        q
    }

    /// The variables that the document refers to, field by field.
    pub fn get_variables(&self) -> (r: Vec<Variable>)
        ensures
            r@ == top_vars(self.fields@),
    {
        let mut vars: Vec<Variable> = Vec::new();
        let mut i: usize = 0;
        while i < self.fields.len()
            invariant
                i <= self.fields@.len(),
                vars@ == top_vars(self.fields@.subrange(0, i as int)),
            decreases self.fields@.len() - i,
        {
            let mut sub = self.fields[i].get_variables();
            vars.append(&mut sub);
            proof {
                assert(self.fields@.subrange(0, i + 1).drop_last() =~= self.fields@.subrange(0, i as int));
            }
            i = i + 1;
        }
        assert(self.fields@.subrange(0, i as int) =~= self.fields@);
        vars
    }

    /// Whether any field of the document paginates.
    pub fn will_paginate(&self) -> (r: bool)
        ensures
            r == top_paginates(self.fields@),
    {
        let mut i: usize = 0;
        while i < self.fields.len()
            invariant
                i <= self.fields@.len(),
                forall|j: int| 0 <= j < i ==> !tree_paginates(#[trigger] self.fields@[j]),
            decreases self.fields@.len() - i,
        {
            if self.fields[i].tree_will_paginate() {
                return true;
            }
            i = i + 1;
        }
        false
    }

    /// `Ok` exactly when there is a field and every field has a name; else
    /// the reason.
    pub fn valid(&self) -> (r: Result<(), String>)
        ensures
            r is Ok == (self.fields@.len() > 0 && names_valid(self.fields@)),
            self.fields@.len() == 0 ==> (r matches Err(m) && m@ == "no fields"@),
            self.fields@.len() > 0 && !names_valid(self.fields@) ==> (r matches Err(m)
                && m@ == "invalid field: "@ + "Field name cannot be empty"@),
    {
        if self.fields.len() == 0 {
            return Err(String::from_str("no fields"));
        }
        let mut i: usize = 0;
        while i < self.fields.len()
            invariant
                i <= self.fields@.len(),
                forall|j: int| 0 <= j < i ==> (#[trigger] self.fields@[j]).name@.len() > 0,
            decreases self.fields@.len() - i,
        {
            match self.fields[i].valid() {
                Err(m) => {
                    let mut msg = String::from_str("invalid field: ");
                    msg.append(m.as_str());
                    return Err(msg);
                },
                Ok(()) => {},
            }
            i = i + 1;
        }
        Ok(())
    }
}

} // verus!
