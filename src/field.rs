//! Fields of a query: a name, an optional alias, arguments, sub-fields, and
//! whether the field is paginated.
use vstd::prelude::*;
use crate::value::{Object, Value, Variable, has_key};

verus! {

/// A sub-selection: a nested field, or a leaf named by text.
#[derive(Debug)]
pub enum FieldType {
    Node(Field),
    Leaf(String),
}

/// A field of a query.
#[derive(Debug)]
pub struct Field {
    pub name: String,
    pub alias: Option<String>,
    pub arguments: Object,
    pub fields: Vec<FieldType>,
    pub paginate: bool,
    pub paginate_name: bool,
}

/// The variables that the arguments of a field refer to, in order.
pub open spec fn arg_vars(s: Seq<(String, Value)>) -> Seq<Variable>
    decreases s.len(),
{
    if s.len() == 0 {
        Seq::empty()
    } else {
        arg_vars(s.drop_last()) + match s.last().1 {
            Value::Variable(x) => seq![x],
            _ => Seq::empty(),
        }
    }
}

/// The variables that a field and its descendants refer to, depth first.
pub open spec fn field_vars(f: Field) -> Seq<Variable>
    decreases f,
{
    arg_vars(f.arguments.entries@) + children_vars(f.fields@)
}

pub open spec fn children_vars(s: Seq<FieldType>) -> Seq<Variable>
    decreases s,
{
    if s.len() == 0 {
        Seq::empty()
    } else {
        children_vars(s.drop_last()) + match s.last() {
            FieldType::Node(f) => field_vars(f),
            FieldType::Leaf(_) => Seq::empty(),
        }
    }
}

/// The field or one of its descendants is paginated.
pub open spec fn tree_paginates(f: Field) -> bool
    decreases f,
{
    f.paginate || children_paginate(f.fields@)
}

pub open spec fn children_paginate(s: Seq<FieldType>) -> bool
    decreases s,
{
    if s.len() == 0 {
        false
    } else {
        children_paginate(s.drop_last()) || match s.last() {
            FieldType::Node(f) => tree_paginates(f),
            FieldType::Leaf(_) => false,
        }
    }
}

/// A field and its descendants hold well-formed argument objects.
pub open spec fn field_wf(f: Field) -> bool
    decreases f,
{
    f.arguments.wf() && children_wf(f.fields@)
}

pub open spec fn children_wf(s: Seq<FieldType>) -> bool
    decreases s,
{
    if s.len() == 0 {
        true
    } else {
        children_wf(s.drop_last()) && match s.last() {
            FieldType::Node(f) => field_wf(f),
            FieldType::Leaf(_) => true,
        }
    }
}

proof fn lemma_children_wf_push(s: Seq<FieldType>, t: FieldType)
    requires
        children_wf(s),
        t matches FieldType::Node(f) ==> field_wf(f),
    ensures
        children_wf(s.push(t)),
{
    assert(s.push(t).drop_last() =~= s);
}

impl Default for Field {
    /// A field with an empty name and nothing else.
    fn default() -> (r: Field)
        ensures
            r.name@.len() == 0,
            r.alias is None,
            r.arguments@.len() == 0,
            r.fields@.len() == 0,
            !r.paginate,
            !r.paginate_name,
            field_wf(r),
    {
        Field {
            name: String::new(),
            alias: None,
            arguments: Object::new(),
            fields: Vec::new(),
            paginate: false,
            paginate_name: false,
        }
    }
}

/// Builds a field with the given name and nothing else.
pub fn field(name: &str) -> (r: Field)
    ensures
        r.name@ == name@,
        r.alias is None,
        r.arguments@.len() == 0,
        r.fields@.len() == 0,
        !r.paginate,
        !r.paginate_name,
        field_wf(r),
{
    Field {
        name: String::from_str(name),
        alias: None,
        arguments: Object::new(),
        fields: Vec::new(),
        paginate: false,
        paginate_name: false,
    }
}

/// Builds a field with the given name, rendered under an alias.
pub fn field_as(name: &str, alias: &str) -> (r: Field)
    ensures
        r.name@ == name@,
        (r.alias matches Some(a) && a@ == alias@),
        r.arguments@.len() == 0,
        r.fields@.len() == 0,
        !r.paginate,
        !r.paginate_name,
        field_wf(r),
{
    field(name).set_alias(String::from_str(alias))
}

impl Field {
    /// The field renamed.
    pub fn set_name(self, name: String) -> (r: Field)
        ensures
            r == (Field { name, ..self }),
    {
        Field { name, ..self }
    }

    /// The field given an alias.
    pub fn set_alias(self, alias: String) -> (r: Field)
        ensures
            r == (Field { alias: Some(alias), ..self }),
    {
        Field { alias: Some(alias), ..self }
    }

    /// The field with argument `name` set to `value`.
    pub fn set_argument(self, name: String, value: Value) -> (r: Field)
        requires
            field_wf(self),
        ensures
            field_wf(r),
            r.name == self.name,
            r.alias == self.alias,
            r.fields == self.fields,
            r.paginate == self.paginate,
            r.paginate_name == self.paginate_name,
            !has_key(self.arguments@, name@) ==> r.arguments@ == self.arguments@.push((name@, value)),
            has_key(self.arguments@, name@) ==> exists|i: int|
                0 <= i < self.arguments@.len() && self.arguments@[i].0 == name@
                && r.arguments@ == self.arguments@.update(i, (name@, value)),
    {
        let mut f = self;
        f.arguments.insert(name, value);
        f
    }

    /// The field with one more sub-selection.
    pub fn add_field(self, field: FieldType) -> (r: Field)
        requires
            field_wf(self),
            field matches FieldType::Node(g) ==> field_wf(g),
        ensures
            field_wf(r),
            r.name == self.name,
            r.alias == self.alias,
            r.arguments == self.arguments,
            r.fields@ == self.fields@.push(field),
            r.paginate == self.paginate,
            r.paginate_name == self.paginate_name,
    {
        let mut f = self;
        proof {
            lemma_children_wf_push(f.fields@, field);
        }
        f.fields.push(field);
        f
    }

    /// The field with one more nested field.
    pub fn add_field_node(self, field: Field) -> (r: Field)
        requires
            field_wf(self),
            field_wf(field),
        ensures
            field_wf(r),
            r.name == self.name,
            r.alias == self.alias,
            r.arguments == self.arguments,
            r.fields@ == self.fields@.push(FieldType::Node(field)),
            r.paginate == self.paginate,
            r.paginate_name == self.paginate_name,
    {
        self.add_field(FieldType::Node(field))
    }

    /// The field with one more leaf.
    pub fn add_field_leaf(self, field: &str) -> (r: Field)
        requires
            field_wf(self),
        ensures
            field_wf(r),
            r.name == self.name,
            r.alias == self.alias,
            r.arguments == self.arguments,
            r.fields@.len() == self.fields@.len() + 1,
            r.fields@.drop_last() == self.fields@,
            (r.fields@.last() matches FieldType::Leaf(l) && l@ == field@),
            r.paginate == self.paginate,
            r.paginate_name == self.paginate_name,
    {
        let r = self.add_field(FieldType::Leaf(String::from_str(field)));
        assert(r.fields@.drop_last() =~= self.fields@);
        r
    }

    /// The field paginated, and rendered under the reserved pagination label.
    pub fn will_paginate(self) -> (r: Field)
        ensures
            r == (Field { paginate: true, paginate_name: true, ..self }),
    {
        Field { paginate: true, paginate_name: true, ..self }
    }

    /// The field paginated, under its own label.
    pub fn is_paginated(self) -> (r: Field)
        ensures
            r == (Field { paginate: true, ..self }),
    {
        Field { paginate: true, ..self }
    }

    /// `Err` exactly when the name is empty.
    pub fn valid(&self) -> (r: Result<(), String>)
        ensures
            r is Ok == (self.name@.len() > 0),
            r matches Err(m) ==> m@ == "Field name cannot be empty"@,
    {
        if self.name.as_str().unicode_len() == 0 {
            Err(String::from_str("Field name cannot be empty"))
        } else {
            Ok(())
        }
    }
}

fn copy_variable(x: &Variable) -> (r: Variable)
    ensures
        r == *x,
{
    Variable { name: x.name.clone(), variable_type: x.variable_type }
}

/// The variables that a list of sub-selections refers to.
fn children_variables(s: &Vec<FieldType>) -> (r: Vec<Variable>)
    ensures
        r@ == children_vars(s@),
    decreases s,
{
    let mut vars: Vec<Variable> = Vec::new();
    let mut j: usize = 0;
    while j < s.len()
        invariant
            j <= s@.len(),
            vars@ == children_vars(s@.subrange(0, j as int)),
        decreases s@.len() - j,
    {
        proof {
            assert(decreases_to!(s => s@[j as int]));
        }
        let mut sub = s[j].variables();
        let ghost prev = vars@;
        vars.append(&mut sub);
        proof {
            assert(s@.subrange(0, j + 1).drop_last() =~= s@.subrange(0, j as int));
        }
        j = j + 1;
    }
    assert(s@.subrange(0, j as int) =~= s@);
    vars
}

/// Whether any of a list of sub-selections paginates.
fn children_paginated(s: &Vec<FieldType>) -> (r: bool)
    ensures
        r == children_paginate(s@),
    decreases s,
{
    let mut j: usize = 0;
    let mut found = false;
    while j < s.len()
        invariant
            j <= s@.len(),
            found == children_paginate(s@.subrange(0, j as int)),
        decreases s@.len() - j,
    {
        proof {
            assert(decreases_to!(s => s@[j as int]));
            assert(s@.subrange(0, j + 1).drop_last() =~= s@.subrange(0, j as int));
        }
        let here = match &s[j] {
            FieldType::Node(f) => f.tree_will_paginate(),
            FieldType::Leaf(_) => false,
        };
        found = found || here;
        j = j + 1;
    }
    assert(s@.subrange(0, j as int) =~= s@);
    found
}

impl FieldType {
    /// The variables that this sub-selection refers to.
    pub fn variables(&self) -> (r: Vec<Variable>)
        ensures
            r@ == match *self {
                FieldType::Node(f) => field_vars(f),
                FieldType::Leaf(_) => Seq::empty(),
            },
        decreases self,
    {
        match self {
            FieldType::Node(f) => f.get_variables(),
            FieldType::Leaf(_) => Vec::new(),
        }
    }
}

impl Field {
    /// The variables that the field's arguments and its descendants' refer
    /// to, depth first.
    pub fn get_variables(&self) -> (r: Vec<Variable>)
        ensures
            r@ == field_vars(*self),
        decreases self,
    {
        let mut vars: Vec<Variable> = Vec::new();
        let args = &self.arguments.entries;
        let mut i: usize = 0;
        while i < args.len()
            invariant
                i <= args@.len(),
                vars@ == arg_vars(args@.subrange(0, i as int)),
            decreases args@.len() - i,
        {
            proof {
                assert(args@.subrange(0, i + 1).drop_last() =~= args@.subrange(0, i as int));
            }
            match &args[i].1 {
                Value::Variable(x) => {
                    let ghost prev = vars@;
                    vars.push(copy_variable(x));
                    assert(vars@ =~= prev + seq![*x]);
                },
                _ => {
                    assert(vars@ =~= vars@ + Seq::<Variable>::empty());
                },
            }
            i = i + 1;
        }
        assert(args@.subrange(0, i as int) =~= args@);
        let mut rest = children_variables(&self.fields);
        vars.append(&mut rest);
        vars
    }

    /// Whether the field or one of its descendants is paginated.
    pub fn tree_will_paginate(&self) -> (r: bool)
        ensures
            r == tree_paginates(*self),
        decreases self,
    {
        if self.paginate {
            true
        } else {
            children_paginated(&self.fields)
        }
    }
}

} // verus!

verus! {

fn children_well_formed(s: &Vec<FieldType>) -> (r: bool)
    ensures
        r == children_wf(s@),
    decreases s,
{
    let mut j: usize = 0;
    while j < s.len()
        invariant
            j <= s@.len(),
            children_wf(s@.subrange(0, j as int)),
        decreases s@.len() - j,
    {
        proof {
            assert(decreases_to!(s => s@[j as int]));
            assert(s@.subrange(0, j + 1).drop_last() =~= s@.subrange(0, j as int));
        }
        let ok = match &s[j] {
            FieldType::Node(f) => f.is_well_formed(),
            FieldType::Leaf(_) => true,
        };
        if !ok {
            proof {
                if children_wf(s@) {
                    lemma_children_wf_prefix(s@, j as int + 1);
                }
            }
            return false;
        }
        j = j + 1;
    }
    assert(s@.subrange(0, j as int) =~= s@);
    true
}

proof fn lemma_children_wf_prefix(s: Seq<FieldType>, k: int)
    requires
        0 <= k <= s.len(),
        children_wf(s),
    ensures
        children_wf(s.subrange(0, k)),
    decreases s.len(),
{
    if k < s.len() {
        lemma_children_wf_prefix(s.drop_last(), k);
        assert(s.drop_last().subrange(0, k) =~= s.subrange(0, k));
    } else {
        assert(s.subrange(0, k) =~= s);
    }
}

impl Field {
    /// Whether the field and its descendants hold argument objects whose
    /// keys stand once.
    pub fn is_well_formed(&self) -> (r: bool)
        ensures
            r == field_wf(*self),
        decreases self,
    {
        self.arguments.keys_are_unique() && children_well_formed(&self.fields)
    }
}

} // verus!
