//! The dynamic value model: values, objects and variable references, their
//! mathematical model, deep copies and the lookups of an object.
use vstd::prelude::*;

verus! {

/// The declared type of a query variable.
#[derive(Clone, Copy, Debug, PartialEq, Eq, Structural)]
pub enum VariableType {
    Int,
    String,
}

/// A reference to a query variable, `$name` of a declared type.
#[derive(Clone, Debug)]
pub struct Variable {
    pub name: String,
    pub variable_type: VariableType,
}

/// Builds a variable reference.
pub fn variable(name: &str, variable_type: VariableType) -> (r: Variable)
    ensures
        r.name@ == name@,
        r.variable_type == variable_type,
{
    Variable { name: String::from_str(name), variable_type }
}

/// A mapping from text keys to values, kept in insertion order, each key once.
#[derive(Debug)]
pub struct Object {
    pub entries: Vec<(String, Value)>,
}

/// A dynamic value. A float is held as the decimal text that Rust's float
/// formatting writes for it.
#[derive(Debug)]
pub enum Value {
    Null,
    Bool(bool),
    Int(i64),
    Float(String),
    String(String),
    Variable(Variable),
    Object(Object),
    Array(Vec<Value>),
}

/// The mathematical model of a value: texts as character sequences,
/// integers as `int`, objects as ordered key/value sequences.
pub enum Model {
    Null,
    Bool(bool),
    Int(int),
    Float(Seq<char>),
    Text(Seq<char>),
    Var(Seq<char>, VariableType),
    Object(Seq<(Seq<char>, Model)>),
    Array(Seq<Model>),
}

/// The key/value pairs of an object's entries, keys seen as texts.
pub open spec fn pairs_of(s: Seq<(String, Value)>) -> Seq<(Seq<char>, Value)> {
    Seq::new(s.len(), |i: int| (s[i].0@, s[i].1))
}

impl Object {
    /// The entries of the object, in order, keys seen as texts.
    pub open spec fn view(&self) -> Seq<(Seq<char>, Value)> {
        pairs_of(self.entries@)
    }
}

/// The model of a value.
pub open spec fn model(v: Value) -> Model
    decreases v,
{
    match v {
        Value::Null => Model::Null,
        Value::Bool(b) => Model::Bool(b),
        Value::Int(i) => Model::Int(i as int),
        Value::Float(t) => Model::Float(t@),
        Value::String(s) => Model::Text(s@),
        Value::Variable(x) => Model::Var(x.name@, x.variable_type),
        Value::Object(o) => Model::Object(entries_model(o.entries@)),
        Value::Array(a) => Model::Array(list_model(a@)),
    }
}

pub open spec fn list_model(s: Seq<Value>) -> Seq<Model>
    decreases s,
{
    if s.len() == 0 {
        Seq::empty()
    } else {
        list_model(s.drop_last()).push(model(s.last()))
    }
}

pub open spec fn entries_model(s: Seq<(String, Value)>) -> Seq<(Seq<char>, Model)>
    decreases s,
{
    if s.len() == 0 {
        Seq::empty()
    } else {
        entries_model(s.drop_last()).push((s.last().0@, model(s.last().1)))
    }
}


/// Some entry has key `k`.
pub open spec fn has_key(s: Seq<(Seq<char>, Value)>, k: Seq<char>) -> bool {
    exists|i: int| 0 <= i < s.len() && s[i].0 == k
}

/// No key stands twice.
pub open spec fn keys_unique(s: Seq<(Seq<char>, Value)>) -> bool {
    forall|i: int, j: int| 0 <= i < s.len() && 0 <= j < s.len() && i != j ==> s[i].0 != s[j].0
}

/// `i` is the first position of key `k`.
pub open spec fn is_first(s: Seq<(Seq<char>, Value)>, k: Seq<char>, i: int) -> bool {
    &&& 0 <= i < s.len()
    &&& s[i].0 == k
    &&& forall|j: int| 0 <= j < i ==> s[j].0 != k
}

/// The value under the first occurrence of key `k`, if any.
pub open spec fn lookup(s: Seq<(Seq<char>, Value)>, k: Seq<char>) -> Option<Value> {
    if has_key(s, k) {
        Some(s[choose|i: int| is_first(s, k, i)].1)
    } else {
        None
    }
}

/// `lookup` finds the entry at the first position of its key.
pub proof fn lemma_lookup_first(s: Seq<(Seq<char>, Value)>, k: Seq<char>, i: int)
    requires
        is_first(s, k, i),
    ensures
        lookup(s, k) == Some(s[i].1),
{
    assert(has_key(s, k));
    let j = choose|j: int| is_first(s, k, j);
    assert(is_first(s, k, j));
    if j < i {
        assert(s[j].0 != k);
    }
    if i < j {
        assert(s[i].0 != k);
    }
}

/// With unique keys, the entry at `i` is the one that `lookup` finds.
pub proof fn lemma_lookup_at(s: Seq<(Seq<char>, Value)>, i: int)
    requires
        keys_unique(s),
        0 <= i < s.len(),
    ensures
        lookup(s, s[i].0) == Some(s[i].1),
{
    assert forall|j: int| 0 <= j < i implies s[j].0 != s[i].0 by {
        assert(j != i);
    }
    lemma_lookup_first(s, s[i].0, i);
}

impl Object {
    /// Each key stands once.
    pub open spec fn wf(&self) -> bool {
        keys_unique(self@)
    }

    /// An empty object.
    pub fn new() -> (r: Object)
        ensures
            r@ == Seq::<(Seq<char>, Value)>::empty(),
            r.wf(),
    {
        Object { entries: Vec::new() }
    }

    /// The number of entries.
    pub fn len(&self) -> (r: usize)
        ensures
            r == self@.len(),
    {
        self.entries.len()
    }

    /// Whether the object has no entries.
    pub fn is_empty(&self) -> (r: bool)
        ensures
            r == (self@.len() == 0),
    {
        self.entries.len() == 0
    }

    /// The position of key `k`, if it is present.
    pub fn position(&self, k: &str) -> (r: Option<usize>)
        ensures
            r.is_none() == !has_key(self@, k@),
            r matches Some(i) ==> is_first(self@, k@, i as int),
    {
        let key = String::from_str(k);
        let mut i: usize = 0;
        while i < self.entries.len()
            invariant
                i <= self.entries@.len(),
                key@ == k@,
                forall|j: int| 0 <= j < i ==> self@[j].0 != k@,
            decreases self.entries@.len() - i,
        {
            if self.entries[i].0 == key {
                assert(self@[i as int].0 == k@);
                return Some(i);
            }
            i = i + 1;
        }
        None
    }

    /// Whether key `k` is present.
    pub fn contains_key(&self, k: &str) -> (r: bool)
        ensures
            r == has_key(self@, k@),
    {
        self.position(k).is_some()
    }

    /// The value under key `k`.
    pub fn get(&self, k: &str) -> (r: Option<&Value>)
        ensures
            r matches Some(v) ==> lookup(self@, k@) == Some(*v),
            r.is_none() ==> lookup(self@, k@).is_none(),
    {
        match self.position(k) {
            Some(i) => {
                proof {
                    lemma_lookup_first(self@, k@, i as int);
                }
                Some(&self.entries[i].1)
            },
            None => None,
        }
    }

    /// Sets key `k` to `v`: in place where the key stands, else at the end.
    pub fn insert(&mut self, k: String, v: Value)
        requires
            old(self).wf(),
        ensures
            final(self).wf(),
            has_key(old(self)@, k@) ==> exists|i: int|
                0 <= i < old(self)@.len() && old(self)@[i].0 == k@
                && final(self)@ == old(self)@.update(i, (k@, v)),
            !has_key(old(self)@, k@) ==> final(self)@ == old(self)@.push((k@, v)),
            lookup(final(self)@, k@) == Some(v),
    {
        match self.position(k.as_str()) {
            Some(i) => {
                let ghost before = self@;
                self.entries.set(i, (k, v));
                assert(self@ =~= before.update(i as int, (k@, v)));
                proof {
                    lemma_lookup_at(self@, i as int);
                }
            },
            None => {
                let ghost before = self@;
                self.entries.push((k, v));
                assert(self@ =~= before.push((k@, v)));
                proof {
                    lemma_lookup_at(self@, before.len() as int);
                }
            },
        }
    }

    /// Takes the value under key `k` out of the object.
    pub fn remove(&mut self, k: &str) -> (r: Option<Value>)
        ensures
            r == lookup(old(self)@, k@),
            r is None ==> final(self)@ == old(self)@,
            r is Some ==> exists|i: int| is_first(old(self)@, k@, i) && final(self)@ == old(self)@.remove(i),
            old(self).wf() ==> final(self).wf(),
    {
        match self.position(k) {
            Some(i) => {
                proof {
                    lemma_lookup_first(self@, k@, i as int);
                }
                let ghost before = self@;
                let e = self.entries.remove(i);
                assert(self@ =~= before.remove(i as int));
                Some(e.1)
            },
            None => None,
        }
    }

    /// A deep copy of the object.
    pub fn copy(&self) -> (r: Object)
        ensures
            entries_model(r.entries@) == entries_model(self.entries@),
            r@.len() == self@.len(),
            forall|j: int| 0 <= j < self@.len() ==> #[trigger] r@[j].0 == self@[j].0,
            self.wf() ==> r.wf(),
        decreases self, 0nat,
    {
        let mut out: Vec<(String, Value)> = Vec::new();
        let mut i: usize = 0;
        while i < self.entries.len()
            invariant
                i <= self.entries@.len(),
                out@.len() == i,
                entries_model(out@) == entries_model(self.entries@.subrange(0, i as int)),
                forall|j: int| 0 <= j < i ==> #[trigger] out@[j].0@ == self.entries@[j].0@,
            decreases self.entries@.len() - i,
        {
            let e = &self.entries[i];
            proof {
                assert(decreases_to!(self => self.entries@[i as int].1));
            }
            let c = e.1.copy();
            let ghost prev = out@;
            out.push((e.0.clone(), c));
            proof {
                assert(out@.drop_last() =~= prev);
                assert(self.entries@.subrange(0, i + 1).drop_last() =~= self.entries@.subrange(0, i as int));
            }
            i = i + 1;
        }
        assert(self.entries@.subrange(0, i as int) =~= self.entries@);
        let r = Object { entries: out };
        assert(forall|j: int| 0 <= j < self@.len() ==> #[trigger] r@[j].0 == self@[j].0);
        r
    }
}

/// A deep copy of a list of values.
pub fn copy_list(a: &Vec<Value>) -> (r: Vec<Value>)
    ensures
        list_model(r@) == list_model(a@),
    decreases a, 0nat,
{
    let mut out: Vec<Value> = Vec::new();
    let mut i: usize = 0;
    while i < a.len()
        invariant
            i <= a@.len(),
            list_model(out@) == list_model(a@.subrange(0, i as int)),
        decreases a@.len() - i,
    {
        proof {
            assert(decreases_to!(a => a@[i as int]));
        }
        let c = a[i].copy();
        let ghost prev = out@;
        out.push(c);
        proof {
            assert(out@.drop_last() =~= prev);
            assert(a@.subrange(0, i + 1).drop_last() =~= a@.subrange(0, i as int));
        }
        i = i + 1;
    }
    assert(a@.subrange(0, i as int) =~= a@);
    out
}

impl Value {
    /// A deep copy of the value.
    pub fn copy(&self) -> (r: Value)
        ensures
            model(r) == model(*self),
        decreases self, 1nat,
    {
        match self {
            Value::Null => Value::Null,
            Value::Bool(b) => Value::Bool(*b),
            Value::Int(i) => Value::Int(*i),
            Value::Float(t) => Value::Float(t.clone()),
            Value::String(s) => Value::String(s.clone()),
            Value::Variable(x) => Value::Variable(Variable { name: x.name.clone(), variable_type: x.variable_type }),
            Value::Object(o) => Value::Object(o.copy()),
            Value::Array(a) => Value::Array(copy_list(a)),
        }
    }
}

} // verus!

verus! {

/// Every character is an ASCII digit.
pub open spec fn all_digits(s: Seq<char>) -> bool {
    forall|i: int| 0 <= i < s.len() ==> '0' <= #[trigger] s[i] && s[i] <= '9'
}

/// The number that a sequence of decimal digits writes.
pub open spec fn digits_value(s: Seq<char>) -> int
    decreases s.len(),
{
    if s.len() == 0 {
        0
    } else {
        digits_value(s.drop_last()) * 10 + (s.last() as int - '0' as int)
    }
}

/// The integer that `s` writes in base ten: one or more digits after an
/// optional `+`, or after a `-` where `signed` holds.
pub open spec fn int_literal(s: Seq<char>, signed: bool) -> Option<int> {
    if s.len() > 0 && (s[0] == '+' || (signed && s[0] == '-')) {
        let d = s.subrange(1, s.len() as int);
        if d.len() > 0 && all_digits(d) {
            Some(if s[0] == '-' { -digits_value(d) } else { digits_value(d) })
        } else {
            None
        }
    } else if s.len() > 0 && all_digits(s) {
        Some(digits_value(s))
    } else {
        None
    }
}

/// Relies on `str::parse::<i128>`: decimal digits after an optional sign,
/// refused when empty, malformed or out of range.
#[verifier::external_body]
fn parse_i128(s: &str) -> (r: Option<i128>)
    ensures
        r.is_some() == (int_literal(s@, true) matches Some(n) && i128::MIN <= n <= i128::MAX),
        r matches Some(n) ==> int_literal(s@, true) == Some(n as int),
{
    s.parse::<i128>().ok()
}

/// Relies on `str::parse::<u128>`: decimal digits after an optional `+`,
/// refused when empty, malformed, negative or out of range.
#[verifier::external_body]
fn parse_u128(s: &str) -> (r: Option<u128>)
    ensures
        r.is_some() == (int_literal(s@, false) matches Some(n) && n <= u128::MAX),
        r matches Some(n) ==> int_literal(s@, false) == Some(n as int),
{
    s.parse::<u128>().ok()
}

/// `k` is the position of the first `.` in `t`, or its length if none.
pub open spec fn is_first_dot(t: Seq<char>, k: int) -> bool {
    &&& 0 <= k <= t.len()
    &&& (k == t.len() || t[k] == '.')
    &&& forall|j: int| 0 <= j < k ==> t[j] != '.'
}

/// The part of a float's text before its decimal point.
pub open spec fn whole_part(t: Seq<char>) -> Seq<char> {
    t.subrange(0, choose|k: int| is_first_dot(t, k))
}

proof fn lemma_first_dot_unique(t: Seq<char>, k: int)
    requires
        is_first_dot(t, k),
    ensures
        whole_part(t) == t.subrange(0, k),
{
    let c = choose|c: int| is_first_dot(t, c);
    assert(is_first_dot(t, c));
    if c < k {
        assert(t[c] != '.');
    }
    if k < c {
        assert(t[k] != '.');
    }
}

proof fn lemma_digits_value_nonneg(s: Seq<char>)
    requires
        all_digits(s),
    ensures
        digits_value(s) >= 0,
    decreases s.len(),
{
    if s.len() > 0 {
        assert(all_digits(s.drop_last())) by {
            assert forall|i: int| 0 <= i < s.drop_last().len() implies '0' <= #[trigger] s.drop_last()[i] && s.drop_last()[i] <= '9' by {
                assert(s.drop_last()[i] == s[i]);
            }
        }
        lemma_digits_value_nonneg(s.drop_last());
        assert('0' <= s[s.len() - 1]);
    }
}

/// A literal's sign shows in its first character.
proof fn lemma_literal_sign(s: Seq<char>, signed: bool)
    requires
        int_literal(s, signed) is Some,
    ensures
        int_literal(s, signed)->0 < 0 ==> s[0] == '-',
        s[0] == '-' ==> int_literal(s, signed)->0 <= 0,
{
    if s[0] == '+' || (signed && s[0] == '-') {
        lemma_digits_value_nonneg(s.subrange(1, s.len() as int));
    } else {
        lemma_digits_value_nonneg(s);
        assert(!('0' <= s[0] && s[0] <= '9') ==> false);
    }
}

pub open spec fn clamp(n: int, lo: int, hi: int) -> int {
    if n < lo { lo } else if n > hi { hi } else { n }
}

/// A float's text cast to an integer range: truncated toward zero and
/// saturated at the bounds; not-a-number gives zero.
pub open spec fn float_cast(t: Seq<char>, lo: int, hi: int) -> int {
    if t.len() > 0 && t[0] == '-' && lo == 0 {
        0
    } else {
        match int_literal(whole_part(t), lo < 0) {
            Some(n) => clamp(n, lo, hi),
            None => if t == "NaN"@ { 0 } else if t.len() > 0 && t[0] == '-' { lo } else { hi },
        }
    }
}

/// What `as_i32` gives for a value.
pub open spec fn i32_of(v: Value) -> Option<i32> {
    match v {
        Value::Int(x) => Some(x as i32),
        _ => match coerced(v, i32::MIN as int, i32::MAX as int) {
            Some(n) => Some(n as i32),
            None => None,
        },
    }
}

/// What `as_bool` gives for a value.
pub open spec fn bool_of(v: Value) -> Option<bool> {
    match v {
        Value::Bool(b) => Some(b),
        Value::Int(i) => Some(i != 0),
        _ => None,
    }
}

/// What a non-`Int` value coerces to in the integer range `lo..=hi`.
pub open spec fn coerced(v: Value, lo: int, hi: int) -> Option<int> {
    match v {
        Value::Float(t) => Some(float_cast(t@, lo, hi)),
        Value::String(s) => match int_literal(s@, lo < 0) {
            Some(n) => if lo <= n <= hi { Some(n) } else { None },
            None => None,
        },
        _ => None,
    }
}


/// The first character of a text, if any.
fn first_char(s: &str) -> (r: Option<char>)
    ensures
        r is Some == (s@.len() > 0),
        r matches Some(c) ==> c == s@[0],
{
    if s.unicode_len() == 0 {
        None
    } else {
        Some(s.get_char(0))
    }
}

/// The part of a text before its first `.`.
fn whole_text(t: &str) -> (r: &str)
    ensures
        r@ == whole_part(t@),
        r@.len() <= t@.len(),
        r@ == t@.subrange(0, r@.len() as int),
{
    let n = t.unicode_len();
    let mut k: usize = 0;
    while k < n && t.get_char(k) != '.'
        invariant
            n == t@.len(),
            k <= n,
            forall|j: int| 0 <= j < k ==> t@[j] != '.',
        decreases n - k,
    {
        k = k + 1;
    }
    proof {
        lemma_first_dot_unique(t@, k as int);
    }
    t.substring_char(0, k)
}

fn is_nan_text(t: &String) -> (r: bool)
    ensures
        r == (t@ == "NaN"@),
{
    let nan = String::from_str("NaN");
    *t == nan
}

impl Value {
    /// The coercion of a float or text into `lo..=hi`, for signed targets.
    fn signed_coerced(&self, lo: i128, hi: i128) -> (r: Option<i128>)
        requires
            lo < 0 < hi,
        ensures
            r is Some == coerced(*self, lo as int, hi as int) is Some,
            r matches Some(n) ==> coerced(*self, lo as int, hi as int) == Some(n as int),
    {
        match self {
            Value::Float(t) => {
                let w = whole_text(t.as_str());
                match parse_i128(w) {
                    Some(n) => Some(if n < lo { lo } else if n > hi { hi } else { n }),
                    None => {
                        if is_nan_text(t) {
                            proof {
                                reveal_strlit("NaN");
                                if let Some(n) = int_literal(w@, true) {
                                    assert(w@[0] == t@[0]);
                                }
                            }
                            Some(0)
                        } else {
                            let neg = first_char(t.as_str()) == Some('-');
                            proof {
                                if let Some(n) = int_literal(w@, true) {
                                    lemma_literal_sign(w@, true);
                                    assert(w@[0] == t@[0]);
                                }
                            }
                            Some(if neg { lo } else { hi })
                        }
                    },
                }
            },
            Value::String(s) => match parse_i128(s.as_str()) {
                Some(n) => if lo <= n && n <= hi { Some(n) } else { None },
                None => None,
            },
            _ => None,
        }
    }

    /// The coercion of a float or text into `0..=hi`, for unsigned targets.
    fn unsigned_coerced(&self, hi: u128) -> (r: Option<u128>)
        requires
            0 < hi,
        ensures
            r is Some == coerced(*self, 0, hi as int) is Some,
            r matches Some(n) ==> coerced(*self, 0, hi as int) == Some(n as int),
    {
        match self {
            Value::Float(t) => {
                if first_char(t.as_str()) == Some('-') {
                    Some(0)
                } else {
                    let w = whole_text(t.as_str());
                    match parse_u128(w) {
                        Some(n) => Some(if n > hi { hi } else { n }),
                        None => if is_nan_text(t) {
                            proof {
                                reveal_strlit("NaN");
                                if let Some(n) = int_literal(w@, false) {
                                    assert(w@[0] == t@[0]);
                                }
                            }
                            Some(0)
                        } else {
                            Some(hi)
                        },
                    }
                }
            },
            Value::String(s) => match parse_u128(s.as_str()) {
                Some(n) => if n <= hi { Some(n) } else { None },
                None => None,
            },
            _ => None,
        }
    }
}

impl Value {
    /// The value as an `i8`: an integer cast, a float truncated and
    /// saturated, or a text that writes an integer in range.
    pub fn as_i8(&self) -> (r: Option<i8>)
        ensures
            self matches Value::Int(v) ==> r == Some(v as i8),
            !(self is Int) ==> r is Some == coerced(*self, i8::MIN as int, i8::MAX as int) is Some,
            !(self is Int) && r is Some ==> coerced(*self, i8::MIN as int, i8::MAX as int) == Some(r->0 as int),
    {
        match self {
            Value::Int(v) => Some(*v as i8),
            _ => match self.signed_coerced(i8::MIN as i128, i8::MAX as i128) {
                Some(n) => Some(n as i8),
                None => None,
            },
        }
    }

    /// The value as an `i16`: an integer cast, a float truncated and
    /// saturated, or a text that writes an integer in range.
    pub fn as_i16(&self) -> (r: Option<i16>)
        ensures
            self matches Value::Int(v) ==> r == Some(v as i16),
            !(self is Int) ==> r is Some == coerced(*self, i16::MIN as int, i16::MAX as int) is Some,
            !(self is Int) && r is Some ==> coerced(*self, i16::MIN as int, i16::MAX as int) == Some(r->0 as int),
    {
        match self {
            Value::Int(v) => Some(*v as i16),
            _ => match self.signed_coerced(i16::MIN as i128, i16::MAX as i128) {
                Some(n) => Some(n as i16),
                None => None,
            },
        }
    }

    /// The value as an `i32`: an integer cast, a float truncated and
    /// saturated, or a text that writes an integer in range.
    pub fn as_i32(&self) -> (r: Option<i32>)
        ensures
            r == i32_of(*self),
            self matches Value::Int(v) ==> r == Some(v as i32),
            !(self is Int) ==> r is Some == coerced(*self, i32::MIN as int, i32::MAX as int) is Some,
            !(self is Int) && r is Some ==> coerced(*self, i32::MIN as int, i32::MAX as int) == Some(r->0 as int),
    {
        match self {
            Value::Int(v) => Some(*v as i32),
            _ => match self.signed_coerced(i32::MIN as i128, i32::MAX as i128) {
                Some(n) => Some(n as i32),
                None => None,
            },
        }
    }

    /// The value as an `i64`: an integer cast, a float truncated and
    /// saturated, or a text that writes an integer in range.
    pub fn as_i64(&self) -> (r: Option<i64>)
        ensures
            self matches Value::Int(v) ==> r == Some(*v),
            !(self is Int) ==> r is Some == coerced(*self, i64::MIN as int, i64::MAX as int) is Some,
            !(self is Int) && r is Some ==> coerced(*self, i64::MIN as int, i64::MAX as int) == Some(r->0 as int),
    {
        match self {
            Value::Int(v) => Some(*v),
            _ => match self.signed_coerced(i64::MIN as i128, i64::MAX as i128) {
                Some(n) => Some(n as i64),
                None => None,
            },
        }
    }

    /// The value as an `i128`: an integer cast, a float truncated and
    /// saturated, or a text that writes an integer in range.
    pub fn as_i128(&self) -> (r: Option<i128>)
        ensures
            self matches Value::Int(v) ==> r == Some(v as i128),
            !(self is Int) ==> r is Some == coerced(*self, i128::MIN as int, i128::MAX as int) is Some,
            !(self is Int) && r is Some ==> coerced(*self, i128::MIN as int, i128::MAX as int) == Some(r->0 as int),
    {
        match self {
            Value::Int(v) => Some(*v as i128),
            _ => match self.signed_coerced(i128::MIN as i128, i128::MAX as i128) {
                Some(n) => Some(n as i128),
                None => None,
            },
        }
    }

    /// The value as a `u8`: an integer cast, a float truncated and
    /// saturated, or a text that writes an integer in range.
    pub fn as_u8(&self) -> (r: Option<u8>)
        ensures
            self matches Value::Int(v) ==> r == Some(v as u8),
            !(self is Int) ==> r is Some == coerced(*self, 0, u8::MAX as int) is Some,
            !(self is Int) && r is Some ==> coerced(*self, 0, u8::MAX as int) == Some(r->0 as int),
    {
        match self {
            Value::Int(v) => Some(*v as u8),
            _ => match self.unsigned_coerced(u8::MAX as u128) {
                Some(n) => Some(n as u8),
                None => None,
            },
        }
    }

    /// The value as a `u16`: an integer cast, a float truncated and
    /// saturated, or a text that writes an integer in range.
    pub fn as_u16(&self) -> (r: Option<u16>)
        ensures
            self matches Value::Int(v) ==> r == Some(v as u16),
            !(self is Int) ==> r is Some == coerced(*self, 0, u16::MAX as int) is Some,
            !(self is Int) && r is Some ==> coerced(*self, 0, u16::MAX as int) == Some(r->0 as int),
    {
        match self {
            Value::Int(v) => Some(*v as u16),
            _ => match self.unsigned_coerced(u16::MAX as u128) {
                Some(n) => Some(n as u16),
                None => None,
            },
        }
    }

    /// The value as a `u32`: an integer cast, a float truncated and
    /// saturated, or a text that writes an integer in range.
    pub fn as_u32(&self) -> (r: Option<u32>)
        ensures
            self matches Value::Int(v) ==> r == Some(v as u32),
            !(self is Int) ==> r is Some == coerced(*self, 0, u32::MAX as int) is Some,
            !(self is Int) && r is Some ==> coerced(*self, 0, u32::MAX as int) == Some(r->0 as int),
    {
        match self {
            Value::Int(v) => Some(*v as u32),
            _ => match self.unsigned_coerced(u32::MAX as u128) {
                Some(n) => Some(n as u32),
                None => None,
            },
        }
    }

    /// The value as a `u64`: an integer cast, a float truncated and
    /// saturated, or a text that writes an integer in range.
    pub fn as_u64(&self) -> (r: Option<u64>)
        ensures
            self matches Value::Int(v) ==> r == Some(v as u64),
            !(self is Int) ==> r is Some == coerced(*self, 0, u64::MAX as int) is Some,
            !(self is Int) && r is Some ==> coerced(*self, 0, u64::MAX as int) == Some(r->0 as int),
    {
        match self {
            Value::Int(v) => Some(*v as u64),
            _ => match self.unsigned_coerced(u64::MAX as u128) {
                Some(n) => Some(n as u64),
                None => None,
            },
        }
    }

    /// The value as a `u128`: an integer cast, a float truncated and
    /// saturated, or a text that writes an integer in range.
    pub fn as_u128(&self) -> (r: Option<u128>)
        ensures
            self matches Value::Int(v) ==> r == Some(v as u128),
            !(self is Int) ==> r is Some == coerced(*self, 0, u128::MAX as int) is Some,
            !(self is Int) && r is Some ==> coerced(*self, 0, u128::MAX as int) == Some(r->0 as int),
    {
        match self {
            Value::Int(v) => Some(*v as u128),
            _ => match self.unsigned_coerced(u128::MAX as u128) {
                Some(n) => Some(n as u128),
                None => None,
            },
        }
    }

    /// The value as a boolean: a boolean itself, or an integer other than zero.
    pub fn as_bool(&self) -> (r: Option<bool>)
        ensures
            r == bool_of(*self),
    {
        match self {
            Value::Bool(b) => Some(*b),
            Value::Int(i) => Some(*i != 0),
            _ => None,
        }
    }

    /// A copy of the text, for a text value.
    pub fn as_string(&self) -> (r: Option<String>)
        ensures
            r is Some == self is String,
            r matches Some(s) ==> s@ == self->String_0@,
    {
        match self {
            Value::String(s) => Some(s.clone()),
            _ => None,
        }
    }

    /// The text, for a text value.
    pub fn as_str(&self) -> (r: Option<&str>)
        ensures
            r is Some == self is String,
            r matches Some(s) ==> s@ == self->String_0@,
    {
        match self {
            Value::String(s) => Some(s.as_str()),
            _ => None,
        }
    }

    /// A copy of the object, for an object value.
    pub fn as_object(&self) -> (r: Option<Object>)
        ensures
            r is Some == self is Object,
            r matches Some(o) ==> entries_model(o.entries@) == entries_model(self->Object_0.entries@)
                && o@.len() == self->Object_0@.len(),
    {
        match self {
            Value::Object(o) => Some(o.copy()),
            _ => None,
        }
    }

    /// A copy of the items, for an array value.
    pub fn as_array(&self) -> (r: Option<Vec<Value>>)
        ensures
            r is Some == self is Array,
            r matches Some(a) ==> list_model(a@) == list_model(self->Array_0@),
    {
        match self {
            Value::Array(a) => Some(copy_list(a)),
            _ => None,
        }
    }

    /// Whether the value is a text.
    pub fn is_string(&self) -> (r: bool)
        ensures
            r == self is String,
    {
        match self {
            Value::String(_) => true,
            _ => false,
        }
    }
}

} // verus!

verus! {

impl From<bool> for Value {
    fn from(v: bool) -> Value {
        Value::Bool(v)
    }
}

impl vstd::std_specs::convert::FromSpecImpl<bool> for Value {
    open spec fn obeys_from_spec() -> bool {
        true
    }

    open spec fn from_spec(v: bool) -> Value {
        Value::Bool(v)
    }
}

impl From<i64> for Value {
    fn from(v: i64) -> Value {
        Value::Int(v)
    }
}

impl vstd::std_specs::convert::FromSpecImpl<i64> for Value {
    open spec fn obeys_from_spec() -> bool {
        true
    }

    open spec fn from_spec(v: i64) -> Value {
        Value::Int(v)
    }
}

impl From<i32> for Value {
    fn from(v: i32) -> Value {
        Value::Int(v as i64)
    }
}

impl vstd::std_specs::convert::FromSpecImpl<i32> for Value {
    open spec fn obeys_from_spec() -> bool {
        true
    }

    open spec fn from_spec(v: i32) -> Value {
        Value::Int(v as i64)
    }
}

impl From<String> for Value {
    fn from(v: String) -> Value {
        Value::String(v)
    }
}

impl vstd::std_specs::convert::FromSpecImpl<String> for Value {
    open spec fn obeys_from_spec() -> bool {
        true
    }

    open spec fn from_spec(v: String) -> Value {
        Value::String(v)
    }
}

impl From<Object> for Value {
    fn from(v: Object) -> Value {
        Value::Object(v)
    }
}

impl vstd::std_specs::convert::FromSpecImpl<Object> for Value {
    open spec fn obeys_from_spec() -> bool {
        true
    }

    open spec fn from_spec(v: Object) -> Value {
        Value::Object(v)
    }
}

impl From<Vec<Value>> for Value {
    fn from(v: Vec<Value>) -> Value {
        Value::Array(v)
    }
}

impl vstd::std_specs::convert::FromSpecImpl<Vec<Value>> for Value {
    open spec fn obeys_from_spec() -> bool {
        true
    }

    open spec fn from_spec(v: Vec<Value>) -> Value {
        Value::Array(v)
    }
}

impl From<Variable> for Value {
    fn from(v: Variable) -> Value {
        Value::Variable(v)
    }
}

impl vstd::std_specs::convert::FromSpecImpl<Variable> for Value {
    open spec fn obeys_from_spec() -> bool {
        true
    }

    open spec fn from_spec(v: Variable) -> Value {
        Value::Variable(v)
    }
}

impl Value {
    /// A text value.
    pub fn text(s: &str) -> (r: Value)
        ensures
            r matches Value::String(t) && t@ == s@,
    {
        Value::String(String::from_str(s))
    }
}

} // verus!

verus! {

impl Clone for Value {
    /// A deep copy.
    fn clone(&self) -> Value {
        self.copy()
    }
}

impl Clone for Object {
    /// A deep copy.
    fn clone(&self) -> Object {
        self.copy()
    }
}

} // verus!

verus! {

/// Two values are equal: scalars and texts alike, arrays item by item,
/// objects with as many entries, each key of the first holding an equal
/// value in the second; entry order does not count.
pub open spec fn same(a: Value, b: Value) -> bool
    decreases a,
{
    match (a, b) {
        (Value::Null, Value::Null) => true,
        (Value::Bool(x), Value::Bool(y)) => x == y,
        (Value::Int(x), Value::Int(y)) => x == y,
        (Value::Float(x), Value::Float(y)) => x@ == y@,
        (Value::String(x), Value::String(y)) => x@ == y@,
        (Value::Variable(x), Value::Variable(y)) => x.name@ == y.name@ && x.variable_type == y.variable_type,
        (Value::Object(x), Value::Object(y)) => x.entries@.len() == y.entries@.len() && entries_within(x.entries@, y@),
        (Value::Array(x), Value::Array(y)) => items_same(x@, y@),
        _ => false,
    }
}

/// Each entry's key holds an equal value in `other`.
pub open spec fn entries_within(s: Seq<(String, Value)>, other: Seq<(Seq<char>, Value)>) -> bool
    decreases s,
{
    if s.len() == 0 {
        true
    } else {
        entries_within(s.drop_last(), other) && match lookup(other, s.last().0@) {
            Some(w) => same(s.last().1, w),
            None => false,
        }
    }
}

/// Two lists of equal length whose items are equal in turn.
pub open spec fn items_same(s: Seq<Value>, t: Seq<Value>) -> bool
    decreases s,
{
    s.len() == t.len() && (s.len() == 0 || (items_same(s.drop_last(), t.drop_last()) && same(s.last(), t.last())))
}

fn entries_within_exec(a: &Vec<(String, Value)>, other: &Object) -> (r: bool)
    ensures
        r == entries_within(a@, other@),
    decreases a,
{
    let mut i: usize = 0;
    while i < a.len()
        invariant
            i <= a@.len(),
            entries_within(a@.subrange(0, i as int), other@),
        decreases a@.len() - i,
    {
        proof {
            assert(decreases_to!(a => a@[i as int].1));
            assert(a@.subrange(0, i + 1).drop_last() =~= a@.subrange(0, i as int));
        }
        let ok = match other.get(a[i].0.as_str()) {
            Some(w) => a[i].1.same_as(w),
            None => false,
        };
        if !ok {
            proof {
                if entries_within(a@, other@) {
                    lemma_entries_within_prefix(a@, other@, i as int + 1);
                }
            }
            return false;
        }
        i = i + 1;
    }
    assert(a@.subrange(0, i as int) =~= a@);
    true
}

/// Entries that all hold in `other` hold on every prefix.
proof fn lemma_entries_within_prefix(s: Seq<(String, Value)>, other: Seq<(Seq<char>, Value)>, k: int)
    requires
        0 <= k <= s.len(),
        entries_within(s, other),
    ensures
        entries_within(s.subrange(0, k), other),
    decreases s.len(),
{
    if k < s.len() {
        lemma_entries_within_prefix(s.drop_last(), other, k);
        assert(s.drop_last().subrange(0, k) =~= s.subrange(0, k));
    } else {
        assert(s.subrange(0, k) =~= s);
    }
}

fn items_same_exec(a: &Vec<Value>, b: &Vec<Value>) -> (r: bool)
    ensures
        r == items_same(a@, b@),
    decreases a,
{
    if a.len() != b.len() {
        return false;
    }
    let mut i: usize = 0;
    while i < a.len()
        invariant
            i <= a@.len(),
            a@.len() == b@.len(),
            items_same(a@.subrange(0, i as int), b@.subrange(0, i as int)),
        decreases a@.len() - i,
    {
        proof {
            assert(decreases_to!(a => a@[i as int]));
            assert(a@.subrange(0, i + 1).drop_last() =~= a@.subrange(0, i as int));
            assert(b@.subrange(0, i + 1).drop_last() =~= b@.subrange(0, i as int));
        }
        if !a[i].same_as(&b[i]) {
            proof {
                if items_same(a@, b@) {
                    lemma_items_prefix(a@, b@, i as int + 1);
                }
            }
            return false;
        }
        i = i + 1;
    }
    assert(a@.subrange(0, i as int) =~= a@);
    assert(b@.subrange(0, i as int) =~= b@);
    true
}

/// Lists that are equal item by item are so on every common prefix.
proof fn lemma_items_prefix(s: Seq<Value>, t: Seq<Value>, k: int)
    requires
        s.len() == t.len(),
        0 <= k <= s.len(),
        items_same(s, t),
    ensures
        items_same(s.subrange(0, k), t.subrange(0, k)),
    decreases s.len(),
{
    if k < s.len() {
        lemma_items_prefix(s.drop_last(), t.drop_last(), k);
        assert(s.drop_last().subrange(0, k) =~= s.subrange(0, k));
        assert(t.drop_last().subrange(0, k) =~= t.subrange(0, k));
    } else {
        assert(s.subrange(0, k) =~= s);
        assert(t.subrange(0, k) =~= t);
    }
}

impl Value {
    /// Whether two values are equal, objects compared as key sets.
    pub fn same_as(&self, other: &Value) -> (r: bool)
        ensures
            r == same(*self, *other),
        decreases self,
    {
        match (self, other) {
            (Value::Null, Value::Null) => true,
            (Value::Bool(x), Value::Bool(y)) => *x == *y,
            (Value::Int(x), Value::Int(y)) => *x == *y,
            (Value::Float(x), Value::Float(y)) => *x == *y,
            (Value::String(x), Value::String(y)) => *x == *y,
            (Value::Variable(x), Value::Variable(y)) => x.name == y.name && x.variable_type == y.variable_type,
            (Value::Object(x), Value::Object(y)) => x.entries.len() == y.entries.len() && entries_within_exec(&x.entries, y),
            (Value::Array(x), Value::Array(y)) => items_same_exec(x, y),
            _ => false,
        }
    }
}

} // verus!

verus! {

impl PartialEq for Value {
    fn eq(&self, other: &Value) -> (r: bool) {
        self.same_as(other)
    }
}

impl vstd::std_specs::cmp::PartialEqSpecImpl for Value {
    open spec fn obeys_eq_spec() -> bool {
        true
    }

    open spec fn eq_spec(&self, other: &Value) -> bool {
        same(*self, *other)
    }
}

} // verus!

verus! {

impl Object {
    /// Whether each key stands once.
    pub fn keys_are_unique(&self) -> (r: bool)
        ensures
            r == self.wf(),
    {
        let n = self.entries.len();
        let mut i: usize = 0;
        while i < n
            invariant
                n == self.entries@.len(),
                i <= n,
                forall|p: int, q: int| 0 <= p < i && 0 <= q < n && p != q ==> self@[p].0 != self@[q].0,
            decreases n - i,
        {
            let mut j: usize = 0;
            while j < n
                invariant
                    n == self.entries@.len(),
                    i < n,
                    j <= n,
                    forall|p: int, q: int| 0 <= p < i && 0 <= q < n && p != q ==> self@[p].0 != self@[q].0,
                    forall|q: int| 0 <= q < j && q != i ==> self@[i as int].0 != self@[q].0,
                decreases n - j,
            {
                if j != i && self.entries[i].0 == self.entries[j].0 {
                    assert(self@[i as int].0 == self@[j as int].0);
                    return false;
                }
                j = j + 1;
            }
            i = i + 1;
        }
        true
    }
}

} // verus!
