//! Lazy iteration over a paginated field: the page variable, the paginator
//! block that the server returns, and the queue of items drawn so far.
use vstd::prelude::*;
use std::collections::VecDeque;
use crate::query::Query;
use crate::value::{Object, Value, lookup, i32_of, bool_of};
use crate::variable::Variables;

verus! {

/// The server's account of where pagination stands.
#[derive(Debug, Clone, Copy, PartialEq, Eq, Structural)]
pub struct PaginatorInfo {
    pub count: i32,
    pub current_page: i32,
    pub first_item: i32,
    pub has_more_pages: bool,
    pub last_item: i32,
    pub last_page: i32,
    pub per_page: i32,
    pub total: i32,
}

/// The integer under `key`, where there is one that `as_i32` reads; else `old`.
pub open spec fn int_field(o: Seq<(Seq<char>, Value)>, key: Seq<char>, old: i32) -> i32 {
    match lookup(o, key) {
        Some(v) => match i32_of(v) {
            Some(x) => x,
            None => old,
        },
        None => old,
    }
}

/// The boolean under `key`, where there is one that `as_bool` reads; else `old`.
pub open spec fn bool_field(o: Seq<(Seq<char>, Value)>, key: Seq<char>, old: bool) -> bool {
    match lookup(o, key) {
        Some(v) => match bool_of(v) {
            Some(x) => x,
            None => old,
        },
        None => old,
    }
}

/// The account after a `paginatorInfo` object is read into it.
pub open spec fn info_update(p: PaginatorInfo, v: Value) -> PaginatorInfo {
    match v {
        Value::Object(o) => PaginatorInfo {
            count: int_field(o@, "count"@, p.count),
            current_page: int_field(o@, "currentPage"@, p.current_page),
            first_item: int_field(o@, "firstItem"@, p.first_item),
            has_more_pages: bool_field(o@, "hasMorePages"@, p.has_more_pages),
            last_item: int_field(o@, "lastItem"@, p.last_item),
            last_page: int_field(o@, "lastPage"@, p.last_page),
            per_page: int_field(o@, "perPage"@, p.per_page),
            total: int_field(o@, "total"@, p.total),
        },
        _ => p,
    }
}

pub open spec fn zero_info() -> PaginatorInfo {
    PaginatorInfo {
        count: 0,
        current_page: 0,
        first_item: 0,
        has_more_pages: false,
        last_item: 0,
        last_page: 0,
        per_page: 0,
        total: 0,
    }
}

fn read_int(o: &Object, key: &str, old: i32) -> (r: i32)
    ensures
        r == int_field(o@, key@, old),
{
    match o.get(key) {
        Some(v) => match v.as_i32() {
            Some(x) => x,
            None => old,
        },
        None => old,
    }
}

impl PaginatorInfo {
    /// Reads the fields of a `paginatorInfo` object that are present and
    /// readable; the others keep their values.
    pub fn update(&mut self, value: &Value)
        ensures
            *final(self) == info_update(*old(self), *value),
    {
        if let Value::Object(o) = value {
            self.count = read_int(o, "count", self.count);
            self.current_page = read_int(o, "currentPage", self.current_page);
            self.first_item = read_int(o, "firstItem", self.first_item);
            self.has_more_pages = match o.get("hasMorePages") {
                Some(v) => match v.as_bool() {
                    Some(b) => b,
                    None => self.has_more_pages,
                },
                None => self.has_more_pages,
            };
            self.last_item = read_int(o, "lastItem", self.last_item);
            self.last_page = read_int(o, "lastPage", self.last_page);
            self.per_page = read_int(o, "perPage", self.per_page);
            self.total = read_int(o, "total", self.total);
        }
    }

    /// The account read from a `paginatorInfo` object, absent fields zero.
    pub fn from_value(value: &Value) -> (r: PaginatorInfo)
        ensures
            r == info_update(zero_info(), *value),
    {
        let mut info = PaginatorInfo {
            count: 0,
            current_page: 0,
            first_item: 0,
            has_more_pages: false,
            last_item: 0,
            last_page: 0,
            per_page: 0,
            total: 0,
        };
        info.update(value);
        info
    }
}

/// A cursor over a paginated field.
#[derive(Debug)]
pub struct Paginator {
    pub paginator_info: Option<PaginatorInfo>,
    pub query: Query,
    pub variables: Variables,
    pub queue: VecDeque<Value>,
}

/// The state that the next fill starts from: no pages left, or the page to
/// ask for; `None` where neither the page variable nor the account says.
pub open spec fn next_page(info: Option<PaginatorInfo>, vars: Seq<(Seq<char>, Value)>) -> Option<Option<i64>> {
    if info matches Some(p) && !p.has_more_pages {
        Some(None)
    } else {
        match lookup(vars, "__page"@) {
            Some(Value::Int(i)) => if i < i64::MAX { Some(Some((i + 1) as i64)) } else { None },
            _ => match info {
                Some(p) => Some(Some((p.current_page + 1) as i64)),
                None => None,
            },
        }
    }
}

/// The account after a paginated field's answer: read from its
/// `paginatorInfo` where it has one.
pub open spec fn info_after(info: Option<PaginatorInfo>, result: Value) -> Option<PaginatorInfo> {
    match result {
        Value::Object(o) => match lookup(o@, "paginatorInfo"@) {
            Some(pi) => Some(info_update(
                match info {
                    Some(p) => p,
                    None => zero_info(),
                },
                pi,
            )),
            None => info,
        },
        _ => info,
    }
}

/// The items of a paginated field's answer: its `data` array.
pub open spec fn data_of(result: Value) -> Seq<Value> {
    match result {
        Value::Object(o) => match lookup(o@, "data"@) {
            Some(Value::Array(items)) => items@,
            _ => Seq::empty(),
        },
        _ => Seq::empty(),
    }
}

/// The queue after a run of answers, taken in order from an empty queue.
pub open spec fn drawn(pages: Seq<Value>) -> Seq<Value>
    decreases pages.len(),
{
    if pages.len() == 0 {
        Seq::empty()
    } else {
        drawn(pages.drop_last()) + data_of(pages.last())
    }
}

/// The number of items that a run of answers holds.
pub open spec fn page_sizes(pages: Seq<Value>) -> int
    decreases pages.len(),
{
    if pages.len() == 0 {
        0
    } else {
        page_sizes(pages.drop_last()) + data_of(pages.last()).len()
    }
}

/// Over a run of pages the items come out page after page, each page's
/// items in their order: what an earlier run drew stays a prefix, and the
/// count is the sum of the pages' item counts.
pub proof fn lemma_pages_in_order(pages: Seq<Value>, k: int)
    requires
        0 <= k <= pages.len(),
    ensures
        drawn(pages).len() == page_sizes(pages),
        drawn(pages.subrange(0, k)).len() <= drawn(pages).len(),
        drawn(pages).subrange(0, drawn(pages.subrange(0, k)).len() as int) == drawn(pages.subrange(0, k)),
    decreases pages.len(),
{
    if pages.len() > 0 {
        if k == pages.len() {
            assert(pages.subrange(0, k) =~= pages);
            lemma_pages_in_order(pages.drop_last(), 0);
        } else {
            lemma_pages_in_order(pages.drop_last(), k);
            assert(pages.drop_last().subrange(0, k) =~= pages.subrange(0, k));
            let d = drawn(pages.drop_last());
            let n = drawn(pages.subrange(0, k)).len() as int;
            assert(drawn(pages).subrange(0, n) =~= d.subrange(0, n));
        }
    } else {
        assert(pages.subrange(0, k) =~= pages);
    }
}

impl Paginator {
    pub open spec fn wf(&self) -> bool {
        self.variables.wf()
    }

    /// A paginator with no page fetched yet: `__page` is 0.
    pub fn with_capacity_and_variables(query: Query, capacity: u16, variables: Variables) -> (r: Paginator)
        requires
            variables.wf(),
        ensures
            r.wf(),
            r.paginator_info is None,
            r.query == query,
            r.queue@.len() == 0,
            lookup(r.variables@, "__page"@) == Some(Value::Int(0)),
    {
        let mut variables = variables;
        variables.set(String::from_str("__page"), Value::Int(0));
        Paginator {
            paginator_info: None,
            query,
            variables,
            queue: VecDeque::with_capacity(capacity as usize),
        }
    }

    /// A paginator with no page fetched yet and no other variables.
    pub fn new(query: Query) -> (r: Paginator)
        ensures
            r.wf(),
            r.paginator_info is None,
            r.query == query,
            r.queue@.len() == 0,
            r.variables@ == seq![("__page"@, Value::Int(0))],
    {
        Paginator::with_capacity(query, 0)
    }

    /// As `new`, with room for `capacity` items reserved.
    pub fn with_capacity(query: Query, capacity: u16) -> (r: Paginator)
        ensures
            r.wf(),
            r.paginator_info is None,
            r.query == query,
            r.queue@.len() == 0,
            r.variables@ == seq![("__page"@, Value::Int(0))],
    {
        let mut variables = Variables::with_capacity(1);
        variables.set(String::from_str("__page"), Value::Int(0));
        assert(variables@ =~= seq![("__page"@, Value::Int(0))]);
        Paginator {
            paginator_info: None,
            query,
            variables,
            queue: VecDeque::with_capacity(capacity as usize),
        }
    }

    /// A paginator over the given variables, with `__page` set to 0.
    pub fn with_variables(query: Query, variables: Variables) -> (r: Paginator)
        requires
            variables.wf(),
        ensures
            r.wf(),
            r.paginator_info is None,
            r.query == query,
            r.queue@.len() == 0,
            lookup(r.variables@, "__page"@) == Some(Value::Int(0)),
    {
        Paginator::with_capacity_and_variables(query, 0, variables)
    }

    /// Prepares a fill: `Ok(true)` when the server said there are no more
    /// pages; else advances `__page` to the page to fetch and gives
    /// `Ok(false)`. The page follows the `__page` integer, else the
    /// account's current page.
    pub fn page(&mut self) -> (r: Result<bool, String>)
        requires
            old(self).wf(),
        ensures
            final(self).wf(),
            final(self).paginator_info == old(self).paginator_info,
            final(self).query == old(self).query,
            final(self).queue == old(self).queue,
            match next_page(old(self).paginator_info, old(self).variables@) {
                None => r is Err && final(self).variables == old(self).variables,
                Some(None) => r == Ok::<bool, String>(true) && final(self).variables == old(self).variables,
                Some(Some(n)) => r == Ok::<bool, String>(false)
                    && lookup(final(self).variables@, "__page"@) == Some(Value::Int(n)),
            },
    {
        if let Some(p) = &self.paginator_info {
            if !p.has_more_pages {
                return Ok(true);
            }
        }
        let current = self.variables.map.get("__page");
        let next: i64 = match current {
            Some(Value::Int(i)) => {
                if *i == i64::MAX {
                    return Err(String::from_str("invalid paginator variable"));
                }
                *i + 1
            },
            _ => match &self.paginator_info {
                Some(p) => p.current_page as i64 + 1,
                None => return Err(String::from_str("invalid paginator variable")),
            },
        };
        self.variables.set(String::from_str("__page"), Value::Int(next));
        Ok(false)
    }

    /// Takes in the paginated field of a response: the account is updated
    /// from its `paginatorInfo`, and the items of its `data` join the queue
    /// in order.
    pub fn result(&mut self, result: Value)
        ensures
            final(self).query == old(self).query,
            final(self).variables == old(self).variables,
            final(self).paginator_info == info_after(old(self).paginator_info, result),
            final(self).queue@ == old(self).queue@ + data_of(result),
    {
        if let Value::Object(mut o) = result {
            match o.get("paginatorInfo") {
                Some(pi) => {
                    let info = match self.paginator_info {
                        Some(p) => {
                            let mut q = p;
                            q.update(pi);
                            q
                        },
                        None => PaginatorInfo::from_value(pi),
                    };
                    self.paginator_info = Some(info);
                },
                None => {},
            }
            match o.remove("data") {
                Some(Value::Array(items)) => {
                    let mut items = items;
                    let ghost all = items@;
                    let ghost start = self.queue@;
                    let ghost n = items@.len();
                    let ghost info = self.paginator_info;
                    while items.len() > 0
                        invariant
                            self.paginator_info == info,
                            n == all.len(),
                            items@.len() <= n,
                            items@ == all.subrange(n - items@.len(), n as int),
                            self.queue@ == start + all.subrange(0, n - items@.len()),
                            self.query == old(self).query,
                            self.variables == old(self).variables,
                        decreases items@.len(),
                    {
                        let ghost k = n - items@.len();
                        let x = items.remove(0);
                        self.queue.push_back(x);
                        assert(items@ =~= all.subrange(n - items@.len(), n as int));
                        assert(all.subrange(0, k + 1) =~= all.subrange(0, k).push(x));
                        assert(self.queue@ =~= start + all.subrange(0, n - items@.len()));
                    }
                    assert(all.subrange(0, n as int) =~= all);
                },
                _ => {
                    assert(self.queue@ =~= self.queue@ + Seq::<Value>::empty());
                },
            }
        } else {
            assert(self.queue@ =~= self.queue@ + Seq::<Value>::empty());
        }
    }

    /// Takes in a response's data: its `__paginate` field, which a paginated
    /// document always asks for.
    pub fn fill_with(&mut self, data: Object) -> (r: Result<(), String>)
        ensures
            r is Ok == (lookup(data@, "__paginate"@) is Some),
            r is Err ==> *final(self) == *old(self),
            lookup(data@, "__paginate"@) matches Some(v) ==> {
                &&& final(self).paginator_info == info_after(old(self).paginator_info, v)
                &&& final(self).queue@ == old(self).queue@ + data_of(v)
            },
            final(self).query == old(self).query,
            final(self).variables == old(self).variables,
    {
        let mut data = data;
        match data.remove("__paginate") {
            Some(v) => {
                self.result(v);
                Ok(())
            },
            None => Err(String::from_str("missing __paginate in response")),
        }
    }

    /// Whether the queue is empty, so that `next` must fill first.
    pub fn needs_fill(&self) -> (r: bool)
        ensures
            r == (self.queue@.len() == 0),
    {
        self.queue.len() == 0
    }

    /// The front of the queue.
    pub fn pop(&mut self) -> (r: Option<Value>)
        ensures
            old(self).queue@.len() == 0 ==> r is None && final(self).queue@ == old(self).queue@,
            old(self).queue@.len() > 0 ==> r == Some(old(self).queue@[0])
                && final(self).queue@ == old(self).queue@.drop_first(),
            final(self).query == old(self).query,
            final(self).variables == old(self).variables,
            final(self).paginator_info == old(self).paginator_info,
    {
        let r = self.queue.pop_front();
        proof {
            if r is Some {
                assert(self.queue@ =~= old(self).queue@.drop_first());
            }
        }
        r
    }
}

} // verus!
