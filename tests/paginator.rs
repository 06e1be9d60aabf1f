use pnwkit::config::Config;
use pnwkit::field::field;
use pnwkit::kit::Kit;
use pnwkit::paginator::{PaginatorInfo, Paginator};
use pnwkit::query::{Query, QueryType};
use pnwkit::value::{Object, Value};
use pnwkit::variable::Variables;

fn obj(pairs: Vec<(&str, Value)>) -> Value {
    let mut o = Object::new();
    for (k, v) in pairs {
        o.insert(k.to_string(), v);
    }
    Value::Object(o)
}

fn page_answer(ids: Vec<i64>, more: bool, current: i64) -> Object {
    let items = ids.into_iter().map(|i| obj(vec![("id", Value::Int(i))])).collect();
    let inner = obj(vec![
        ("data", Value::Array(items)),
        (
            "paginatorInfo",
            obj(vec![
                ("hasMorePages", Value::Bool(more)),
                ("currentPage", Value::Int(current)),
                ("total", Value::Int(3)),
                ("count", Value::String("2".to_string())),
            ]),
        ),
    ]);
    let mut data = Object::new();
    data.insert("__paginate".to_string(), inner);
    data
}

fn page_var(p: &Paginator) -> Option<i64> {
    p.variables.get("__page".to_string()).and_then(|v| v.as_i64())
}

#[test]
fn pages_advance_and_stop() {
    let kit = Kit::new(Config::new());
    let mut p = kit.paginator(field("nations").will_paginate().add_field_leaf("id"));
    assert_eq!(page_var(&p), Some(0));
    assert!(p.needs_fill());
    assert_eq!(p.page(), Ok(false));
    assert_eq!(page_var(&p), Some(1));
    p.fill_with(page_answer(vec![1, 2], true, 1)).unwrap();
    assert_eq!(p.paginator_info.unwrap().count, 2);
    assert_eq!(p.pop().unwrap().as_object().unwrap().get("id").unwrap().as_i64(), Some(1));
    assert_eq!(p.pop().unwrap().as_object().unwrap().get("id").unwrap().as_i64(), Some(2));
    assert!(p.pop().is_none());
    assert_eq!(p.page(), Ok(false));
    assert_eq!(page_var(&p), Some(2));
    p.fill_with(page_answer(vec![3], false, 2)).unwrap();
    let info = p.paginator_info.unwrap();
    assert!(!info.has_more_pages);
    assert_eq!(info.total, 3);
    assert_eq!(info.current_page, 2);
    assert_eq!(p.pop().unwrap().as_object().unwrap().get("id").unwrap().as_i64(), Some(3));
    assert_eq!(p.page(), Ok(true));
    assert!(p.pop().is_none());
}

#[test]
fn page_falls_back_to_current_page() {
    let q = Query::new(QueryType::Query).field(field("a").will_paginate());
    let mut vars = Variables::new();
    vars.set("other".to_string(), Value::Int(9));
    let mut p = Paginator::with_capacity_and_variables(q, 4, vars);
    p.variables.set("__page".to_string(), Value::String("x".to_string()));
    assert_eq!(p.page(), Err("invalid paginator variable".to_string()));
    p.result(obj(vec![("paginatorInfo", obj(vec![("currentPage", Value::Int(4)), ("hasMorePages", Value::Bool(true))]))]));
    assert_eq!(p.page(), Ok(false));
    assert_eq!(page_var(&p), Some(5));
}

#[test]
fn missing_paginated_field_is_an_error() {
    let mut p = Paginator::new(Query::new(QueryType::Query).field(field("a")));
    assert!(p.fill_with(Object::new()).is_err());
    assert!(p.needs_fill());
}

#[test]
fn paginator_info_reads_fields() {
    let v = obj(vec![
        ("count", Value::Int(10)),
        ("firstItem", Value::Int(1)),
        ("lastItem", Value::Int(10)),
        ("lastPage", Value::Int(5)),
        ("perPage", Value::Int(10)),
        ("hasMorePages", Value::Int(1)),
        ("unknown", Value::Int(0)),
    ]);
    let info = PaginatorInfo::from_value(&v);
    assert_eq!(info.count, 10);
    assert_eq!(info.first_item, 1);
    assert_eq!(info.last_item, 10);
    assert_eq!(info.last_page, 5);
    assert_eq!(info.per_page, 10);
    assert!(info.has_more_pages);
    assert_eq!(info.total, 0);
    let mut again = info;
    again.update(&obj(vec![("total", Value::Int(50))]));
    assert_eq!(again.total, 50);
    assert_eq!(again.count, 10);
}
