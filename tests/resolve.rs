use pnwkit::config::Config;
use pnwkit::field::{field, field_as, FieldType};
use pnwkit::kit::Kit;
use pnwkit::query::{Query, QueryType};
use pnwkit::value::{variable, Object, Value, VariableType};

#[test]
fn simple_query_renders() {
    let kit = Kit::new(Config::new());
    let q = kit.query().field(field("nations").add_field_leaf("id"));
    assert_eq!(q.resolve(), "query { nations{__typename id} }");
}

#[test]
fn paginated_query_renders() {
    let kit = Kit::new(Config::new());
    let q = kit.query().field(field("nations").will_paginate().add_field_leaf("id"));
    assert_eq!(
        q.resolve(),
        "query($__page: Int) { __paginate:nations(page: $__page){__typename data{__typename id} paginatorInfo{__typename count currentPage firstItem hasMorePages lastItem lastPage perPage total}} }"
    );
}

#[test]
fn page_argument_given_is_kept() {
    let q = Query::new(QueryType::Query).field(
        field("nations")
            .is_paginated()
            .set_argument("page".to_string(), Value::Int(3))
            .add_field_leaf("id"),
    );
    let text = q.resolve();
    assert!(text.starts_with("query($__page: Int) { nations(page: 3){"));
    assert!(!text.contains("page: $__page"));
}

#[test]
fn alias_arguments_and_variables_render() {
    let q = Query::new(QueryType::Mutation).field(
        field_as("nations", "n")
            .set_argument("id".to_string(), Value::from(variable("id", VariableType::Int)))
            .set_argument("name".to_string(), Value::String("a\"b".to_string()))
            .add_field_node(field("cities").add_field_leaf("name"))
            .add_field(FieldType::Leaf("score".to_string())),
    );
    assert_eq!(
        q.resolve(),
        "mutation($id: Int) { n:nations(id: $id, name: \"a\\\"b\"){__typename cities{__typename name} score} }"
    );
}

#[test]
fn literals_render() {
    let mut o = Object::new();
    o.insert("a".to_string(), Value::Int(1));
    o.insert("b".to_string(), Value::Array(vec![Value::Bool(true), Value::Null, Value::Float("2.5".to_string())]));
    assert_eq!(Value::Object(o).resolve(), "{ a: 1, b: [true, null, 2.5] }");
    assert_eq!(Value::Int(-12).resolve(), "-12");
    assert_eq!(Value::Array(vec![]).resolve(), "[]");
    assert_eq!(Object::new().resolve(), "");
    assert_eq!(variable("x", VariableType::String).resolve(), "$x: String");
    assert_eq!(QueryType::Mutation.resolve(), "mutation");
}

#[test]
fn several_top_fields_and_declared_page() {
    let q = Query::new(QueryType::Query)
        .field(field("a").add_field_leaf("x"))
        .field(
            field("b")
                .will_paginate()
                .set_argument("p".to_string(), Value::from(variable("__page", VariableType::Int)))
                .add_field_leaf("y"),
        );
    let text = q.resolve();
    assert!(text.starts_with("query($__page: Int) { a{__typename x} __paginate:b(p: $__page, page: $__page){"));
}

#[test]
fn query_validation_messages() {
    let empty = Query::new(QueryType::Query);
    assert_eq!(empty.valid(), Err("no fields".to_string()));
    let unnamed = Query::new(QueryType::Query).field(field(""));
    assert_eq!(unnamed.valid(), Err("invalid field: Field name cannot be empty".to_string()));
    assert_eq!(field("").valid(), Err("Field name cannot be empty".to_string()));
    let ok = Query::new(QueryType::Query).field(field("a"));
    assert_eq!(ok.valid(), Ok(()));
}

#[test]
fn variables_and_pagination_are_collected() {
    let f = field("a")
        .set_argument("x".to_string(), Value::from(variable("x", VariableType::Int)))
        .add_field_node(field("b").is_paginated().set_argument("y".to_string(), Value::from(variable("y", VariableType::String))));
    let vars = f.get_variables();
    assert_eq!(vars.len(), 2);
    assert_eq!(vars[0].name, "x");
    assert_eq!(vars[1].name, "y");
    assert!(f.tree_will_paginate());
    assert!(!field("c").tree_will_paginate());
    let q = Query::new(QueryType::Query).field(f);
    assert_eq!(q.get_variables().len(), 2);
}

#[test]
fn well_formed_fields() {
    let f = field("a").set_argument("x".to_string(), Value::Int(1)).add_field_node(field("b"));
    assert!(f.is_well_formed());
    let mut g = field("c");
    g.arguments.entries.push(("k".to_string(), Value::Null));
    g.arguments.entries.push(("k".to_string(), Value::Null));
    assert!(!g.is_well_formed());
    let mut outer = field("d");
    outer.fields.push(FieldType::Node(g));
    assert!(!outer.is_well_formed());
    let d = pnwkit::field::Field::default();
    assert_eq!(d.valid(), Err("Field name cannot be empty".to_string()));
}
