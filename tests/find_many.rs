use prisma_client_rust::args::SerializedWhere;
use prisma_client_rust::find_many::{FindMany, ManyArgs};
use prisma_client_rust::query::{batch_operations, BatchQuery, QueryInfo};
use prisma_client_rust::selection::{Operation, Selection};
use prisma_client_rust::value::{merged_object, Value};

type Pair = (String, Value);
type Query = FindMany<SerializedWhere, Selection, Pair, Pair, Pair, u32>;

fn leaf(name: &str) -> Selection {
    Selection::builder(name.to_string()).build()
}

fn info(model: &str) -> QueryInfo {
    QueryInfo {
        model: model.to_string(),
        scalar_selections: vec![leaf("id"), leaf("name")],
    }
}

fn filter(field: &str, value: Value) -> SerializedWhere {
    SerializedWhere { field: field.to_string(), value }
}

fn pair(key: &str, value: Value) -> Pair {
    (key.to_string(), value)
}

fn root(op: Operation) -> Selection {
    match op {
        Operation::Read(s) => s,
        Operation::Write(_) => panic!("expected a read operation"),
    }
}

fn arg_names(s: &Selection) -> Vec<String> {
    s.arguments.iter().map(|(n, _)| n.clone()).collect()
}

fn child_names(s: &Selection) -> Vec<String> {
    s.nested_selections.iter().map(|c| c.name.clone()).collect()
}

fn show(v: &Value) -> String {
    format!("{:?}", v)
}

#[test]
fn merge_keeps_last_value_on_repeated_key() {
    let v = merged_object(vec![pair("age", Value::Int(18)), pair("age", Value::Int(21))]);
    assert_eq!(show(&v), show(&Value::Object(vec![pair("age", Value::Int(21))])));
}

#[test]
fn merge_keeps_first_position_of_repeated_key() {
    let v = merged_object(vec![
        pair("a", Value::Int(1)),
        pair("b", Value::Bool(true)),
        pair("a", Value::Int(3)),
        pair("c", Value::Null),
    ]);
    let expected = Value::Object(vec![
        pair("a", Value::Int(3)),
        pair("b", Value::Bool(true)),
        pair("c", Value::Null),
    ]);
    assert_eq!(show(&v), show(&expected));
}

#[test]
fn merge_of_nothing_is_empty_object() {
    let v = merged_object(vec![]);
    assert_eq!(show(&v), show(&Value::Object(vec![])));
}

#[test]
fn where_clauses_merge_into_one_argument() {
    let q: Query = FindMany::new(
        info("User"),
        vec![filter("age", Value::Int(18)), filter("age", Value::Int(21))],
    );
    let s = root(q.graphql());
    assert_eq!(arg_names(&s), vec!["where".to_string()]);
    assert_eq!(
        show(&s.arguments[0].1),
        show(&Value::Object(vec![pair("age", Value::Int(21))]))
    );
}

#[test]
fn where_clauses_on_distinct_fields_keep_order() {
    let q: Query = FindMany::new(
        info("User"),
        vec![
            filter("name", Value::String("Ann".to_string())),
            filter("age", Value::Int(30)),
        ],
    );
    let s = root(q.graphql());
    let expected = Value::Object(vec![
        pair("name", Value::String("Ann".to_string())),
        pair("age", Value::Int(30)),
    ]);
    assert_eq!(show(&s.arguments[0].1), show(&expected));
}

#[test]
fn empty_lists_send_no_arguments() {
    let q: Query = FindMany::new(info("User"), vec![]);
    let s = root(q.graphql());
    assert!(s.arguments.is_empty());
}

#[test]
fn order_by_and_cursor_are_sent_as_objects() {
    let q: Query = FindMany::new(info("Post"), vec![])
        .order_by(pair("createdAt", Value::String("desc".to_string())))
        .order_by(pair("createdAt", Value::String("asc".to_string())))
        .cursor(pair("id", Value::Int(7)));
    let s = root(q.graphql());
    assert_eq!(arg_names(&s), vec!["orderBy".to_string(), "cursor".to_string()]);
    assert_eq!(
        show(&s.arguments[0].1),
        show(&Value::Object(vec![pair("createdAt", Value::String("asc".to_string()))]))
    );
    assert_eq!(
        show(&s.arguments[1].1),
        show(&Value::Object(vec![pair("id", Value::Int(7))]))
    );
}

#[test]
fn skip_zero_is_still_sent() {
    let q: Query = FindMany::new(info("User"), vec![]).skip(0);
    let s = root(q.graphql());
    assert_eq!(arg_names(&s), vec!["skip".to_string()]);
    assert_eq!(show(&s.arguments[0].1), show(&Value::Int(0)));
}

#[test]
fn take_alone_is_sent_without_skip() {
    let q: Query = FindMany::new(info("User"), vec![]).take(3);
    let s = root(q.graphql());
    assert_eq!(arg_names(&s), vec!["take".to_string()]);
    assert_eq!(show(&s.arguments[0].1), show(&Value::Int(3)));
}

#[test]
fn all_arguments_come_in_fixed_order() {
    let q: Query = FindMany::new(info("User"), vec![filter("id", Value::Int(1))])
        .take(2)
        .cursor(pair("id", Value::Int(1)))
        .skip(1)
        .order_by(pair("id", Value::String("asc".to_string())));
    let s = root(q.graphql());
    let names: Vec<String> = ["where", "orderBy", "cursor", "skip", "take"]
        .iter()
        .map(|n| n.to_string())
        .collect();
    assert_eq!(arg_names(&s), names);
}

#[test]
fn skip_and_take_scenario() {
    let q: Query = FindMany::new(info("User"), vec![]).skip(5).take(10);
    let s = root(q.graphql());
    assert_eq!(s.name, "findManyUser");
    assert_eq!(s.alias, Some("result".to_string()));
    assert_eq!(arg_names(&s), vec!["skip".to_string(), "take".to_string()]);
    assert_eq!(show(&s.arguments[0].1), show(&Value::Int(5)));
    assert_eq!(show(&s.arguments[1].1), show(&Value::Int(10)));
    assert_eq!(child_names(&s), vec!["id".to_string(), "name".to_string()]);
}

#[test]
fn alias_does_not_depend_on_model() {
    let a: Query = FindMany::new(info("User"), vec![]);
    let b: Query = FindMany::new(info("Post"), vec![]);
    let sa = root(a.graphql());
    let sb = root(b.graphql());
    assert_eq!(sa.name, "findManyUser");
    assert_eq!(sb.name, "findManyPost");
    assert_eq!(sa.alias, Some("result".to_string()));
    assert_eq!(sb.alias, Some("result".to_string()));
}

#[test]
fn relations_follow_default_fields() {
    let q: Query = FindMany::new(info("User"), vec![]).with(leaf("posts")).with(leaf("profile"));
    let s = root(q.graphql());
    let names: Vec<String> = ["id", "name", "posts", "profile"].iter().map(|n| n.to_string()).collect();
    assert_eq!(child_names(&s), names);
}

#[test]
fn select_replaces_all_fields() {
    let q: Query = FindMany::new(info("User"), vec![filter("id", Value::Int(4))])
        .with(leaf("posts"))
        .take(1);
    let op = q.select(vec![leaf("email")]);
    let s = root(op);
    assert_eq!(s.name, "findManyUser");
    assert_eq!(s.alias, Some("result".to_string()));
    assert_eq!(child_names(&s), vec!["email".to_string()]);
    assert_eq!(arg_names(&s), vec!["where".to_string(), "take".to_string()]);
}

#[test]
fn count_keeps_only_the_filter() {
    let q: Query = FindMany::new(
        info("User"),
        vec![filter("a", Value::Int(1)), filter("b", Value::Int(2))],
    )
    .order_by(pair("a", Value::String("asc".to_string())))
    .cursor(pair("a", Value::Int(1)))
    .skip(1)
    .take(2);
    let c = q.count();
    assert_eq!(c.info.model, "User");
    let fields: Vec<String> = c.where_params.iter().map(|w| w.field.clone()).collect();
    assert_eq!(fields, vec!["a".to_string(), "b".to_string()]);
    assert_eq!(show(&c.where_params[1].value), show(&Value::Int(2)));
    assert!(c.order_by_params.is_empty());
    assert!(c.cursor_params.is_empty());
    assert_eq!(c.skip, None);
    assert_eq!(c.take, None);
}

#[test]
fn update_keeps_filter_and_takes_data() {
    let q: Query = FindMany::new(info("User"), vec![filter("a", Value::Int(1))])
        .with(leaf("posts"))
        .skip(3);
    let u = q.update(vec![pair("name", Value::String("Bo".to_string()))]);
    assert_eq!(u.where_params.len(), 1);
    assert_eq!(u.where_params[0].field, "a");
    assert_eq!(u.set_params.len(), 1);
    assert_eq!(u.set_params[0].0, "name");
}

#[test]
fn delete_keeps_only_the_filter() {
    let q: Query = FindMany::new(info("Post"), vec![filter("x", Value::Null)]).take(9);
    let d = q.delete();
    assert_eq!(d.info.model, "Post");
    assert_eq!(d.where_params.len(), 1);
    assert_eq!(d.where_params[0].field, "x");
}

#[test]
fn batch_yields_one_operation_per_query() {
    let queries: Vec<Query> = vec![
        FindMany::new(info("User"), vec![]).skip(1),
        FindMany::new(info("Post"), vec![]).take(2),
        FindMany::new(info("Tag"), vec![]),
    ];
    let ops = batch_operations(queries);
    assert_eq!(ops.len(), 3);
    let roots: Vec<Selection> = ops.into_iter().map(root).collect();
    assert_eq!(roots[0].name, "findManyUser");
    assert_eq!(arg_names(&roots[0]), vec!["skip".to_string()]);
    assert_eq!(roots[1].name, "findManyPost");
    assert_eq!(arg_names(&roots[1]), vec!["take".to_string()]);
    assert_eq!(roots[2].name, "findManyTag");
    assert!(roots[2].arguments.is_empty());
}

#[test]
fn batch_operations_do_not_follow_later_builders() {
    let first: Query = FindMany::new(info("User"), vec![]).skip(1);
    let op = first.graphql();
    let second: Query = FindMany::new(info("User"), vec![]).skip(1).take(5);
    let later = root(second.graphql());
    let s = root(op);
    assert_eq!(arg_names(&s), vec!["skip".to_string()]);
    assert_eq!(arg_names(&later), vec!["skip".to_string(), "take".to_string()]);
}

#[test]
fn convert_passes_results_through() {
    let ok: Result<u32, String> = Ok(7);
    assert_eq!(Query::convert(ok), Ok(7));
    let err: Result<u32, String> = Err("boom".to_string());
    assert_eq!(Query::convert(err), Err("boom".to_string()));
}

#[test]
fn many_args_to_graphql() {
    let args: ManyArgs<SerializedWhere, Selection, Pair, Pair> =
        ManyArgs::new(vec![filter("age", Value::Int(18)), filter("age", Value::Int(21))])
            .with(leaf("posts"))
            .take(0);
    let (arguments, nested) = args.to_graphql();
    let names: Vec<String> = arguments.iter().map(|(n, _)| n.clone()).collect();
    assert_eq!(names, vec!["where".to_string(), "take".to_string()]);
    assert_eq!(
        show(&arguments[0].1),
        show(&Value::Object(vec![pair("age", Value::Int(21))]))
    );
    assert_eq!(show(&arguments[1].1), show(&Value::Int(0)));
    assert_eq!(nested.len(), 1);
    assert_eq!(nested[0].name, "posts");
}

#[test]
fn empty_many_args_give_nothing() {
    let args: ManyArgs<SerializedWhere, Selection, Pair, Pair> = ManyArgs::new(vec![]);
    let (arguments, nested) = args.to_graphql();
    assert!(arguments.is_empty());
    assert!(nested.is_empty());
}

#[test]
fn selection_builder_accumulates() {
    let mut b = Selection::builder("posts".to_string());
    b.alias("p".to_string());
    b.push_argument("take".to_string(), Value::Int(1));
    b.push_argument("take".to_string(), Value::Int(2));
    b.nested_selections(vec![leaf("id")]);
    b.nested_selections(vec![leaf("title")]);
    let s = b.build();
    assert_eq!(s.name, "posts");
    assert_eq!(s.alias, Some("p".to_string()));
    assert_eq!(arg_names(&s), vec!["take".to_string(), "take".to_string()]);
    assert_eq!(child_names(&s), vec!["id".to_string(), "title".to_string()]);
}

#[test]
fn list_values_keep_order() {
    let q: Query = FindMany::new(
        info("User"),
        vec![filter("id", Value::List(vec![Value::Int(3), Value::Int(1)]))],
    );
    let s = root(q.graphql());
    let expected = Value::Object(vec![pair("id", Value::List(vec![Value::Int(3), Value::Int(1)]))]);
    assert_eq!(show(&s.arguments[0].1), show(&expected));
}
