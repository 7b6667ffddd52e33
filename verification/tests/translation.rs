//! The backend translation contract: conditions, queries and sort rules
//! flatten into dot-path-addressed, backend-neutral documents.

use ardite::query::{Condition, Filter, Projection, Query, Range, SortRule};
use ardite::query::{flatten_condition, flatten_query, flatten_sort_rules, translate_read};
use ardite::value::Value;

fn s(text: &str) -> String {
    text.to_string()
}

#[test]
fn test_condition_to_filter() {
    let condition = Condition::Or(vec![
        Condition::True,
        Condition::False,
        Condition::And(vec![
            Condition::Not(Box::new(Condition::Equal(Value::String(s("hello"))))),
            Condition::Equal(Value::I64(42)),
        ]),
        Condition::Keys(vec![
            (s("a"), Condition::False),
            (
                s("b"),
                Condition::Keys(vec![
                    (s("c"), Condition::Equal(Value::I64(4))),
                    (s("d"), Condition::Keys(vec![(s("e"), Condition::True)])),
                ]),
            ),
        ]),
    ]);
    let filter = Filter::Or(vec![
        Filter::True,
        Filter::False,
        Filter::And(vec![
            Filter::Not(Box::new(Filter::Equal(Value::String(s("hello"))))),
            Filter::Equal(Value::I64(42)),
        ]),
        Filter::Fields(vec![
            (s("a"), Filter::False),
            (s("b.c"), Filter::Equal(Value::I64(4))),
            (s("b.d.e"), Filter::True),
        ]),
    ]);
    assert_eq!(flatten_condition(&condition), filter);
}

#[test]
fn test_sort_rules_to_sort() {
    let sort = vec![
        SortRule::new(vec![s("hello"), s("world")], true),
        SortRule::new(vec![s("a")], false),
    ];
    let flattened = flatten_sort_rules(&sort);
    assert_eq!(flattened, vec![(s("hello.world"), true), (s("a"), false)]);
}

#[test]
fn test_query_to_projection() {
    let query = Query::Keys(vec![
        (s("a"), Query::All),
        (s("b"), Query::All),
        (
            s("c"),
            Query::Keys(vec![
                (s("d"), Query::All),
                (
                    s("e"),
                    Query::Keys(vec![
                        (s("f"), Query::Keys(vec![(s("g"), Query::All)])),
                        (s("h"), Query::All),
                    ]),
                ),
            ]),
        ),
        (s("i"), Query::All),
        (s("hello"), Query::Keys(vec![(s("world"), Query::All)])),
        (s("goodbye"), Query::All),
    ]);
    let projection = flatten_query(&query);
    assert_eq!(
        projection,
        Projection::Include(vec![
            s("a"),
            s("b"),
            s("c.d"),
            s("c.e.f.g"),
            s("c.e.h"),
            s("i"),
            s("hello.world"),
            s("goodbye"),
        ])
    );
}

#[test]
fn test_query_all_projection_stays_all() {
    assert_eq!(flatten_query(&Query::All), Projection::All);
}

#[test]
fn test_flatten_leaf_under_connective_is_not_flattened() {
    // A key-map below a boolean connective starts its own flattening with a
    // fresh path prefix.
    let condition = Condition::Keys(vec![(
        s("a"),
        Condition::And(vec![Condition::Keys(vec![(s("b"), Condition::True)])]),
    )]);
    let filter = flatten_condition(&condition);
    assert_eq!(
        filter,
        Filter::Fields(vec![(
            s("a"),
            Filter::And(vec![Filter::Fields(vec![(s("b"), Filter::True)])]),
        )])
    );
}

#[test]
fn test_translate_read_assembles_all_parts() {
    let condition = Condition::Keys(vec![(s("a"), Condition::Equal(Value::I64(3)))]);
    let sort = vec![SortRule::new(vec![s("b")], true)];
    let range = Range::new(Some(4), Some(2));
    let query = Query::Keys(vec![(s("c"), Query::All)]);
    let request = translate_read(&condition, &sort, &range, &query);
    assert_eq!(
        request.filter,
        Filter::Fields(vec![(s("a"), Filter::Equal(Value::I64(3)))])
    );
    assert_eq!(request.sort, vec![(s("b"), true)]);
    assert_eq!(request.projection, Projection::Include(vec![s("c")]));
    assert_eq!(request.skip, Some(4));
    assert_eq!(request.limit, Some(2));
}

#[test]
fn test_flatten_empty_sort() {
    let flattened = flatten_sort_rules(&vec![]);
    assert_eq!(flattened, vec![]);
}
