//! The query/condition algebra and the backend translation contract. Query
//! describes which fields to return, Condition describes which records match;
//! both are nested key-maps so they can address arbitrarily deep structure,
//! and both flatten into dot-path-addressed documents that every backend
//! adapter must reproduce exactly.

use vstd::prelude::*;

use crate::text::joined;
use crate::value::{Key, Pointer, Value, ValueModel, value_model};

verus! {

/// A request describing which fields of a result to include: everything
/// reachable, or only named sub-paths, recursively.
#[derive(Debug, PartialEq)]
pub enum Query {
    /// Request everything reachable.
    All,
    /// Request only the named sub-paths, each with its own sub-query.
    Keys(Vec<(Key, Query)>),
}

/// A predicate tree describing which records match a read.
#[derive(Debug, PartialEq)]
pub enum Condition {
    /// Every record matches.
    True,
    /// No record matches.
    False,
    /// The negation of a condition.
    Not(Box<Condition>),
    /// All of the conditions hold.
    And(Vec<Condition>),
    /// At least one of the conditions holds.
    Or(Vec<Condition>),
    /// The addressed value equals this value.
    Equal(Value),
    /// A conjunction of per-field sub-conditions.
    Keys(Vec<(Key, Condition)>),
}

/// One ordering rule: the pointer of the property to order by, and whether
/// the order is descending.
#[derive(Debug, PartialEq)]
pub struct SortRule {
    /// The property to order by.
    pub property: Pointer,
    /// Whether the order is descending rather than ascending.
    pub descending: bool,
}

impl SortRule {
    /// Builds a rule ordering by `property`, descending when asked.
    pub fn new(property: Pointer, descending: bool) -> (r: Self)
        ensures
            r.property == property,
            r.descending == descending,
    {
        SortRule { property, descending }
    }
}

/// A pagination window: skip `skip` records, then take at most `limit`.
/// Either may be absent, meaning no skip and no limit respectively.
#[derive(Debug, PartialEq)]
pub struct Range {
    /// How many records to skip before the first one returned.
    pub skip: Option<u64>,
    /// How many records at most to return.
    pub limit: Option<u64>,
}

impl Range {
    /// Builds a window from an optional skip and an optional limit.
    pub fn new(skip: Option<u64>, limit: Option<u64>) -> (r: Self)
        ensures
            r.skip == skip,
            r.limit == limit,
    {
        Range { skip, limit }
    }

    /// How many records to skip, when a skip was asked for.
    pub fn skip(&self) -> (r: Option<u64>)
        ensures
            r == self.skip,
    {
        self.skip
    }

    /// How many records at most to return, when a limit was asked for.
    pub fn limit(&self) -> (r: Option<u64>)
        ensures
            r == self.limit,
    {
        self.limit
    }
}

impl Default for Query {
    /// The default query requests everything.
    fn default() -> (r: Self)
        ensures
            r == Query::All,
    {
        Query::All
    }
}

impl Default for Condition {
    /// The default condition matches every record.
    fn default() -> (r: Self)
        ensures
            r == Condition::True,
    {
        Condition::True
    }
}

impl Default for Range {
    /// The default window skips nothing and has no limit.
    fn default() -> (r: Self)
        ensures
            r.skip is None && r.limit is None,
    {
        Range { skip: None, limit: None }
    }
}

/// A backend-neutral flattened condition: what a backend adapter renders into
/// its native filter document. It mirrors [`Condition`], except that a
/// key-map has been flattened into [`Filter::Fields`]: a list of dot-joined
/// paths, each carrying the translation of the leaf condition at that path.
#[derive(Debug, PartialEq)]
pub enum Filter {
    /// Matches every record.
    True,
    /// Matches no record.
    False,
    /// The negation of a filter.
    Not(Box<Filter>),
    /// All of the filters hold.
    And(Vec<Filter>),
    /// At least one of the filters holds.
    Or(Vec<Filter>),
    /// The addressed value equals this value.
    Equal(Value),
    /// Leaf filters addressed by dot-joined paths, in emission order.
    Fields(Vec<(String, Filter)>),
}

/// The mathematical content of a [`Filter`].
pub ghost enum FilterModel {
    True,
    False,
    Not(Box<FilterModel>),
    And(Seq<FilterModel>),
    Or(Seq<FilterModel>),
    Equal(ValueModel),
    Fields(Seq<(Seq<char>, FilterModel)>),
}

/// The mathematical content of a filter.
pub open spec fn filter_model(f: Filter) -> FilterModel
    decreases f,
{
    match f {
        Filter::True => FilterModel::True,
        Filter::False => FilterModel::False,
        Filter::Not(inner) => FilterModel::Not(Box::new(filter_model(*inner))),
        Filter::And(fs) => FilterModel::And(filter_list_model(fs@)),
        Filter::Or(fs) => FilterModel::Or(filter_list_model(fs@)),
        Filter::Equal(v) => FilterModel::Equal(value_model(v)),
        Filter::Fields(entries) => FilterModel::Fields(filter_fields_model(entries@)),
    }
}

/// The mathematical content of each filter in a sequence.
pub open spec fn filter_list_model(fs: Seq<Filter>) -> Seq<FilterModel>
    decreases fs,
{
    if fs.len() == 0 {
        Seq::empty()
    } else {
        seq![filter_model(fs[0])] + filter_list_model(fs.drop_first())
    }
}

/// The mathematical content of each path-filter pair in a sequence.
pub open spec fn filter_fields_model(entries: Seq<(String, Filter)>) -> Seq<
    (Seq<char>, FilterModel),
>
    decreases entries,
{
    if entries.len() == 0 {
        Seq::empty()
    } else {
        seq![(entries[0].0@, filter_model(entries[0].1))] + filter_fields_model(
            entries.drop_first(),
        )
    }
}

impl View for Filter {
    type V = FilterModel;

    open spec fn view(&self) -> FilterModel {
        filter_model(*self)
    }
}

/// The flattening of a condition, the translation every backend adapter must
/// replicate: boolean connectives translate structurally, and a key-map is
/// flattened into leaf filters at dot-joined paths.
pub open spec fn flatten_condition_spec(c: Condition) -> FilterModel
    decreases c,
{
    match c {
        Condition::True => FilterModel::True,
        Condition::False => FilterModel::False,
        Condition::Not(inner) => FilterModel::Not(Box::new(flatten_condition_spec(*inner))),
        Condition::And(cs) => FilterModel::And(flatten_condition_list(cs@)),
        Condition::Or(cs) => FilterModel::Or(flatten_condition_list(cs@)),
        Condition::Equal(v) => FilterModel::Equal(value_model(v)),
        Condition::Keys(entries) => FilterModel::Fields(
            flatten_condition_keys(Seq::empty(), entries@),
        ),
    }
}

/// The flattening of each condition in a sequence.
pub open spec fn flatten_condition_list(cs: Seq<Condition>) -> Seq<FilterModel>
    decreases cs,
{
    if cs.len() == 0 {
        Seq::empty()
    } else {
        seq![flatten_condition_spec(cs[0])] + flatten_condition_list(cs.drop_first())
    }
}

/// The flattening of a key-map of conditions under a pointer prefix: each
/// entry extends the prefix with its key; a nested key-map keeps flattening
/// under the extended prefix without emitting anything at the intermediate
/// level, and any other condition emits its own translation at the joined
/// path, in iteration order.
pub open spec fn flatten_condition_keys(
    prefix: Seq<Seq<char>>,
    entries: Seq<(Key, Condition)>,
) -> Seq<(Seq<char>, FilterModel)>
    decreases entries,
{
    if entries.len() == 0 {
        Seq::empty()
    } else {
        let key = entries[0].0;
        (match entries[0].1 {
            Condition::Keys(sub) => flatten_condition_keys(prefix.push(key@), sub@),
            _ => seq![
                (joined(prefix.push(key@)), flatten_condition_spec(entries[0].1)),
            ],
        }) + flatten_condition_keys(prefix, entries.drop_first())
    }
}

/// Extending a filter list extends its model by the new filter's model.
proof fn lemma_filter_list_model_push(fs: Seq<Filter>, f: Filter)
    ensures
        filter_list_model(fs.push(f)) == filter_list_model(fs).push(filter_model(f)),
    decreases fs,
{
    if fs.len() == 0 {
        reveal_with_fuel(filter_list_model, 2);
        assert(fs.push(f).drop_first() =~= Seq::<Filter>::empty());
        assert(fs.push(f)[0] == f);
        assert(filter_list_model(fs.push(f)) =~= filter_list_model(fs).push(filter_model(f)));
    } else {
        lemma_filter_list_model_push(fs.drop_first(), f);
        assert(fs.push(f).drop_first() =~= fs.drop_first().push(f));
        assert(fs.push(f)[0] == fs[0]);
        assert(filter_list_model(fs.push(f)) =~= filter_list_model(fs).push(filter_model(f)));
    }
}

/// Extending a path-filter list extends its model by the new pair's model.
proof fn lemma_filter_fields_model_push(entries: Seq<(String, Filter)>, pair: (String, Filter))
    ensures
        filter_fields_model(entries.push(pair)) == filter_fields_model(entries).push(
            (pair.0@, filter_model(pair.1)),
        ),
    decreases entries,
{
    if entries.len() == 0 {
        reveal_with_fuel(filter_fields_model, 2);
        assert(entries.push(pair).drop_first() =~= Seq::<(String, Filter)>::empty());
        assert(entries.push(pair)[0] == pair);
        assert(filter_fields_model(entries.push(pair)) =~= filter_fields_model(entries).push(
            (pair.0@, filter_model(pair.1)),
        ));
    } else {
        lemma_filter_fields_model_push(entries.drop_first(), pair);
        assert(entries.push(pair).drop_first() =~= entries.drop_first().push(pair));
        assert(entries.push(pair)[0] == entries[0]);
        assert(filter_fields_model(entries.push(pair)) =~= filter_fields_model(entries).push(
            (pair.0@, filter_model(pair.1)),
        ));
    }
}

/// Extending a condition list extends its flattening by the new condition's.
proof fn lemma_flatten_condition_list_push(cs: Seq<Condition>, c: Condition)
    ensures
        flatten_condition_list(cs.push(c)) == flatten_condition_list(cs).push(
            flatten_condition_spec(c),
        ),
    decreases cs,
{
    if cs.len() == 0 {
        reveal_with_fuel(flatten_condition_list, 2);
        assert(cs.push(c).drop_first() =~= Seq::<Condition>::empty());
        assert(cs.push(c)[0] == c);
        assert(flatten_condition_list(cs.push(c)) =~= flatten_condition_list(cs).push(
            flatten_condition_spec(c),
        ));
    } else {
        lemma_flatten_condition_list_push(cs.drop_first(), c);
        assert(cs.push(c).drop_first() =~= cs.drop_first().push(c));
        assert(cs.push(c)[0] == cs[0]);
        assert(flatten_condition_list(cs.push(c)) =~= flatten_condition_list(cs).push(
            flatten_condition_spec(c),
        ));
    }
}

/// Flattening a concatenation of key-map entries flattens each part in turn.
proof fn lemma_flatten_condition_keys_concat(
    prefix: Seq<Seq<char>>,
    s1: Seq<(Key, Condition)>,
    s2: Seq<(Key, Condition)>,
)
    ensures
        flatten_condition_keys(prefix, s1 + s2) == flatten_condition_keys(prefix, s1)
            + flatten_condition_keys(prefix, s2),
    decreases s1,
{
    if s1.len() == 0 {
        assert(s1 + s2 =~= s2);
        assert(flatten_condition_keys(prefix, s1) + flatten_condition_keys(prefix, s2)
            =~= flatten_condition_keys(prefix, s2));
    } else {
        lemma_flatten_condition_keys_concat(prefix, s1.drop_first(), s2);
        assert((s1 + s2).drop_first() =~= s1.drop_first() + s2);
        assert((s1 + s2)[0] == s1[0]);
        assert(flatten_condition_keys(prefix, s1 + s2) =~= flatten_condition_keys(prefix, s1)
            + flatten_condition_keys(prefix, s2));
    }
}

/// Translates a condition into its backend-neutral flattened form: boolean
/// connectives translate structurally, and each key-map becomes leaf filters
/// at dot-joined paths.
#[verifier::loop_isolation(false)]
pub fn flatten_condition(c: &Condition) -> (r: Filter)
    ensures
        r@ == flatten_condition_spec(*c),
    decreases *c,
{
    match c {
        Condition::True => Filter::True,
        Condition::False => Filter::False,
        Condition::Not(inner) => Filter::Not(Box::new(flatten_condition(&**inner))),
        Condition::And(cs) => Filter::And(flatten_condition_vec(cs)),
        Condition::Or(cs) => Filter::Or(flatten_condition_vec(cs)),
        Condition::Equal(v) => Filter::Equal(v.clone()),
        Condition::Keys(entries) => {
            let mut out: Vec<(String, Filter)> = Vec::new();
            let prefix: Vec<String> = Vec::new();
            proof {
                assert(decreases_to!(*c => c->Keys_0));
                assert(prefix.deep_view() =~= Seq::<Seq<char>>::empty());
            }
            flatten_condition_keys_into(&mut out, &prefix, entries);
            Filter::Fields(out)
        },
    }
}

/// Translates each condition of a sequence in order.
#[verifier::loop_isolation(false)]
fn flatten_condition_vec(cs: &Vec<Condition>) -> (r: Vec<Filter>)
    ensures
        filter_list_model(r@) == flatten_condition_list(cs@),
    decreases *cs,
{
    let mut out: Vec<Filter> = Vec::new();
    let mut i: usize = 0;
    while i < cs.len()
        invariant
            0 <= i <= cs.len(),
            filter_list_model(out@) == flatten_condition_list(cs@.take(i as int)),
        decreases cs.len() - i,
    {
        proof {
            assert(decreases_to!(*cs => cs[i as int]));
        }
        let f = flatten_condition(&cs[i]);
        let ghost out_before = out@;
        out.push(f);
        proof {
            lemma_filter_list_model_push(out_before, f);
            lemma_flatten_condition_list_push(cs@.take(i as int), cs@[i as int]);
            assert(cs@.take(i + 1) =~= cs@.take(i as int).push(cs@[i as int]));
        }
        i = i + 1;
    }
    proof {
        assert(cs@.take(cs@.len() as int) =~= cs@);
    }
    out
}

/// Appends the flattening of a key-map of conditions under `prefix` to `out`,
/// in iteration order.
#[verifier::loop_isolation(false)]
fn flatten_condition_keys_into(
    out: &mut Vec<(String, Filter)>,
    prefix: &Vec<String>,
    entries: &Vec<(Key, Condition)>,
)
    ensures
        filter_fields_model(final(out)@) == filter_fields_model(old(out)@)
            + flatten_condition_keys(prefix.deep_view(), entries@),
    decreases *entries,
{
    let mut i: usize = 0;
    proof {
        assert(entries@.take(0) =~= Seq::<(Key, Condition)>::empty());
        assert(filter_fields_model(old(out)@) + flatten_condition_keys(
            prefix.deep_view(),
            entries@.take(0),
        ) =~= filter_fields_model(old(out)@));
    }
    while i < entries.len()
        invariant
            0 <= i <= entries.len(),
            filter_fields_model(out@) == filter_fields_model(old(out)@)
                + flatten_condition_keys(prefix.deep_view(), entries@.take(i as int)),
        decreases entries.len() - i,
    {
        let sub_pointer = crate::text::push_key(prefix, &entries[i].0);
        proof {
            assert(decreases_to!(*entries => entries[i as int]));
            assert(decreases_to!(entries[i as int] => entries[i as int].1));
            assert(entries@.take(i + 1) =~= entries@.take(i as int) + seq![entries@[i as int]]);
            lemma_flatten_condition_keys_concat(
                prefix.deep_view(),
                entries@.take(i as int),
                seq![entries@[i as int]],
            );
            assert(seq![entries@[i as int]].drop_first() =~= Seq::<(Key, Condition)>::empty());
            assert(seq![entries@[i as int]][0] == entries@[i as int]);
        }
        match &entries[i].1 {
            Condition::Keys(sub) => {
                proof {
                    assert(decreases_to!(entries[i as int].1 => entries[i as int].1->Keys_0));
                }
                let ghost before_call = out@;
                flatten_condition_keys_into(out, &sub_pointer, sub);
                proof {
                    let pfx = prefix.deep_view();
                    let expanded = flatten_condition_keys(
                        pfx.push(entries@[i as int].0@),
                        entries@[i as int].1->Keys_0@,
                    );
                    assert(flatten_condition_keys(pfx, seq![entries@[i as int]]) =~= expanded);
                    assert(flatten_condition_keys(pfx, entries@.take(i + 1))
                        == flatten_condition_keys(pfx, entries@.take(i as int)) + expanded);
                    assert(filter_fields_model(before_call) == filter_fields_model(old(out)@)
                        + flatten_condition_keys(pfx, entries@.take(i as int)));
                    assert(filter_fields_model(out@) == filter_fields_model(before_call)
                        + expanded);
                    assert((filter_fields_model(old(out)@) + flatten_condition_keys(
                        pfx,
                        entries@.take(i as int),
                    )) + expanded =~= filter_fields_model(old(out)@) + (flatten_condition_keys(
                        pfx,
                        entries@.take(i as int),
                    ) + expanded));
                    assert(filter_fields_model(out@) =~= filter_fields_model(old(out)@)
                        + flatten_condition_keys(pfx, entries@.take(i + 1)));
                }
            },
            _ => {
                let path = crate::text::join_keys(&sub_pointer);
                let leaf = flatten_condition(&entries[i].1);
                let ghost out_before = out@;
                let ghost pair = (path, leaf);
                out.push((path, leaf));
                proof {
                    let pfx = prefix.deep_view();
                    let expanded = seq![
                        (
                            joined(pfx.push(entries@[i as int].0@)),
                            flatten_condition_spec(entries@[i as int].1),
                        ),
                    ];
                    assert(flatten_condition_keys(pfx, seq![entries@[i as int]]) =~= expanded);
                    assert(flatten_condition_keys(pfx, entries@.take(i + 1))
                        == flatten_condition_keys(pfx, entries@.take(i as int)) + expanded);
                    lemma_filter_fields_model_push(out_before, pair);
                    assert(filter_fields_model(out_before).push((pair.0@, filter_model(pair.1)))
                        =~= filter_fields_model(out_before) + expanded);
                    assert((filter_fields_model(old(out)@) + flatten_condition_keys(
                        pfx,
                        entries@.take(i as int),
                    )) + expanded =~= filter_fields_model(old(out)@) + (flatten_condition_keys(
                        pfx,
                        entries@.take(i as int),
                    ) + expanded));
                    assert(filter_fields_model(out@) =~= filter_fields_model(old(out)@)
                        + flatten_condition_keys(pfx, entries@.take(i + 1)));
                }
            },
        }
        i = i + 1;
    }
    proof {
        assert(entries@.take(entries@.len() as int) =~= entries@);
    }
}

/// A backend-neutral flattened projection: everything, or the dot-joined
/// paths to include, in emission order.
#[derive(Debug, PartialEq)]
pub enum Projection {
    /// Include everything reachable.
    All,
    /// Include exactly the values at these dot-joined paths.
    Include(Vec<String>),
}

/// The inclusion paths of a key-map of queries under a pointer prefix: each
/// entry extends the prefix with its key; a nested key-map keeps flattening
/// under the extended prefix without emitting anything at the intermediate
/// level, and a leaf `All` emits the joined path, in iteration order.
pub open spec fn flatten_query_keys(
    prefix: Seq<Seq<char>>,
    entries: Seq<(Key, Query)>,
) -> Seq<Seq<char>>
    decreases entries,
{
    if entries.len() == 0 {
        Seq::empty()
    } else {
        let key = entries[0].0;
        (match entries[0].1 {
            Query::All => seq![joined(prefix.push(key@))],
            Query::Keys(sub) => flatten_query_keys(prefix.push(key@), sub@),
        }) + flatten_query_keys(prefix, entries.drop_first())
    }
}

/// Flattening a concatenation of query entries flattens each part in turn.
proof fn lemma_flatten_query_keys_concat(
    prefix: Seq<Seq<char>>,
    s1: Seq<(Key, Query)>,
    s2: Seq<(Key, Query)>,
)
    ensures
        flatten_query_keys(prefix, s1 + s2) == flatten_query_keys(prefix, s1)
            + flatten_query_keys(prefix, s2),
    decreases s1,
{
    if s1.len() == 0 {
        assert(s1 + s2 =~= s2);
        assert(flatten_query_keys(prefix, s1) + flatten_query_keys(prefix, s2)
            =~= flatten_query_keys(prefix, s2));
    } else {
        lemma_flatten_query_keys_concat(prefix, s1.drop_first(), s2);
        assert((s1 + s2).drop_first() =~= s1.drop_first() + s2);
        assert((s1 + s2)[0] == s1[0]);
        assert(flatten_query_keys(prefix, s1 + s2) =~= flatten_query_keys(prefix, s1)
            + flatten_query_keys(prefix, s2));
    }
}

/// Translates a query into its backend-neutral flattened projection:
/// requesting everything stays a request for everything, and a key-map
/// becomes its inclusion paths.
#[verifier::loop_isolation(false)]
pub fn flatten_query(q: &Query) -> (r: Projection)
    ensures
        match *q {
            Query::All => r == Projection::All,
            Query::Keys(entries) => r is Include && (r->Include_0).deep_view()
                == flatten_query_keys(Seq::empty(), entries@),
        },
    decreases *q,
{
    match q {
        Query::All => Projection::All,
        Query::Keys(entries) => {
            let mut out: Vec<String> = Vec::new();
            let prefix: Vec<String> = Vec::new();
            proof {
                assert(decreases_to!(*q => q->Keys_0));
                assert(prefix.deep_view() =~= Seq::<Seq<char>>::empty());
                assert(out.deep_view() =~= Seq::<Seq<char>>::empty());
            }
            flatten_query_keys_into(&mut out, &prefix, entries);
            Projection::Include(out)
        },
    }
}

/// Appends the inclusion paths of a key-map of queries under `prefix` to
/// `out`, in iteration order.
#[verifier::loop_isolation(false)]
fn flatten_query_keys_into(out: &mut Vec<String>, prefix: &Vec<String>, entries: &Vec<(Key, Query)>)
    ensures
        final(out).deep_view() == old(out).deep_view() + flatten_query_keys(
            prefix.deep_view(),
            entries@,
        ),
    decreases *entries,
{
    let mut i: usize = 0;
    proof {
        assert(entries@.take(0) =~= Seq::<(Key, Query)>::empty());
        assert(old(out).deep_view() + flatten_query_keys(prefix.deep_view(), entries@.take(0))
            =~= old(out).deep_view());
    }
    while i < entries.len()
        invariant
            0 <= i <= entries.len(),
            out.deep_view() == old(out).deep_view() + flatten_query_keys(
                prefix.deep_view(),
                entries@.take(i as int),
            ),
        decreases entries.len() - i,
    {
        let sub_pointer = crate::text::push_key(prefix, &entries[i].0);
        proof {
            assert(decreases_to!(*entries => entries[i as int]));
            assert(decreases_to!(entries[i as int] => entries[i as int].1));
            assert(entries@.take(i + 1) =~= entries@.take(i as int) + seq![entries@[i as int]]);
            lemma_flatten_query_keys_concat(
                prefix.deep_view(),
                entries@.take(i as int),
                seq![entries@[i as int]],
            );
            assert(seq![entries@[i as int]].drop_first() =~= Seq::<(Key, Query)>::empty());
            assert(seq![entries@[i as int]][0] == entries@[i as int]);
        }
        match &entries[i].1 {
            Query::Keys(sub) => {
                proof {
                    assert(decreases_to!(entries[i as int].1 => entries[i as int].1->Keys_0));
                }
                let ghost before_call = out.deep_view();
                flatten_query_keys_into(out, &sub_pointer, sub);
                proof {
                    let pfx = prefix.deep_view();
                    let expanded = flatten_query_keys(
                        pfx.push(entries@[i as int].0@),
                        entries@[i as int].1->Keys_0@,
                    );
                    assert(flatten_query_keys(pfx, seq![entries@[i as int]]) =~= expanded);
                    assert(flatten_query_keys(pfx, entries@.take(i + 1)) == flatten_query_keys(
                        pfx,
                        entries@.take(i as int),
                    ) + expanded);
                    assert((old(out).deep_view() + flatten_query_keys(
                        pfx,
                        entries@.take(i as int),
                    )) + expanded =~= old(out).deep_view() + (flatten_query_keys(
                        pfx,
                        entries@.take(i as int),
                    ) + expanded));
                    assert(out.deep_view() =~= old(out).deep_view() + flatten_query_keys(
                        pfx,
                        entries@.take(i + 1),
                    ));
                }
            },
            Query::All => {
                let path = crate::text::join_keys(&sub_pointer);
                let ghost before_push = out.deep_view();
                out.push(path);
                proof {
                    let pfx = prefix.deep_view();
                    let expanded = seq![joined(pfx.push(entries@[i as int].0@))];
                    assert(flatten_query_keys(pfx, seq![entries@[i as int]]) =~= expanded);
                    assert(flatten_query_keys(pfx, entries@.take(i + 1)) == flatten_query_keys(
                        pfx,
                        entries@.take(i as int),
                    ) + expanded);
                    assert(out.deep_view() =~= before_push + expanded);
                    assert((old(out).deep_view() + flatten_query_keys(
                        pfx,
                        entries@.take(i as int),
                    )) + expanded =~= old(out).deep_view() + (flatten_query_keys(
                        pfx,
                        entries@.take(i as int),
                    ) + expanded));
                    assert(out.deep_view() =~= old(out).deep_view() + flatten_query_keys(
                        pfx,
                        entries@.take(i + 1),
                    ));
                }
            },
        }
        i = i + 1;
    }
    proof {
        assert(entries@.take(entries@.len() as int) =~= entries@);
    }
}

/// Translates sort rules into dot-joined paths, each paired with its
/// descending marker, in rule order.
pub fn flatten_sort_rules(rules: &Vec<SortRule>) -> (r: Vec<(String, bool)>)
    ensures
        r@.len() == rules@.len(),
        forall|i: int| 0 <= i < rules@.len()
            ==> r@[i].0@ == joined(rules@[i].property.deep_view()) && r@[i].1
            == rules@[i].descending,
{
    let mut out: Vec<(String, bool)> = Vec::new();
    let mut i: usize = 0;
    while i < rules.len()
        invariant
            0 <= i <= rules.len(),
            out@.len() == i,
            forall|j: int| 0 <= j < i
                ==> out@[j].0@ == joined(rules@[j].property.deep_view()) && out@[j].1
                == rules@[j].descending,
        decreases rules.len() - i,
    {
        let path = crate::text::join_keys(&rules[i].property);
        out.push((path, rules[i].descending));
        i = i + 1;
    }
    out
}

/// A whole read request in backend-neutral flattened form: what a backend
/// adapter renders into its native protocol. The range's skip is applied
/// before its limit; either may be absent, meaning no skip and no limit.
#[derive(Debug, PartialEq)]
pub struct ReadRequest {
    /// The flattened condition the matching records satisfy.
    pub filter: Filter,
    /// The ordering rules: each dot-joined path with its descending marker,
    /// in rule order.
    pub sort: Vec<(String, bool)>,
    /// The flattened projection of each returned record.
    pub projection: Projection,
    /// How many matching records to skip before the first one returned.
    pub skip: Option<u64>,
    /// How many records at most to return, counted after the skip.
    pub limit: Option<u64>,
}

/// Translates one read into its backend-neutral flattened form, the exact
/// boundary every backend adapter must reproduce: the condition's and the
/// query's key-maps flatten into dot-path documents, the sort rules into
/// path-marker pairs, and the range passes through as skip and limit.
pub fn translate_read(condition: &Condition, sort: &Vec<SortRule>, range: &Range, query: &Query) -> (r:
    ReadRequest)
    ensures
        r.filter@ == flatten_condition_spec(*condition),
        r.sort@.len() == sort@.len(),
        forall|i: int| 0 <= i < sort@.len()
            ==> r.sort@[i].0@ == joined(sort@[i].property.deep_view()) && r.sort@[i].1
            == sort@[i].descending,
        match *query {
            Query::All => r.projection == Projection::All,
            Query::Keys(entries) => r.projection is Include && (r.projection->Include_0).deep_view()
                == flatten_query_keys(Seq::empty(), entries@),
        },
        r.skip == range.skip,
        r.limit == range.limit,
{
    ReadRequest {
        filter: flatten_condition(condition),
        sort: flatten_sort_rules(sort),
        projection: flatten_query(query),
        skip: range.skip,
        limit: range.limit,
    }
}

} // verus!
