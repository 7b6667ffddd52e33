//! The backend-neutral value model: a recursive data representation with
//! pointer-based addressing.

use vstd::prelude::*;
use vstd::std_specs::iter::IteratorSpec;

use crate::keymap::lookup_pair;
use crate::text::{check_integer_key, is_digit, is_integer_key};

verus! {

broadcast use vstd::string::group_string_axioms;

/// A single step of a pointer: one property name or array index.
pub type Key = String;

/// An ordered sequence of keys identifying a location inside a value or
/// schema tree; an array index is a non-negative-integer-valued string key.
/// The empty pointer denotes the whole value.
pub type Pointer = Vec<Key>;

/// The ordered mapping behind [`Value::Object`]: string key to child value,
/// keys unique, insertion order preserved for deterministic output.
pub type Object = Vec<(Key, Value)>;

/// A backend-neutral data value. Values are immutable once constructed in
/// this core; mutation is replacement.
#[derive(Debug, PartialEq)]
pub enum Value {
    /// The absence of any value.
    Null,
    /// A binary true/false value.
    Boolean(bool),
    /// A 64-bit signed integer.
    I64(i64),
    /// A 64-bit floating-point number, carried as its bit pattern: the core
    /// only stores and moves these, it never does arithmetic on them.
    F64(u64),
    /// A string of text.
    String(String),
    /// An ordered sequence of values.
    Array(Vec<Value>),
    /// An ordered mapping of unique string keys to values.
    Object(Object),
}

/// The mathematical content of a [`Value`]: the same tree with sequences for
/// arrays and objects and character sequences for strings.
pub ghost enum ValueModel {
    Null,
    Boolean(bool),
    I64(i64),
    F64(u64),
    String(Seq<char>),
    Array(Seq<ValueModel>),
    Object(Seq<(Seq<char>, ValueModel)>),
}

/// The mathematical content of a value.
pub open spec fn value_model(v: Value) -> ValueModel
    decreases v,
{
    match v {
        Value::Null => ValueModel::Null,
        Value::Boolean(b) => ValueModel::Boolean(b),
        Value::I64(n) => ValueModel::I64(n),
        Value::F64(bits) => ValueModel::F64(bits),
        Value::String(s) => ValueModel::String(s@),
        Value::Array(items) => ValueModel::Array(items_model(items@)),
        Value::Object(fields) => ValueModel::Object(fields_model(fields@)),
    }
}

/// The mathematical content of each value in a sequence.
pub open spec fn items_model(items: Seq<Value>) -> Seq<ValueModel>
    decreases items,
{
    if items.len() == 0 {
        Seq::empty()
    } else {
        seq![value_model(items[0])] + items_model(items.drop_first())
    }
}

/// The mathematical content of each entry of an object.
pub open spec fn fields_model(fields: Seq<(Key, Value)>) -> Seq<(Seq<char>, ValueModel)>
    decreases fields,
{
    if fields.len() == 0 {
        Seq::empty()
    } else {
        seq![(fields[0].0@, value_model(fields[0].1))] + fields_model(fields.drop_first())
    }
}

/// The model of a sequence of values is pointwise: same length, and the entry
/// at each index is the model of the value at that index.
pub proof fn lemma_items_model_index(items: Seq<Value>)
    ensures
        items_model(items).len() == items.len(),
        forall|i: int| 0 <= i < items.len() ==> items_model(items)[i] == value_model(items[i]),
    decreases items,
{
    if items.len() > 0 {
        lemma_items_model_index(items.drop_first());
    }
}

/// The model of an object's entries is pointwise: same length, and the entry
/// at each index carries that index's key characters and value model.
pub proof fn lemma_fields_model_index(fields: Seq<(Key, Value)>)
    ensures
        fields_model(fields).len() == fields.len(),
        forall|i: int| 0 <= i < fields.len()
            ==> fields_model(fields)[i] == (fields[i].0@, value_model(fields[i].1)),
    decreases fields,
{
    if fields.len() > 0 {
        lemma_fields_model_index(fields.drop_first());
    }
}

impl View for Value {
    type V = ValueModel;

    open spec fn view(&self) -> ValueModel {
        value_model(*self)
    }
}

impl Clone for Value {
    /// A clone has exactly the content of the original.
    #[verifier::loop_isolation(false)]
    fn clone(&self) -> (r: Self)
        ensures
            r@ == self@,
        decreases *self,
    {
        match self {
            Value::Null => Value::Null,
            Value::Boolean(b) => Value::Boolean(*b),
            Value::I64(n) => Value::I64(*n),
            Value::F64(bits) => Value::F64(*bits),
            Value::String(s) => Value::String(s.clone()),
            Value::Array(items) => {
                let mut out: Vec<Value> = Vec::new();
                let mut i: usize = 0;
                while i < items.len()
                    invariant
                        0 <= i <= items.len(),
                        out@.len() == i,
                        forall|j: int| 0 <= j < i ==> out@[j]@ == items@[j]@,
                    decreases items.len() - i,
                {
                    proof {
                        assert(decreases_to!(*self => self->Array_0));
                        assert(decreases_to!(*items => items[i as int]));
                    }
                    out.push(items[i].clone());
                    i = i + 1;
                }
                let r = Value::Array(out);
                proof {
                    lemma_items_model_index(out@);
                    lemma_items_model_index(items@);
                    assert(items_model(out@) =~= items_model(items@));
                }
                r
            },
            Value::Object(fields) => {
                let mut out: Object = Vec::new();
                let mut i: usize = 0;
                while i < fields.len()
                    invariant
                        0 <= i <= fields.len(),
                        out@.len() == i,
                        forall|j: int| 0 <= j < i
                            ==> out@[j].0@ == fields@[j].0@ && out@[j].1@ == fields@[j].1@,
                    decreases fields.len() - i,
                {
                    proof {
                        assert(decreases_to!(*self => self->Object_0));
                        assert(decreases_to!(*fields => fields[i as int]));
                        assert(decreases_to!(fields[i as int] => fields[i as int].1));
                    }
                    let (k, v) = &fields[i];
                    out.push((k.clone(), v.clone()));
                    i = i + 1;
                }
                let r = Value::Object(out);
                proof {
                    lemma_fields_model_index(out@);
                    lemma_fields_model_index(fields@);
                    assert(fields_model(out@) =~= fields_model(fields@));
                }
                r
            },
        }
    }
}

/// The numeric reading of a digit-string key, used to index into arrays.
pub open spec fn key_to_int(s: Seq<char>) -> int
    decreases s.len(),
{
    if s.len() == 0 {
        0
    } else {
        10 * key_to_int(s.drop_last()) + (s.last() as int - '0' as int)
    }
}

/// The value addressed by a pointer, when one exists. An empty pointer
/// addresses the whole value; a first key that names an object property or a
/// valid array index recurses into that child; anything else is
/// nothing-found, a normal outcome rather than an error.
pub open spec fn value_get(v: Value, p: Seq<Seq<char>>) -> Option<Value>
    decreases p.len(),
{
    if p.len() == 0 {
        Some(v)
    } else {
        match v {
            Value::Object(fields) => match lookup_pair(fields@, p[0]) {
                Some(child) => value_get(child, p.drop_first()),
                None => None,
            },
            Value::Array(items) => {
                if is_integer_key(p[0]) && 0 <= key_to_int(p[0]) < items@.len() {
                    value_get(items@[key_to_int(p[0])], p.drop_first())
                } else {
                    None
                }
            },
            _ => None,
        }
    }
}

/// A digit string reads as a non-negative number.
proof fn lemma_key_to_int_nonneg(s: Seq<char>)
    requires
        forall|i: int| 0 <= i < s.len() ==> is_digit(s[i]),
    ensures
        key_to_int(s) >= 0,
    decreases s.len(),
{
    if s.len() > 0 {
        lemma_key_to_int_nonneg(s.drop_last());
    }
}

/// Extending a digit string never shrinks its numeric reading.
proof fn lemma_key_to_int_grows(s: Seq<char>, i: int)
    requires
        forall|j: int| 0 <= j < s.len() ==> is_digit(s[j]),
        0 <= i <= s.len(),
    ensures
        key_to_int(s.take(i)) <= key_to_int(s),
    decreases s.len() - i,
{
    if i < s.len() {
        lemma_key_to_int_nonneg(s.take(i));
        assert(s.take(i + 1).drop_last() =~= s.take(i));
        assert(key_to_int(s.take(i)) <= key_to_int(s.take(i + 1)));
        lemma_key_to_int_grows(s, i + 1);
    } else {
        assert(s.take(i) =~= s);
    }
}

/// Parses a key as an array index. Returns the index when the key is a
/// digit string whose value fits; a key that is no digit string, or whose
/// value cannot index any array on this machine, yields nothing.
pub fn parse_index(key: &String) -> (r: Option<usize>)
    ensures
        match r {
            Some(n) => is_integer_key(key@) && key_to_int(key@) == n as int,
            None => !is_integer_key(key@) || key_to_int(key@) > usize::MAX,
        },
{
    if !check_integer_key(key.as_str()) {
        return None;
    }
    let ghost s = key@;
    let mut it = key.as_str().chars();
    let mut acc: usize = 0;
    let ghost mut i: int = 0;
    loop
        invariant
            0 <= i <= s.len(),
            it.remaining() =~= s.skip(i),
            s == key@,
            is_integer_key(s),
            acc as int == key_to_int(s.take(i)),
        decreases s.len() - i,
    {
        match it.next() {
            Some(c) => {
                let d = (c as u32) - ('0' as u32);
                proof {
                    assert(s.skip(i)[0] == s[i]);
                    assert(is_digit(s[i]));
                }
                let big = match acc.checked_mul(10) {
                    Some(b) => b,
                    None => {
                        proof {
                            lemma_overflow(s, i, acc as int, d as int);
                        }
                        return None;
                    },
                };
                let next = match big.checked_add(d as usize) {
                    Some(n) => n,
                    None => {
                        proof {
                            lemma_overflow(s, i, acc as int, d as int);
                        }
                        return None;
                    },
                };
                acc = next;
                proof {
                    assert(s.take(i + 1).drop_last() =~= s.take(i));
                    i = i + 1;
                }
            },
            None => {
                proof {
                    assert(s.skip(i).len() == 0);
                    assert(s.take(i) =~= s);
                }
                return Some(acc);
            },
        }
    }
}

/// When one accumulation step overflows, the whole key's numeric reading is
/// too large to index any array.
proof fn lemma_overflow(s: Seq<char>, i: int, acc: int, d: int)
    requires
        forall|j: int| 0 <= j < s.len() ==> is_digit(s[j]),
        0 <= i < s.len(),
        acc == key_to_int(s.take(i)),
        d == s[i] as int - '0' as int,
        10 * acc + d > usize::MAX,
    ensures
        key_to_int(s) > usize::MAX,
{
    assert(s.take(i + 1).drop_last() =~= s.take(i));
    assert(s.take(i + 1).last() == s[i]);
    assert(key_to_int(s.take(i + 1)) == 10 * acc + d);
    lemma_key_to_int_grows(s, i + 1);
}

impl Value {
    /// The value at `pointer` inside this value, by reference: an empty
    /// pointer is the value itself, and each key steps into an object
    /// property or an array element. Absence is a normal outcome.
    pub fn get<'a>(&'a self, pointer: &Pointer) -> (r: Option<&'a Value>)
        ensures
            match r {
                Some(v) => value_get(*self, pointer.deep_view()) == Some(*v),
                None => value_get(*self, pointer.deep_view()) is None,
            },
    {
        proof {
            assert(pointer.deep_view().skip(0) =~= pointer.deep_view());
        }
        self.get_from(pointer, 0)
    }

    /// Resolves the pointer's keys from position `from` on.
    fn get_from<'a>(&'a self, pointer: &Pointer, from: usize) -> (r: Option<&'a Value>)
        requires
            from <= pointer.len(),
        ensures
            match r {
                Some(v) => value_get(*self, pointer.deep_view().skip(from as int)) == Some(*v),
                None => value_get(*self, pointer.deep_view().skip(from as int)) is None,
            },
        decreases pointer.len() - from,
    {
        let ghost p = pointer.deep_view().skip(from as int);
        if from == pointer.len() {
            proof {
                assert(p.len() == 0);
            }
            return Some(self);
        }
        proof {
            assert(p[0] == pointer.deep_view()[from as int]);
            assert(pointer.deep_view()[from as int] == pointer@[from as int]@);
            assert(p.drop_first() =~= pointer.deep_view().skip(from + 1));
        }
        match self {
            Value::Object(fields) => {
                match crate::keymap::keymap_get(fields, &pointer[from]) {
                    Some(child) => child.get_from(pointer, from + 1),
                    None => None,
                }
            },
            Value::Array(items) => {
                let n = items.len();
                match parse_index(&pointer[from]) {
                    Some(index) => {
                        if index < n {
                            items[index].get_from(pointer, from + 1)
                        } else {
                            None
                        }
                    },
                    None => None,
                }
            },
            _ => None,
        }
    }
}

} // verus!
