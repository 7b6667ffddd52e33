//! The schema engine: a pointer-addressable tree of type-constraint variants
//! that validates nested projection requests against nested data shapes. The
//! tree is queryable by pointer and can validate a [`Query`] against its own
//! shape, rejecting requests for fields it does not expose.

use vstd::prelude::*;
use vstd::string::StringExecFns;

use crate::error::{Code, Error, ErrorModel};
use crate::keymap::lookup_pair;
use crate::query::Query;
use crate::text::{check_integer_key, is_integer_key};
use crate::value::{Key, Pointer, Value};

verus! {

/// There is no schema: no validation occurs. Does not represent the absence
/// of any value, only that a schema does not define the data structure at
/// this point.
#[derive(Debug, PartialEq)]
pub struct SchemaNone;

/// Represents the absence of any value.
#[derive(Debug, PartialEq)]
pub struct SchemaNull;

/// Represents a binary true/false value.
#[derive(Debug, PartialEq)]
pub struct SchemaBoolean;

/// Represents a numeric type. The bounds are 64-bit floating-point numbers
/// and the multiple a 32-bit one; the schema only stores and hands back these
/// values, never computes with them, so each is carried as its bit pattern.
#[derive(Debug, PartialEq)]
pub struct SchemaNumber {
    /// Forces the number to be a multiple of another, as an IEEE-754 32-bit
    /// bit pattern. This helps in specifying integers, for example.
    pub multiple_of: Option<u32>,
    /// The minimum value the number can be, as an IEEE-754 64-bit bit
    /// pattern.
    pub minimum: Option<u64>,
    /// Whether the minimum value itself is excluded when validating.
    pub exclusive_minimum: bool,
    /// The maximum value the number can be, as an IEEE-754 64-bit bit
    /// pattern.
    pub maximum: Option<u64>,
    /// Whether the maximum value itself is excluded when validating.
    pub exclusive_maximum: bool,
}

/// Represents a string type.
#[derive(Debug, PartialEq)]
pub struct SchemaString {
    /// The minimum length of characters in the string.
    pub min_length: Option<u64>,
    /// The maximum length of characters in the string.
    pub max_length: Option<u64>,
    /// The source text of a regular-expression pattern to validate the
    /// string against; compiling it is a backend concern.
    pub pattern: Option<String>,
}

/// Represents an ordered sequence of values of one shape.
#[derive(Debug, PartialEq)]
pub struct SchemaArray {
    /// A schema which every item in the array must match. The array owns its
    /// child schema.
    pub items: Option<Box<Schema>>,
}

/// Represents a set of key/value pairs.
#[derive(Debug, PartialEq)]
pub struct SchemaObject {
    /// Schemas associated to the object properties, in insertion order with
    /// unique keys. The object owns its child schemas.
    pub properties: Vec<(Key, Schema)>,
    /// Properties that are required to be in the object.
    pub required: Vec<Key>,
    /// Whether there may be extra properties outside of the ones defined in
    /// the properties map.
    pub additional_properties: bool,
}

/// Represents a value which must be one of the defined values. An enum is a
/// primitive type: no variation below the whole value is allowed.
#[derive(Debug, PartialEq)]
pub struct SchemaEnum {
    /// The available values.
    pub values: Vec<Value>,
}

/// A schema node owned through heap indirection, as composite schemas hold
/// their children.
pub type BoxedSchema = Box<Schema>;

/// A schema detailing the shape of the data behind a driver: a tree of
/// type-constraint variants, addressable by pointer, able to validate a
/// query against itself.
#[derive(Debug, PartialEq)]
pub enum Schema {
    /// No constraint: matches anything and has no children.
    Unconstrained(SchemaNone),
    /// Only the null value.
    Null(SchemaNull),
    /// A boolean value.
    Boolean(SchemaBoolean),
    /// A number under optional bounds.
    Number(SchemaNumber),
    /// A string under optional length and pattern constraints.
    String(SchemaString),
    /// An array, with one optional item schema governing every element.
    Array(SchemaArray),
    /// An object with declared properties.
    Object(SchemaObject),
    /// One of an enumerated list of values.
    Enum(SchemaEnum),
}

/// Whether a schema is primitive: primitive schemas have no addressable
/// children and accept only a whole-value query.
pub open spec fn is_primitive(s: Schema) -> bool {
    match s {
        Schema::Null(_) => true,
        Schema::Boolean(_) => true,
        Schema::Number(_) => true,
        Schema::String(_) => true,
        Schema::Enum(_) => true,
        _ => false,
    }
}

/// The error reported when a deep query addresses a primitive value.
pub open spec fn deep_query_error() -> ErrorModel {
    ErrorModel {
        code: Code::BadRequest,
        message: "Cannot deeply query a primitive value."@,
        hint: Some("Try not querying specific properties of a primitive like `null` or `boolean`."@),
    }
}

/// The error reported when an array query uses a non-integer key.
pub open spec fn non_integer_key_error(key: Seq<char>) -> ErrorModel {
    ErrorModel {
        code: Code::BadRequest,
        message: "Cannot query non-integer \""@ + key + "\" array property."@,
        hint: Some("Only query integer array keys like 1, 2, and 3."@),
    }
}

/// The error reported when an object query names an undeclared property.
pub open spec fn unknown_property_error(key: Seq<char>) -> ErrorModel {
    ErrorModel {
        code: Code::BadRequest,
        message: "Cannot query object property \""@ + key + "\"."@,
        hint: Some("Query an object property that is defined in the schema."@),
    }
}

/// What validating a query against a primitive schema yields: a whole-value
/// query succeeds, and a keyed query is rejected.
pub open spec fn primitive_validate(q: Query) -> Result<(), ErrorModel> {
    match q {
        Query::All => Ok(()),
        Query::Keys(_) => Err(deep_query_error()),
    }
}

/// What validating a query against a schema yields. A whole-value query
/// always succeeds; a keyed query succeeds against no-constraint schemas, is
/// rejected against primitives, and is validated key by key against arrays
/// and objects, stopping at the first failing key in iteration order.
pub open spec fn validate_spec(s: Schema, q: Query) -> Result<(), ErrorModel>
    decreases q,
{
    match q {
        Query::All => Ok(()),
        Query::Keys(entries) => match s {
            Schema::Unconstrained(_) => Ok(()),
            Schema::Array(a) => validate_array_keys(a.items, entries@),
            Schema::Object(o) => validate_object_keys(o, entries@),
            _ => Err(deep_query_error()),
        },
    }
}

/// Validates the keys of a query against an array's item schema, in order:
/// a non-integer key fails naming itself; an integer key recurses into the
/// item schema when there is one and is accepted otherwise.
pub open spec fn validate_array_keys(
    items: Option<Box<Schema>>,
    entries: Seq<(Key, Query)>,
) -> Result<(), ErrorModel>
    decreases entries,
{
    if entries.len() == 0 {
        Ok(())
    } else {
        let head: Result<(), ErrorModel> = if !is_integer_key(entries[0].0@) {
            Err(non_integer_key_error(entries[0].0@))
        } else {
            match items {
                Some(child) => validate_spec(*child, entries[0].1),
                None => Ok(()),
            }
        };
        if head is Err {
            head
        } else {
            validate_array_keys(items, entries.drop_first())
        }
    }
}

/// Validates the keys of a query against an object's properties, in order:
/// a declared property recurses into its schema; an undeclared one is
/// accepted when additional properties are enabled and fails naming itself
/// otherwise.
pub open spec fn validate_object_keys(
    o: SchemaObject,
    entries: Seq<(Key, Query)>,
) -> Result<(), ErrorModel>
    decreases entries,
{
    if entries.len() == 0 {
        Ok(())
    } else {
        let head: Result<(), ErrorModel> = match lookup_pair(o.properties@, entries[0].0@) {
            Some(child) => validate_spec(child, entries[0].1),
            None => if o.additional_properties {
                Ok(())
            } else {
                Err(unknown_property_error(entries[0].0@))
            },
        };
        if head is Err {
            head
        } else {
            validate_object_keys(o, entries.drop_first())
        }
    }
}

/// The child schema addressed by a pointer, when one exists. An empty
/// pointer addresses the schema itself. An array resolves any well-formed
/// integer key to its item schema, the concrete index being irrelevant since
/// one item schema governs every element; an object resolves declared
/// property names only.
pub open spec fn schema_get(s: Schema, p: Seq<Seq<char>>) -> Option<Schema>
    decreases p.len(),
{
    if p.len() == 0 {
        Some(s)
    } else {
        match s {
            Schema::Array(a) => {
                if is_integer_key(p[0]) {
                    match a.items {
                        Some(child) => schema_get(*child, p.drop_first()),
                        None => None,
                    }
                } else {
                    None
                }
            },
            Schema::Object(o) => match lookup_pair(o.properties@, p[0]) {
                Some(child) => schema_get(child, p.drop_first()),
                None => None,
            },
            _ => None,
        }
    }
}

/// Builds the error for a deep query against a primitive value.
fn make_deep_query_error() -> (r: Error)
    ensures
        r@ == deep_query_error(),
{
    Error::invalid(
        "Cannot deeply query a primitive value.".to_owned(),
        "Try not querying specific properties of a primitive like `null` or `boolean`.".to_owned(),
    )
}

/// Builds the error naming a non-integer array key.
fn make_non_integer_key_error(key: &String) -> (r: Error)
    ensures
        r@ == non_integer_key_error(key@),
{
    let mut message = "Cannot query non-integer \"".to_owned();
    message.append(key.as_str());
    message.append("\" array property.");
    Error::invalid(message, "Only query integer array keys like 1, 2, and 3.".to_owned())
}

/// Builds the error naming an undeclared object property.
fn make_unknown_property_error(key: &String) -> (r: Error)
    ensures
        r@ == unknown_property_error(key@),
{
    let mut message = "Cannot query object property \"".to_owned();
    message.append(key.as_str());
    message.append("\".");
    Error::invalid(message, "Query an object property that is defined in the schema.".to_owned())
}

/// The capability shared by every primitive schema variant: it has no
/// addressable children and accepts only a whole-value query.
pub trait SchemaPrimitive: Sized {
    /// Resolves a pointer: a primitive schema is its own only location.
    fn get<'a>(&'a self, pointer: &Pointer) -> (r: Option<&'a Self>)
        ensures
            match r {
                Some(found) => pointer@.len() == 0 && found == self,
                None => pointer@.len() != 0,
            },
    {
        if pointer.len() == 0 {
            Some(self)
        } else {
            None
        }
    }

    /// Validates a query: everything may be requested of a primitive as a
    /// whole, and anything deeper is rejected.
    fn validate_query(&self, query: &Query) -> (r: Result<(), Error>)
        ensures
            match r {
                Ok(()) => primitive_validate(*query) is Ok,
                Err(e) => primitive_validate(*query) == Result::<(), ErrorModel>::Err(e@),
            },
    {
        match query {
            Query::All => Ok(()),
            Query::Keys(_) => Err(make_deep_query_error()),
        }
    }
}

impl SchemaPrimitive for SchemaNull {

}

impl SchemaPrimitive for SchemaBoolean {

}

impl SchemaPrimitive for SchemaNumber {

}

impl SchemaPrimitive for SchemaString {

}

impl SchemaPrimitive for SchemaEnum {

}

impl SchemaNone {
    /// Creates the schema that runs no validations.
    pub fn new() -> (r: Self)
        ensures
            r == SchemaNone,
    {
        SchemaNone
    }

    /// Resolves a pointer: with no children, the schema is its own only
    /// location.
    pub fn get<'a>(&'a self, pointer: &Pointer) -> (r: Option<&'a Self>)
        ensures
            match r {
                Some(found) => pointer@.len() == 0 && found == self,
                None => pointer@.len() != 0,
            },
    {
        if pointer.len() == 0 {
            Some(self)
        } else {
            None
        }
    }

    /// Validates a query: with no constraint, every query succeeds.
    pub fn validate_query(&self, query: &Query) -> (r: Result<(), Error>)
        ensures
            r is Ok,
    {
        Ok(())
    }
}

impl SchemaNull {
    /// Creates a schema which ensures the value is null and only null.
    pub fn new() -> (r: Self)
        ensures
            r == SchemaNull,
    {
        SchemaNull
    }
}

impl SchemaBoolean {
    /// Creates a schema which validates a boolean primitive type.
    pub fn new() -> (r: Self)
        ensures
            r == SchemaBoolean,
    {
        SchemaBoolean
    }
}

impl SchemaNumber {
    /// Creates a number schema with no constraints.
    pub fn new() -> (r: Self)
        ensures
            r.multiple_of is None,
            r.minimum is None,
            !r.exclusive_minimum,
            r.maximum is None,
            !r.exclusive_maximum,
    {
        SchemaNumber {
            multiple_of: None,
            minimum: None,
            exclusive_minimum: false,
            maximum: None,
            exclusive_maximum: false,
        }
    }

    /// Forces the number to be a multiple of the given value, by bit pattern.
    pub fn set_multiple_of(&mut self, multiple_of: u32)
        ensures
            *final(self) == (SchemaNumber { multiple_of: Some(multiple_of), ..*old(self) }),
    {
        self.multiple_of = Some(multiple_of);
    }

    /// Sets the minimum value the number can be, by bit pattern.
    pub fn set_minimum(&mut self, minimum: u64)
        ensures
            *final(self) == (SchemaNumber { minimum: Some(minimum), ..*old(self) }),
    {
        self.minimum = Some(minimum);
    }

    /// Excludes the minimum value itself from the allowed range.
    pub fn enable_exclusive_minimum(&mut self)
        ensures
            *final(self) == (SchemaNumber { exclusive_minimum: true, ..*old(self) }),
    {
        self.exclusive_minimum = true;
    }

    /// Sets the maximum value the number can be, by bit pattern.
    pub fn set_maximum(&mut self, maximum: u64)
        ensures
            *final(self) == (SchemaNumber { maximum: Some(maximum), ..*old(self) }),
    {
        self.maximum = Some(maximum);
    }

    /// Excludes the maximum value itself from the allowed range.
    pub fn enable_exclusive_maximum(&mut self)
        ensures
            *final(self) == (SchemaNumber { exclusive_maximum: true, ..*old(self) }),
    {
        self.exclusive_maximum = true;
    }

    /// The multiple the number must be of, when one was set.
    pub fn multiple_of(&self) -> (r: Option<u32>)
        ensures
            r == self.multiple_of,
    {
        self.multiple_of
    }

    /// The minimum value, when one was set.
    pub fn minimum(&self) -> (r: Option<u64>)
        ensures
            r == self.minimum,
    {
        self.minimum
    }

    /// Whether the minimum value itself is excluded.
    pub fn exclusive_minimum(&self) -> (r: bool)
        ensures
            r == self.exclusive_minimum,
    {
        self.exclusive_minimum
    }

    /// The maximum value, when one was set.
    pub fn maximum(&self) -> (r: Option<u64>)
        ensures
            r == self.maximum,
    {
        self.maximum
    }

    /// Whether the maximum value itself is excluded.
    pub fn exclusive_maximum(&self) -> (r: bool)
        ensures
            r == self.exclusive_maximum,
    {
        self.exclusive_maximum
    }
}

impl SchemaString {
    /// Creates a string schema with no constraints.
    pub fn new() -> (r: Self)
        ensures
            r.min_length is None,
            r.max_length is None,
            r.pattern is None,
    {
        SchemaString { min_length: None, max_length: None, pattern: None }
    }

    /// Sets the minimum length of characters in the string.
    pub fn set_min_length(&mut self, min_length: u64)
        ensures
            final(self).min_length == Some(min_length),
            final(self).max_length == old(self).max_length,
            final(self).pattern == old(self).pattern,
    {
        self.min_length = Some(min_length);
    }

    /// Sets the maximum length of characters in the string.
    pub fn set_max_length(&mut self, max_length: u64)
        ensures
            final(self).max_length == Some(max_length),
            final(self).min_length == old(self).min_length,
            final(self).pattern == old(self).pattern,
    {
        self.max_length = Some(max_length);
    }

    /// Sets the source text of the pattern to validate the string against.
    pub fn set_pattern(&mut self, pattern: String)
        ensures
            final(self).pattern == Some(pattern),
            final(self).min_length == old(self).min_length,
            final(self).max_length == old(self).max_length,
    {
        self.pattern = Some(pattern);
    }

    /// The minimum length, when one was set.
    pub fn min_length(&self) -> (r: Option<u64>)
        ensures
            r == self.min_length,
    {
        self.min_length
    }

    /// The maximum length, when one was set.
    pub fn max_length(&self) -> (r: Option<u64>)
        ensures
            r == self.max_length,
    {
        self.max_length
    }

    /// The pattern's source text, when one was set.
    pub fn pattern<'a>(&'a self) -> (r: Option<&'a String>)
        ensures
            match r {
                Some(p) => self.pattern == Some(*p),
                None => self.pattern is None,
            },
    {
        self.pattern.as_ref()
    }
}

impl SchemaArray {
    /// Creates an array schema with no item schema.
    pub fn new() -> (r: Self)
        ensures
            r.items is None,
    {
        SchemaArray { items: None }
    }

    /// Sets the schema which all items in the array must match.
    pub fn set_items(&mut self, schema: Schema)
        ensures
            final(self).items == Some(Box::new(schema)),
    {
        self.items = Some(Box::new(schema));
    }

    /// Sets the item schema from an already boxed schema.
    pub fn set_boxed_items(&mut self, schema: BoxedSchema)
        ensures
            final(self).items == Some(schema),
    {
        self.items = Some(schema);
    }

    /// The item schema, when one was set.
    pub fn items<'a>(&'a self) -> (r: Option<&'a Schema>)
        ensures
            match r {
                Some(child) => self.items matches Some(boxed) && *boxed == *child,
                None => self.items is None,
            },
    {
        match &self.items {
            Some(boxed) => Some(&**boxed),
            None => None,
        }
    }

    /// Validates a query against the array: everything may be requested, and
    /// each requested key must be a non-negative-integer string whose
    /// sub-query the item schema accepts; with no item schema any sub-query
    /// is accepted. The first failing key in order decides.
    #[verifier::loop_isolation(false)]
    pub fn validate_query(&self, query: &Query) -> (r: Result<(), Error>)
        ensures
            match r {
                Ok(()) => validate_spec(Schema::Array(*self), *query) is Ok,
                Err(e) => validate_spec(Schema::Array(*self), *query) == Result::<
                    (),
                    ErrorModel,
                >::Err(e@),
            },
        decreases *query, 0int,
    {
        match query {
            Query::All => Ok(()),
            Query::Keys(entries) => {
                let ghost all = entries@;
                let mut i: usize = 0;
                proof {
                    assert(all.skip(0) =~= all);
                }
                while i < entries.len()
                    invariant
                        0 <= i <= entries.len(),
                        validate_array_keys(self.items, all) == validate_array_keys(
                            self.items,
                            all.skip(i as int),
                        ),
                    decreases entries.len() - i,
                {
                    proof {
                        assert(all.skip(i as int)[0] == all[i as int]);
                        assert(all.skip(i as int).drop_first() =~= all.skip(i + 1));
                        assert(decreases_to!(*query => query->Keys_0));
                        assert(decreases_to!(*entries => entries[i as int]));
                        assert(decreases_to!(entries[i as int] => entries[i as int].1));
                    }
                    if !check_integer_key(entries[i].0.as_str()) {
                        return Err(make_non_integer_key_error(&entries[i].0));
                    }
                    match &self.items {
                        Some(child) => {
                            let sub = child.validate_query(&entries[i].1);
                            if let Err(e) = sub {
                                return Err(e);
                            }
                        },
                        None => {},
                    }
                    i = i + 1;
                }
                proof {
                    assert(all.skip(all.len() as int).len() == 0);
                }
                Ok(())
            },
        }
    }
}

impl SchemaObject {
    /// Creates an object schema with no properties, nothing required, and no
    /// additional properties allowed.
    pub fn new() -> (r: Self)
        ensures
            r.properties@.len() == 0,
            r.required@.len() == 0,
            !r.additional_properties,
    {
        SchemaObject { properties: Vec::new(), required: Vec::new(), additional_properties: false }
    }

    /// Declares a property with its schema. Declaring a key again replaces
    /// its schema in place; otherwise the property is appended, so insertion
    /// order is preserved and keys stay unique.
    pub fn add_property(&mut self, key: Key, schema: Schema)
        ensures
            final(self).properties@ == crate::keymap::insert_pair(
                old(self).properties@,
                key,
                schema,
            ),
            final(self).required == old(self).required,
            final(self).additional_properties == old(self).additional_properties,
    {
        crate::keymap::keymap_insert(&mut self.properties, key, schema);
    }

    /// Declares a property from an already boxed schema.
    pub fn add_boxed_property(&mut self, key: Key, schema: BoxedSchema)
        ensures
            final(self).properties@ == crate::keymap::insert_pair(
                old(self).properties@,
                key,
                *schema,
            ),
            final(self).required == old(self).required,
            final(self).additional_properties == old(self).additional_properties,
    {
        crate::keymap::keymap_insert(&mut self.properties, key, *schema);
    }

    /// Sets the properties that are required to be in the object.
    pub fn set_required(&mut self, required: Vec<Key>)
        ensures
            final(self).required == required,
            final(self).properties == old(self).properties,
            final(self).additional_properties == old(self).additional_properties,
    {
        self.required = required;
    }

    /// Allows properties outside of the ones defined in the properties map.
    pub fn enable_additional_properties(&mut self)
        ensures
            final(self).additional_properties,
            final(self).properties == old(self).properties,
            final(self).required == old(self).required,
    {
        self.additional_properties = true;
    }

    /// The declared properties, in insertion order.
    pub fn properties<'a>(&'a self) -> (r: &'a Vec<(Key, Schema)>)
        ensures
            r == self.properties,
    {
        &self.properties
    }

    /// The properties required to be in the object.
    pub fn required<'a>(&'a self) -> (r: &'a Vec<Key>)
        ensures
            r == self.required,
    {
        &self.required
    }

    /// Whether extra properties outside the declared ones are allowed.
    pub fn additional_properties(&self) -> (r: bool)
        ensures
            r == self.additional_properties,
    {
        self.additional_properties
    }

    /// Validates a query against the object: everything may be requested,
    /// each requested key must either name a declared property whose schema
    /// accepts the sub-query or, when additional properties are enabled, be
    /// accepted unconditionally. The first failing key in order decides.
    #[verifier::loop_isolation(false)]
    pub fn validate_query(&self, query: &Query) -> (r: Result<(), Error>)
        ensures
            match r {
                Ok(()) => validate_spec(Schema::Object(*self), *query) is Ok,
                Err(e) => validate_spec(Schema::Object(*self), *query) == Result::<
                    (),
                    ErrorModel,
                >::Err(e@),
            },
        decreases *query, 0int,
    {
        match query {
            Query::All => Ok(()),
            Query::Keys(entries) => {
                let ghost all = entries@;
                let mut i: usize = 0;
                proof {
                    assert(all.skip(0) =~= all);
                }
                while i < entries.len()
                    invariant
                        0 <= i <= entries.len(),
                        validate_object_keys(*self, all) == validate_object_keys(
                            *self,
                            all.skip(i as int),
                        ),
                    decreases entries.len() - i,
                {
                    proof {
                        assert(all.skip(i as int)[0] == all[i as int]);
                        assert(all.skip(i as int).drop_first() =~= all.skip(i + 1));
                        assert(decreases_to!(*query => query->Keys_0));
                        assert(decreases_to!(*entries => entries[i as int]));
                        assert(decreases_to!(entries[i as int] => entries[i as int].1));
                    }
                    match crate::keymap::keymap_get(&self.properties, &entries[i].0) {
                        Some(child) => {
                            let sub = child.validate_query(&entries[i].1);
                            if let Err(e) = sub {
                                return Err(e);
                            }
                        },
                        None => {
                            if !self.additional_properties {
                                return Err(make_unknown_property_error(&entries[i].0));
                            }
                        },
                    }
                    i = i + 1;
                }
                proof {
                    assert(all.skip(all.len() as int).len() == 0);
                }
                Ok(())
            },
        }
    }
}

impl SchemaEnum {
    /// Creates a schema which validates enumerated values.
    pub fn new(values: Vec<Value>) -> (r: Self)
        ensures
            r.values == values,
    {
        SchemaEnum { values }
    }

    /// The available values.
    pub fn values<'a>(&'a self) -> (r: &'a Vec<Value>)
        ensures
            r == self.values,
    {
        &self.values
    }
}

impl Schema {
    /// Creates a schema which does not run any validations.
    pub fn none() -> (r: SchemaNone)
        ensures
            r == SchemaNone,
    {
        SchemaNone::new()
    }

    /// Creates a schema which ensures the value is null and only null.
    pub fn null() -> (r: SchemaNull)
        ensures
            r == SchemaNull,
    {
        SchemaNull::new()
    }

    /// Creates a schema which validates a boolean primitive type.
    pub fn boolean() -> (r: SchemaBoolean)
        ensures
            r == SchemaBoolean,
    {
        SchemaBoolean::new()
    }

    /// Creates a schema which validates a number.
    pub fn number() -> (r: SchemaNumber)
        ensures
            r.multiple_of is None,
            r.minimum is None,
            !r.exclusive_minimum,
            r.maximum is None,
            !r.exclusive_maximum,
    {
        SchemaNumber::new()
    }

    /// Creates a schema which validates a string.
    pub fn string() -> (r: SchemaString)
        ensures
            r.min_length is None,
            r.max_length is None,
            r.pattern is None,
    {
        SchemaString::new()
    }

    /// Creates a schema which validates an array. It takes another schema to
    /// validate all of the child properties.
    pub fn array() -> (r: SchemaArray)
        ensures
            r.items is None,
    {
        SchemaArray::new()
    }

    /// Creates a schema which validates an object.
    pub fn object() -> (r: SchemaObject)
        ensures
            r.properties@.len() == 0,
            r.required@.len() == 0,
            !r.additional_properties,
    {
        SchemaObject::new()
    }

    /// Creates a schema which validates enumerated values.
    pub fn enum_(values: Vec<Value>) -> (r: SchemaEnum)
        ensures
            r.values == values,
    {
        SchemaEnum::new(values)
    }

    /// The child schema at `pointer`, by reference: an empty pointer is the
    /// schema itself; an array resolves any well-formed integer key to its
    /// item schema; an object resolves declared property names. Absence is a
    /// normal outcome.
    pub fn get<'a>(&'a self, pointer: &Pointer) -> (r: Option<&'a Schema>)
        ensures
            match r {
                Some(child) => schema_get(*self, pointer.deep_view()) == Some(*child),
                None => schema_get(*self, pointer.deep_view()) is None,
            },
    {
        proof {
            assert(pointer.deep_view().skip(0) =~= pointer.deep_view());
        }
        self.get_from(pointer, 0)
    }

    /// Resolves the pointer's keys from position `from` on.
    fn get_from<'a>(&'a self, pointer: &Pointer, from: usize) -> (r: Option<&'a Schema>)
        requires
            from <= pointer.len(),
        ensures
            match r {
                Some(child) => schema_get(*self, pointer.deep_view().skip(from as int)) == Some(
                    *child,
                ),
                None => schema_get(*self, pointer.deep_view().skip(from as int)) is None,
            },
        decreases pointer.len() - from,
    {
        let ghost p = pointer.deep_view().skip(from as int);
        if from == pointer.len() {
            return Some(self);
        }
        proof {
            assert(p[0] == pointer.deep_view()[from as int]);
            assert(pointer.deep_view()[from as int] == pointer@[from as int]@);
            assert(p.drop_first() =~= pointer.deep_view().skip(from + 1));
        }
        match self {
            Schema::Array(a) => {
                if check_integer_key(pointer[from].as_str()) {
                    match &a.items {
                        Some(child) => child.get_from(pointer, from + 1),
                        None => None,
                    }
                } else {
                    None
                }
            },
            Schema::Object(o) => {
                match crate::keymap::keymap_get(&o.properties, &pointer[from]) {
                    Some(child) => child.get_from(pointer, from + 1),
                    None => None,
                }
            },
            _ => None,
        }
    }

    /// Validates a query that a caller would like to make against this
    /// schema: every property described in the query must be accessible
    /// according to the schema. Validation stops at the first failing key in
    /// iteration order and returns that single error.
    pub fn validate_query(&self, query: &Query) -> (r: Result<(), Error>)
        ensures
            match r {
                Ok(()) => validate_spec(*self, *query) is Ok,
                Err(e) => validate_spec(*self, *query) == Result::<(), ErrorModel>::Err(e@),
            },
        decreases *query, 1int,
    {
        match self {
            Schema::Unconstrained(s) => s.validate_query(query),
            Schema::Null(s) => s.validate_query(query),
            Schema::Boolean(s) => s.validate_query(query),
            Schema::Number(s) => s.validate_query(query),
            Schema::String(s) => s.validate_query(query),
            Schema::Array(s) => s.validate_query(query),
            Schema::Object(s) => s.validate_query(query),
            Schema::Enum(s) => s.validate_query(query),
        }
    }
}

/// Validating a whole-value query succeeds against every schema,
/// unconditionally.
pub proof fn lemma_all_query_validates(s: Schema)
    ensures
        validate_spec(s, Query::All) is Ok,
{
}

/// Validating any keyed query against a primitive schema fails with a
/// BadRequest error whose message contains the phrase "deeply query".
pub proof fn lemma_primitive_rejects_deep_query(s: Schema, q: Query)
    requires
        is_primitive(s),
        q is Keys,
    ensures
        validate_spec(s, q) == Result::<(), ErrorModel>::Err(deep_query_error()),
        deep_query_error().code == Code::BadRequest,
        crate::text::contains_phrase(deep_query_error().message, "deeply query"@),
{
    let hay = "Cannot deeply query a primitive value."@;
    let needle = "deeply query"@;
    reveal_strlit("Cannot deeply query a primitive value.");
    reveal_strlit("deeply query");
    assert(hay.subrange(7, 7 + needle.len() as int) =~= needle);
}

/// An array schema accepts a whole-value request under every well-formed
/// integer index, however large: only the key's shape matters, never its
/// magnitude, since one item schema governs every element.
pub proof fn lemma_array_accepts_integer_keys(
    items: Option<Box<Schema>>,
    entries: Seq<(Key, Query)>,
)
    requires
        forall|i: int| 0 <= i < entries.len()
            ==> is_integer_key(#[trigger] entries[i].0@) && entries[i].1 is All,
    ensures
        validate_array_keys(items, entries) is Ok,
    decreases entries,
{
    if entries.len() > 0 {
        assert(is_integer_key(entries[0].0@) && entries[0].1 is All);
        assert forall|i: int| 0 <= i < entries.drop_first().len() implies is_integer_key(
            #[trigger] entries.drop_first()[i].0@,
        ) && entries.drop_first()[i].1 is All by {
            assert(entries.drop_first()[i] == entries[i + 1]);
            assert(is_integer_key(entries[i + 1].0@));
        }
        lemma_array_accepts_integer_keys(items, entries.drop_first());
        match items {
            Some(child) => {
                assert(validate_spec(*child, entries[0].1) is Ok);
            },
            None => {},
        }
        assert(validate_array_keys(items, entries) is Ok);
    }
}

/// Resolving a concatenated pointer resolves the first part, then the second
/// part inside whatever the first part found.
pub proof fn lemma_schema_get_append(s: Schema, p1: Seq<Seq<char>>, p2: Seq<Seq<char>>)
    ensures
        schema_get(s, p1 + p2) == match schema_get(s, p1) {
            Some(found) => schema_get(found, p2),
            None => None,
        },
    decreases p1.len(),
{
    if p1.len() == 0 {
        assert(p1 + p2 =~= p2);
    } else {
        assert((p1 + p2)[0] == p1[0]);
        assert((p1 + p2).drop_first() =~= p1.drop_first() + p2);
        match s {
            Schema::Array(a) => {
                if is_integer_key(p1[0]) {
                    match a.items {
                        Some(child) => lemma_schema_get_append(*child, p1.drop_first(), p2),
                        None => {},
                    }
                }
            },
            Schema::Object(o) => {
                match lookup_pair(o.properties@, p1[0]) {
                    Some(child) => lemma_schema_get_append(child, p1.drop_first(), p2),
                    None => {},
                }
            },
            _ => {},
        }
    }
}

/// An object schema resolves a one-key pointer to exactly the child schema
/// declared under that key, and to nothing when the key was never declared.
pub proof fn lemma_object_get_key(o: SchemaObject, key: Seq<char>)
    ensures
        schema_get(Schema::Object(o), seq![key]) == lookup_pair(o.properties@, key),
{
    let p = seq![key];
    assert(p[0] == key);
    assert(p.drop_first() =~= Seq::<Seq<char>>::empty());
    match lookup_pair(o.properties@, key) {
        Some(child) => {
            assert(schema_get(child, p.drop_first()) == Some(child));
        },
        None => {},
    }
}

/// An array schema resolves a one-key pointer under any well-formed
/// integer-string index, however large, to exactly its item schema, and to
/// nothing under any other key or with no item schema.
pub proof fn lemma_array_get_key(a: SchemaArray, key: Seq<char>)
    ensures
        schema_get(Schema::Array(a), seq![key]) == (if is_integer_key(key) {
            match a.items {
                Some(child) => Some(*child),
                None => None,
            }
        } else {
            None::<Schema>
        }),
{
    let p = seq![key];
    assert(p[0] == key);
    assert(p.drop_first() =~= Seq::<Seq<char>>::empty());
    if is_integer_key(key) {
        match a.items {
            Some(child) => {
                assert(schema_get(*child, p.drop_first()) == Some(*child));
            },
            None => {},
        }
    }
}

/// `get` round-trips with construction: after a property is declared on an
/// object schema, resolving that key finds exactly the schema placed there,
/// and resolving a key never declared finds nothing.
pub proof fn lemma_object_get_after_add(o: SchemaObject, key: Key, child: Schema, other: Seq<char>)
    requires
        other != key@,
    ensures
        lookup_pair(crate::keymap::insert_pair(o.properties@, key, child), key@) == Some(child),
        lookup_pair(crate::keymap::insert_pair(o.properties@, key, child), other) == lookup_pair(
            o.properties@,
            other,
        ),
{
    crate::keymap::lemma_lookup_after_insert(o.properties@, key, child);
    crate::keymap::lemma_lookup_other_after_insert(o.properties@, key, child, other);
}

} // verus!
