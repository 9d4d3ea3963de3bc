//! JSON values, as the host hands them over.

use vstd::prelude::*;
use vstd::string::*;

verus! {

/// A JSON number.
#[derive(Debug, Clone, Copy, PartialEq, Eq)]
pub enum Number {
    /// A non-negative integer.
    PosInt(u64),
    /// A negative integer.
    NegInt(i64),
    /// The bits of a finite double.
    Double(u64),
}

/// A JSON value.
#[derive(Debug, PartialEq, Eq)]
pub enum Value {
    Null,
    Bool(bool),
    Number(Number),
    String(String),
    Array(Vec<Value>),
    Object(JsonObject),
}

/// A JSON object: values under names, no name twice.
#[derive(Debug, PartialEq, Eq)]
pub struct JsonObject {
    entries: Vec<(String, Value)>,
}

/// The names of the entries of an object are all different.
pub open spec fn distinct_names<T>(entries: Seq<(Seq<char>, T)>) -> bool {
    forall|i: int, j: int|
        0 <= i < j < entries.len() ==> (#[trigger] entries[i]).0 != (#[trigger] entries[j]).0
}

impl View for JsonObject {
    type V = Seq<(Seq<char>, Value)>;

    closed spec fn view(&self) -> Seq<(Seq<char>, Value)> {
        self.entries@.map_values(|entry: (String, Value)| (entry.0@, entry.1))
    }
}

impl JsonObject {
    #[verifier::type_invariant]
    closed spec fn names_differ(self) -> bool {
        distinct_names(self@)
    }

    /// An object without entries.
    pub fn new() -> (r: Self)
        ensures
            r@ == Seq::<(Seq<char>, Value)>::empty(),
    {
        JsonObject { entries: Vec::new() }
    }

    /// The object with a value put under a name, in the place of the value that was there, or
    /// behind all others.
    pub fn insert(self, name: String, value: Value) -> (r: Self)
        ensures
            forall|i: int|
                0 <= i < self@.len() && (#[trigger] self@[i]).0 == name@ ==> r@ == self@.update(
                    i,
                    (name@, value),
                ),
            (forall|i: int| 0 <= i < self@.len() ==> (#[trigger] self@[i]).0 != name@) ==> r@
                == self@.push((name@, value)),
    {
        proof {
            use_type_invariant(&self);
        }
        let ghost before = self@;
        let mut entries = self.entries;
        let mut i: usize = 0;
        while i < entries.len()
            invariant
                before == self@,
                i <= entries@.len(),
                before == entries@.map_values(|entry: (String, Value)| (entry.0@, entry.1)),
                forall|j: int| 0 <= j < i ==> (#[trigger] before[j]).0 != name@,
                distinct_names(before),
            decreases entries@.len() - i,
        {
            assert(before[i as int].0 == entries@[i as int].0@);
            if entries[i].0 == name {
                let ghost key = name@;
                entries.set(i, (name, value));
                let ghost after = entries@.map_values(
                    |entry: (String, Value)| (entry.0@, entry.1),
                );
                proof {
                    assert(after =~= before.update(i as int, (key, value)));
                    assert forall|j: int|
                        0 <= j < before.len() && (#[trigger] before[j]).0 == key implies j == i by {
                        if j < i {
                            assert(before[j].0 != before[i as int].0);
                        } else if j > i {
                            assert(before[i as int].0 != before[j].0);
                        }
                    }
                    assert forall|a: int, b: int| 0 <= a < b < after.len() implies (
                    #[trigger] after[a]).0 != (#[trigger] after[b]).0 by {
                        assert(before[a].0 != before[b].0);
                    }
                }
                return JsonObject { entries };
            }
            i = i + 1;
        }
        let ghost key = name@;
        entries.push((name, value));
        let ghost after = entries@.map_values(|entry: (String, Value)| (entry.0@, entry.1));
        assert(after =~= before.push((key, value)));
        JsonObject { entries }
    }

    /// The entries, in order.
    pub fn into_entries(self) -> (r: Vec<(String, Value)>)
        ensures
            r@.map_values(|entry: (String, Value)| (entry.0@, entry.1)) == self@,
            distinct_names(self@),
    {
        proof {
            use_type_invariant(&self);
        }
        self.entries
    }
}

impl Value {
    /// Whether the value is an array.
    pub fn is_array(&self) -> (r: bool)
        ensures
            r == (self is Array),
    {
        match self {
            Value::Array(_) => true,
            _ => false,
        }
    }
}

/// The name of the kind of a value.
pub open spec fn kind_name(value: Value) -> Seq<char> {
    match value {
        Value::Null => "null"@,
        Value::Bool(_) => "bool"@,
        Value::Number(_) => "number"@,
        Value::String(_) => "string"@,
        Value::Array(_) => "array"@,
        Value::Object(_) => "object"@,
    }
}

/// Names the kind of a value.
pub fn json_type_name(value: &Value) -> (r: &'static str)
    ensures
        r@ == kind_name(*value),
{
    match value {
        Value::Null => "null",
        Value::Bool(_) => "bool",
        Value::Number(_) => "number",
        Value::String(_) => "string",
        Value::Array(_) => "array",
        Value::Object(_) => "object",
    }
}

/// Two values have the same kind exactly when their kinds have the same name.
pub proof fn kind_name_tells_kinds_apart(a: Value, b: Value)
    ensures
        kind_name(a) == kind_name(b) <==> {
            ||| (a is Null && b is Null)
            ||| (a is Bool && b is Bool)
            ||| (a is Number && b is Number)
            ||| (a is String && b is String)
            ||| (a is Array && b is Array)
            ||| (a is Object && b is Object)
        },
{
    reveal_strlit("null");
    reveal_strlit("bool");
    reveal_strlit("number");
    reveal_strlit("string");
    reveal_strlit("array");
    reveal_strlit("object");
    assert("null"@[0] == 'n' && "bool"@[0] == 'b' && "array"@[0] == 'a' && "object"@[0] == 'o');
    assert("number"@[0] == 'n' && "number"@.len() == 6 && "null"@.len() == 4);
    assert("string"@[0] == 's');
}

/// An object gives back what was put into it: a value that was inserted is under its name, every
/// entry under another name is kept in its place, and nothing else is added.
pub proof fn inserted_value_is_read_back(
    object: JsonObject,
    name: String,
    value: Value,
    inserted: JsonObject,
    before: Vec<(String, Value)>,
    after: Vec<(String, Value)>,
)
    requires
        call_ensures(JsonObject::insert, (object, name, value), inserted),
        call_ensures(JsonObject::into_entries, (object,), before),
        call_ensures(JsonObject::into_entries, (inserted,), after),
    ensures
        before@.len() <= after@.len() <= before@.len() + 1,
        after@.len() == before@.len() <==> exists|i: int|
            0 <= i < before@.len() && (#[trigger] before@[i]).0@ == name@,
        after@.len() > before@.len() ==> after@.last().0@ == name@ && after@.last().1 == value,
        forall|i: int|
            0 <= i < before@.len() ==> (#[trigger] after@[i]).0@ == before@[i].0@ && after@[i].1
                == (if before@[i].0@ == name@ {
                value
            } else {
                before@[i].1
            }),
{
    let texts = |entry: (String, Value)| (entry.0@, entry.1);
    assert(before@.map_values(texts) == object@);
    assert(after@.map_values(texts) == inserted@);
    assert forall|i: int| 0 <= i < before@.len() implies (#[trigger] object@[i]) == (
        before@[i].0@,
        before@[i].1,
    ) by {
        assert(before@.map_values(texts)[i] == texts(before@[i]));
    }
    assert forall|i: int| 0 <= i < after@.len() implies (#[trigger] inserted@[i]) == (
        after@[i].0@,
        after@[i].1,
    ) by {
        assert(after@.map_values(texts)[i] == texts(after@[i]));
    }
    if exists|k: int| 0 <= k < object@.len() && (#[trigger] object@[k]).0 == name@ {
        let k = choose|k: int| 0 <= k < object@.len() && (#[trigger] object@[k]).0 == name@;
        assert(before@[k].0@ == name@);
        assert forall|i: int| 0 <= i < before@.len() implies (#[trigger] after@[i]).0@
            == before@[i].0@ && after@[i].1 == (if before@[i].0@ == name@ {
            value
        } else {
            before@[i].1
        }) by {
            assert(inserted@[i] == (after@[i].0@, after@[i].1));
            if i != k {
                assert(object@[i].0 != object@[k].0);
            }
        }
    } else {
        assert forall|i: int| 0 <= i < before@.len() implies (#[trigger] before@[i]).0@ != name@ by {
            assert(object@[i].0 == before@[i].0@);
        }
        assert(inserted@.last() == (after@.last().0@, after@.last().1));
        assert forall|i: int| 0 <= i < before@.len() implies (#[trigger] after@[i]).0@
            == before@[i].0@ && after@[i].1 == before@[i].1 by {
            assert(inserted@[i] == object@[i]);
        }
    }
}

/// Each kind of value has its own name, whatever the value holds.
pub proof fn value_is_named_by_its_kind(value: Value, name: &'static str)
    requires
        call_ensures(json_type_name, (&value,), name),
    ensures
        value is Null <==> name@ == "null"@,
        value is Bool <==> name@ == "bool"@,
        value is Number <==> name@ == "number"@,
        value is String <==> name@ == "string"@,
        value is Array <==> name@ == "array"@,
        value is Object <==> name@ == "object"@,
{
    reveal_strlit("null");
    reveal_strlit("bool");
    reveal_strlit("number");
    reveal_strlit("string");
    reveal_strlit("array");
    reveal_strlit("object");
    assert("null"@[0] == 'n' && "bool"@[0] == 'b' && "array"@[0] == 'a' && "object"@[0] == 'o');
    assert("number"@[0] == 'n' && "number"@.len() == 6 && "null"@.len() == 4);
    assert("string"@[0] == 's');
}

} // verus!
