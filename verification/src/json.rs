//! A plain JSON value: what the validators read of a parsed document.

use vstd::prelude::*;
use crate::text::{decimal, decimal_u128, json_string, push_chars, push_json_string, push_str};

verus! {

/// A JSON number, held as far as the validators read it.
#[derive(Debug, Clone, PartialEq, Eq)]
pub enum JsonNumber {
    /// A non-negative integer that fits in `u64`.
    Unsigned(u64),
    /// A negative integer that fits in `i64`.
    Negative(i64),
    /// Any other number (fractional or out of integer range), as its JSON text.
    Other(String),
}

#[derive(Debug)]
pub enum JsonValue {
    Null,
    Bool(bool),
    Number(JsonNumber),
    String(String),
    Array(Vec<JsonValue>),
    /// Members in document order; keys are unique.
    Object(Vec<(String, JsonValue)>),
}

/// `i` is the first member whose key is `key`.
pub open spec fn is_first_key(members: Seq<(String, JsonValue)>, key: Seq<char>, i: int) -> bool {
    0 <= i < members.len() && members[i].0@ == key && forall|j: int|
        0 <= j < i ==> (#[trigger] members[j]).0@ != key
}

impl JsonValue {
    /// The value stored under `key` (its first occurrence), if this is an
    /// object that has it.
    pub open spec fn spec_get(self, key: Seq<char>) -> Option<JsonValue> {
        match self {
            JsonValue::Object(members) => if exists|i: int| is_first_key(members@, key, i) {
                Some(members@[choose|i: int| is_first_key(members@, key, i)].1)
            } else {
                None
            },
            _ => None,
        }
    }

    pub open spec fn spec_as_str(self) -> Option<Seq<char>> {
        match self {
            JsonValue::String(s) => Some(s@),
            _ => None,
        }
    }

    pub open spec fn spec_as_u64(self) -> Option<u64> {
        match self {
            JsonValue::Number(JsonNumber::Unsigned(n)) => Some(n),
            _ => None,
        }
    }

    pub fn get(&self, key: &str) -> (r: Option<&JsonValue>)
        ensures
            match r {
                Some(v) => self.spec_get(key@) == Some(*v),
                None => self.spec_get(key@) is None,
            },
    {
        match self {
            JsonValue::Object(members) => {
                let mut i: usize = 0;
                while i < members.len()
                    invariant
                        *self == JsonValue::Object(*members),
                        i <= members@.len(),
                        forall|j: int| 0 <= j < i ==> (#[trigger] members@[j]).0@ != key@,
                    decreases members.len() - i,
                {
                    if crate::text::str_eq(members[i].0.as_str(), key) {
                        assert(is_first_key(members@, key@, i as int));
                        let ghost c = choose|k: int| is_first_key(members@, key@, k);
                        assert(c == i) by {
                            if c < i {
                                assert(members@[c].0@ != key@);
                            } else if c > i {
                                assert(members@[i as int].0@ != key@);
                            }
                        }
                        return Some(&members[i].1);
                    }
                    i = i + 1;
                }
                assert(!exists|k: int| is_first_key(members@, key@, k)) by {
                    if exists|k: int| is_first_key(members@, key@, k) {
                        let k = choose|k: int| is_first_key(members@, key@, k);
                        assert(members@[k].0@ != key@);
                    }
                }
                None
            },
            _ => None,
        }
    }

    pub fn as_str(&self) -> (r: Option<&str>)
        ensures
            match r {
                Some(s) => self.spec_as_str() == Some(s@),
                None => self.spec_as_str() is None,
            },
    {
        match self {
            JsonValue::String(s) => Some(s.as_str()),
            _ => None,
        }
    }

    pub fn as_u64(&self) -> (r: Option<u64>)
        ensures
            r == self.spec_as_u64(),
    {
        match self {
            JsonValue::Number(JsonNumber::Unsigned(n)) => Some(*n),
            _ => None,
        }
    }

    pub fn is_object(&self) -> (r: bool)
        ensures
            r == (*self is Object),
    {
        match self {
            JsonValue::Object(_) => true,
            _ => false,
        }
    }
}


/// The compact JSON text of a value, members in their stored order.
pub open spec fn json_text(v: JsonValue) -> Seq<char>
    decreases v,
{
    match v {
        JsonValue::Null => "null"@,
        JsonValue::Bool(b) => if b {
            "true"@
        } else {
            "false"@
        },
        JsonValue::Number(JsonNumber::Unsigned(n)) => decimal(n as nat),
        JsonValue::Number(JsonNumber::Negative(n)) => if n < 0 {
            seq!['-'] + decimal((-(n as int)) as nat)
        } else {
            decimal(n as nat)
        },
        JsonValue::Number(JsonNumber::Other(t)) => t@,
        JsonValue::String(s) => json_string(s@),
        JsonValue::Array(items) => seq!['['] + items_text(items@) + seq![']'],
        JsonValue::Object(members) => seq!['{'] + members_text(members@) + seq!['}'],
    }
}

/// Item texts separated by commas.
pub open spec fn items_text(items: Seq<JsonValue>) -> Seq<char>
    decreases items,
{
    if items.len() == 0 {
        Seq::<char>::empty()
    } else if items.len() == 1 {
        json_text(items[0])
    } else {
        items_text(items.drop_last()) + seq![','] + json_text(items.last())
    }
}

/// `"key":value` member texts separated by commas.
pub open spec fn members_text(members: Seq<(String, JsonValue)>) -> Seq<char>
    decreases members,
{
    if members.len() == 0 {
        Seq::<char>::empty()
    } else if members.len() == 1 {
        json_string(members[0].0@) + seq![':'] + json_text(members[0].1)
    } else {
        members_text(members.drop_last()) + seq![','] + json_string(members.last().0@) + seq![':']
            + json_text(members.last().1)
    }
}


/// Appends the compact JSON text of a value.
pub fn push_json_text(out: &mut Vec<char>, v: &JsonValue)
    ensures
        final(out)@ == old(out)@ + json_text(*v),
    decreases v,
{
    let ghost before = out@;
    match v {
        JsonValue::Null => {
            push_str(out, "null");
        },
        JsonValue::Bool(b) => {
            if *b {
                push_str(out, "true");
            } else {
                push_str(out, "false");
            }
        },
        JsonValue::Number(JsonNumber::Unsigned(n)) => {
            push_chars(out, &decimal_u128(*n as u128));
        },
        JsonValue::Number(JsonNumber::Negative(n)) => {
            if *n < 0 {
                out.push('-');
                let m: u128 = (0i128 - (*n as i128)) as u128;
                push_chars(out, &decimal_u128(m));
            } else {
                push_chars(out, &decimal_u128(*n as u128));
            }
            assert(out@ =~= before + json_text(*v));
        },
        JsonValue::Number(JsonNumber::Other(t)) => {
            push_str(out, t.as_str());
        },
        JsonValue::String(t) => {
            push_json_string(out, t.as_str());
        },
        JsonValue::Array(items) => {
            out.push('[');
            let mut i: usize = 0;
            let ghost mid = out@;
            assert(items@.take(0) =~= Seq::<JsonValue>::empty());
            assert(out@ =~= mid + items_text(items@.take(0)));
            while i < items.len()
                invariant
                    *v == JsonValue::Array(*items),
                    i <= items@.len(),
                    out@ == mid + items_text(items@.take(i as int)),
                decreases items.len() - i,
            {
                assert(items@.take(i + 1).drop_last() =~= items@.take(i as int));
                assert(items@.take(i + 1).last() == items@[i as int]);
                if i > 0 {
                    out.push(',');
                }
                proof {
                    assert(decreases_to!(*v => v->Array_0));
                    assert(decreases_to!(v->Array_0 => items@));
                    assert(decreases_to!(items@ => items@[i as int]));
                }
                push_json_text(out, &items[i]);
                i = i + 1;
                assert(out@ =~= mid + items_text(items@.take(i as int)));
            }
            assert(items@.take(items@.len() as int) =~= items@);
            out.push(']');
            assert(out@ =~= before + json_text(*v));
        },
        JsonValue::Object(members) => {
            out.push('{');
            let mut i: usize = 0;
            let ghost mid = out@;
            assert(members@.take(0) =~= Seq::<(String, JsonValue)>::empty());
            assert(out@ =~= mid + members_text(members@.take(0)));
            while i < members.len()
                invariant
                    *v == JsonValue::Object(*members),
                    i <= members@.len(),
                    out@ == mid + members_text(members@.take(i as int)),
                decreases members.len() - i,
            {
                assert(members@.take(i + 1).drop_last() =~= members@.take(i as int));
                assert(members@.take(i + 1).last() == members@[i as int]);
                if i > 0 {
                    out.push(',');
                }
                push_json_string(out, members[i].0.as_str());
                out.push(':');
                proof {
                    assert(decreases_to!(*v => v->Object_0));
                    assert(decreases_to!(v->Object_0 => members@));
                    assert(decreases_to!(members@ => members@[i as int]));
                    assert(decreases_to!(members@[i as int] => members@[i as int].1));
                }
                push_json_text(out, &members[i].1);
                i = i + 1;
                assert(out@ =~= mid + members_text(members@.take(i as int)));
            }
            assert(members@.take(members@.len() as int) =~= members@);
            out.push('}');
            assert(out@ =~= before + json_text(*v));
        },
    }
    assert(out@ =~= before + json_text(*v));
}

} // verus!


verus! {

/// A member read as a string.
pub open spec fn field_text(v: JsonValue, key: Seq<char>) -> Option<Seq<char>> {
    match v.spec_get(key) {
        Some(JsonValue::String(s)) => Some(s@),
        _ => None,
    }
}

/// A member read as an unsigned 64-bit integer.
pub open spec fn field_u64(v: JsonValue, key: Seq<char>) -> Option<u64> {
    match v.spec_get(key) {
        Some(JsonValue::Number(JsonNumber::Unsigned(n))) => Some(n),
        _ => None,
    }
}

/// A member read as a signed 64-bit integer.
pub open spec fn field_i64(v: JsonValue, key: Seq<char>) -> Option<i64> {
    match v.spec_get(key) {
        Some(JsonValue::Number(JsonNumber::Unsigned(n))) => if n <= i64::MAX {
            Some(n as i64)
        } else {
            None
        },
        Some(JsonValue::Number(JsonNumber::Negative(n))) => Some(n),
        _ => None,
    }
}

/// A member read as a boolean.
pub open spec fn field_bool(v: JsonValue, key: Seq<char>) -> Option<bool> {
    match v.spec_get(key) {
        Some(JsonValue::Bool(b)) => Some(b),
        _ => None,
    }
}

/// A member read as an array.
pub open spec fn field_array(v: JsonValue, key: Seq<char>) -> Option<Seq<JsonValue>> {
    match v.spec_get(key) {
        Some(JsonValue::Array(items)) => Some(items@),
        _ => None,
    }
}

/// An optional string member: absent or null reads as no value, a string as
/// that value, and anything else does not read (`None`).
pub open spec fn field_opt_text(v: JsonValue, key: Seq<char>) -> Option<Option<Seq<char>>> {
    match v.spec_get(key) {
        None => Some(None),
        Some(JsonValue::Null) => Some(None),
        Some(JsonValue::String(s)) => Some(Some(s@)),
        _ => None,
    }
}

/// An object whose every key is one of `allowed`.
pub open spec fn keys_within(v: JsonValue, allowed: Seq<&'static str>) -> bool {
    match v {
        JsonValue::Object(members) => keys_allowed(members@, allowed),
        _ => false,
    }
}

/// Every key is one of `allowed`.
pub open spec fn keys_allowed(members: Seq<(String, JsonValue)>, allowed: Seq<&'static str>) -> bool {
    forall|i: int|
        0 <= i < members.len() ==> crate::metrics::label_texts(allowed).contains(
            (#[trigger] members[i]).0@,
        )
}

pub open spec fn opt_text_view(o: Option<String>) -> Option<Seq<char>> {
    match o {
        Some(s) => Some(s@),
        None => None,
    }
}

impl JsonValue {
    /// The string stored under `key`, copied.
    pub fn text_of(&self, key: &str) -> (r: Option<String>)
        ensures
            opt_text_view(r) == field_text(*self, key@),
    {
        match self.get(key) {
            Some(JsonValue::String(s)) => Some(s.clone()),
            _ => None,
        }
    }

    /// The unsigned integer stored under `key`.
    pub fn u64_of(&self, key: &str) -> (r: Option<u64>)
        ensures
            r == field_u64(*self, key@),
    {
        match self.get(key) {
            Some(JsonValue::Number(JsonNumber::Unsigned(n))) => Some(*n),
            _ => None,
        }
    }

    /// The signed integer stored under `key`.
    pub fn i64_of(&self, key: &str) -> (r: Option<i64>)
        ensures
            r == field_i64(*self, key@),
    {
        match self.get(key) {
            Some(JsonValue::Number(JsonNumber::Unsigned(n))) => if *n <= i64::MAX as u64 {
                Some(*n as i64)
            } else {
                None
            },
            Some(JsonValue::Number(JsonNumber::Negative(n))) => Some(*n),
            _ => None,
        }
    }

    /// The boolean stored under `key`.
    pub fn bool_of(&self, key: &str) -> (r: Option<bool>)
        ensures
            r == field_bool(*self, key@),
    {
        match self.get(key) {
            Some(JsonValue::Bool(b)) => Some(*b),
            _ => None,
        }
    }

    /// The optional string stored under `key` (absent and null both read as
    /// no value); `None` when the member holds anything else.
    pub fn opt_text_of(&self, key: &str) -> (r: Option<Option<String>>)
        ensures
            match r {
                Some(o) => field_opt_text(*self, key@) == Some(opt_text_view(o)),
                None => field_opt_text(*self, key@) is None,
            },
    {
        match self.get(key) {
            None => Some(None),
            Some(JsonValue::Null) => Some(None),
            Some(JsonValue::String(s)) => Some(Some(s.clone())),
            _ => None,
        }
    }

    /// Whether this is an object whose keys are all among `allowed`.
    pub fn keys_within(&self, allowed: &[&'static str]) -> (r: bool)
        ensures
            r == keys_within(*self, allowed@),
    {
        match self {
            JsonValue::Object(members) => {
                let mut i: usize = 0;
                while i < members.len()
                    invariant
                        *self == JsonValue::Object(*members),
                        i <= members@.len(),
                        forall|j: int|
                            0 <= j < i ==> crate::metrics::label_texts(allowed@).contains(
                                (#[trigger] members@[j]).0@,
                            ),
                    decreases members.len() - i,
                {
                    if crate::metrics::find_label(allowed, members[i].0.as_str()).is_none() {
                        assert(!crate::metrics::label_texts(allowed@).contains(
                            members@[i as int].0@,
                        ));
                        assert(!keys_allowed(members@, allowed@));
                        return false;
                    }
                    i = i + 1;
                }
                assert(keys_allowed(members@, allowed@));
                true
            },
            _ => false,
        }
    }
}

} // verus!
