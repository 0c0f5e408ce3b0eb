use vstd::prelude::*;

use crate::text::str_eq;

verus! {

/// `serde_json::Value`, the document tree that `serde_json` parses into.
#[verifier::external_type_specification]
#[verifier::external_body]
pub struct ExSerdeValue(serde_json::Value);

/// A JSON document as plain values. Numbers keep the text that
/// `serde_json` prints for them; an object keeps its members in the order
/// given (ordered by name in the documents that `parse_json` reads).
#[derive(Debug, PartialEq)]
pub enum JsonValue {
    Null,
    Bool(bool),
    Number(String),
    Str(String),
    Array(Vec<JsonValue>),
    Object(Vec<(String, JsonValue)>),
}

/// The value of the first member named `key`, if any.
pub open spec fn member_value(members: Seq<(String, JsonValue)>, key: Seq<char>) -> Option<JsonValue>
    decreases members.len(),
{
    if members.len() == 0 {
        None
    } else if members[0].0@ == key {
        Some(members[0].1)
    } else {
        member_value(members.drop_first(), key)
    }
}

impl Clone for JsonValue {
    /// A copy of this value, member for member.
    fn clone(&self) -> (r: Self)
        ensures
            same_json(*self, r),
    {
        self.duplicate()
    }
}

/// Whether `a` and `b` are the same document: same kinds, same texts,
/// same items and members in the same order.
pub open spec fn same_json(a: JsonValue, b: JsonValue) -> bool
    decreases a,
{
    match a {
        JsonValue::Array(x) => match b {
            JsonValue::Array(y) => {
                &&& x@.len() == y@.len()
                &&& forall|i: int| 0 <= i < x@.len() ==> same_json(#[trigger] x@[i], y@[i])
            },
            _ => false,
        },
        JsonValue::Object(x) => match b {
            JsonValue::Object(y) => {
                &&& x@.len() == y@.len()
                &&& forall|i: int| 0 <= i < x@.len() ==> (#[trigger] x@[i]).0@ == y@[i].0@
                    && same_json(x@[i].1, y@[i].1)
            },
            _ => false,
        },
        _ => a == b,
    }
}

impl JsonValue {
    /// `v[key]` for an object, `None` for every other kind of value, as
    /// `serde_json::Value::get` with a string index.
    pub open spec fn field(self, key: Seq<char>) -> Option<JsonValue> {
        match self {
            JsonValue::Object(members) => member_value(members@, key),
            _ => None,
        }
    }

    /// The characters of a string value, `None` for every other kind.
    pub open spec fn text(self) -> Option<Seq<char>> {
        match self {
            JsonValue::Str(s) => Some(s@),
            _ => None,
        }
    }

    /// The value of the member `key` of an object.
    pub fn get(&self, key: &str) -> (r: Option<&JsonValue>)
        ensures
            r matches Some(x) ==> self.field(key@) == Some(*x),
            r is None ==> self.field(key@) is None,
    {
        match self {
            JsonValue::Object(members) => {
                let n = members.len();
                let mut i: usize = 0;
                assert(members@.skip(0) =~= members@);
                while i < n
                    invariant
                        n == members@.len(),
                        i <= n,
                        self.field(key@) == member_value(members@, key@),
                        member_value(members@, key@) == member_value(members@.skip(i as int), key@),
                    decreases n - i,
                {
                    assert(members@.skip(i as int).drop_first() =~= members@.skip(i + 1));
                    assert(members@.skip(i as int)[0] == members@[i as int]);
                    if str_eq(members[i].0.as_str(), key) {
                        return Some(&members[i].1);
                    }
                    i = i + 1;
                }
                assert(members@.skip(n as int) =~= Seq::<(String, JsonValue)>::empty());
                None
            },
            _ => None,
        }
    }

    /// The value of the member `key` of an object, taken out of it.
    pub fn take(self, key: &str) -> (r: Option<JsonValue>)
        ensures
            r == self.field(key@),
    {
        let ghost wanted = self.field(key@);
        match self {
            JsonValue::Object(members) => {
                let ghost all = members@;
                let mut members = members;
                let n = members.len();
                let mut i: usize = 0;
                assert(all.skip(0) =~= all);
                while i < n
                    invariant
                        n == members@.len(),
                        members@ == all,
                        wanted == member_value(all, key@),
                        wanted == self.field(key@),
                        i <= n,
                        member_value(all, key@) == member_value(all.skip(i as int), key@),
                    decreases n - i,
                {
                    assert(all.skip(i as int).drop_first() =~= all.skip(i + 1));
                    assert(all.skip(i as int)[0] == all[i as int]);
                    if str_eq(members[i].0.as_str(), key) {
                        let (_, value) = members.remove(i);
                        return Some(value);
                    }
                    i = i + 1;
                }
                assert(all.skip(n as int) =~= Seq::<(String, JsonValue)>::empty());
                None
            },
            _ => None,
        }
    }

    /// A copy of this value, member for member.
    pub fn duplicate(&self) -> (r: JsonValue)
        ensures
            same_json(*self, r),
        decreases self,
    {
        match self {
            JsonValue::Null => JsonValue::Null,
            JsonValue::Bool(b) => JsonValue::Bool(*b),
            JsonValue::Number(n) => JsonValue::Number(n.clone()),
            JsonValue::Str(s) => JsonValue::Str(s.clone()),
            JsonValue::Array(items) => {
                let mut out: Vec<JsonValue> = Vec::new();
                let n = items.len();
                let mut i: usize = 0;
                while i < n
                    invariant
                        n == items@.len(),
                        i <= n,
                        out@.len() == i,
                        forall|j: int| 0 <= j < i ==> same_json(#[trigger] items@[j], out@[j]),
                        *self == JsonValue::Array(*items),
                    decreases n - i,
                {
                    proof {
                        assert(decreases_to!(*self => (*self)->Array_0));
                        assert(decreases_to!(*items => items[i as int]));
                    }
                    out.push(items[i].duplicate());
                    i = i + 1;
                }
                JsonValue::Array(out)
            },
            JsonValue::Object(members) => {
                let mut out: Vec<(String, JsonValue)> = Vec::new();
                let n = members.len();
                let mut i: usize = 0;
                while i < n
                    invariant
                        n == members@.len(),
                        i <= n,
                        out@.len() == i,
                        forall|j: int| 0 <= j < i ==> (#[trigger] members@[j]).0@ == out@[j].0@
                            && same_json(members@[j].1, out@[j].1),
                        *self == JsonValue::Object(*members),
                    decreases n - i,
                {
                    let key = members[i].0.clone();
                    proof {
                        assert(decreases_to!(*self => (*self)->Object_0));
                        assert(decreases_to!(*members => members[i as int]));
                        assert(decreases_to!(members[i as int] => members[i as int].1));
                    }
                    let value = members[i].1.duplicate();
                    out.push((key, value));
                    i = i + 1;
                }
                JsonValue::Object(out)
            },
        }
    }

    /// The text of a string value.
    pub fn as_str(&self) -> (r: Option<&str>)
        ensures
            r matches Some(s) ==> self.text() == Some(s@),
            r is None ==> self.text() is None,
    {
        match self {
            JsonValue::Str(s) => Some(s.as_str()),
            _ => None,
        }
    }
}

/// What `serde_json::from_str::<serde_json::Value>` makes of a text: the
/// document as a `JsonValue`, or the message of the error it reports.
pub uninterp spec fn json_document(text: Seq<char>) -> Result<JsonValue, Seq<char>>;

/// Calls `serde_json::from_str` to read `text` as one JSON value, and hands
/// back the tree as a `JsonValue`, or the error's `Display` message.
/// Claimed: the outcome depends on the text alone (it is named
/// `json_document`), which holds because `serde_json` builds objects in a
/// `BTreeMap`, keeps no state between calls, and words its messages from
/// the kind of fault and its line and column. Which texts are JSON, what
/// tree each gives and how a fault is worded is left to `serde_json`.
#[verifier::external_body]
pub fn parse_json(text: &str) -> (r: Result<JsonValue, String>)
    ensures
        r matches Ok(v) ==> (json_document(text@) matches Ok(d) && d == v),
        r matches Err(m) ==> (json_document(text@) matches Err(e) && e == m@),
{
    serde_json::from_str::<serde_json::Value>(text).map(json_value_from_serde).map_err(|e| e.to_string())
}

/// Moves a `serde_json::Value` into a `JsonValue`, variant for variant;
/// numbers become the text that `serde_json::Number` displays. Used by
/// `parse_json` only.
#[verifier::external_body]
fn json_value_from_serde(v: serde_json::Value) -> JsonValue {
    match v {
        serde_json::Value::Null => JsonValue::Null,
        serde_json::Value::Bool(b) => JsonValue::Bool(b),
        serde_json::Value::Number(n) => JsonValue::Number(n.to_string()),
        serde_json::Value::String(s) => JsonValue::Str(s),
        serde_json::Value::Array(a) => JsonValue::Array(a.into_iter().map(json_value_from_serde).collect()),
        serde_json::Value::Object(m) => JsonValue::Object(m.into_iter().map(|(k, x)| (k, json_value_from_serde(x))).collect()),
    }
}


/// No member named `key`: looking it up finds nothing.
proof fn member_value_absent(members: Seq<(String, JsonValue)>, key: Seq<char>)
    requires
        forall|k: int| 0 <= k < members.len() ==> (#[trigger] members[k]).0@ != key,
    ensures
        member_value(members, key) is None,
    decreases members.len(),
{
    if members.len() > 0 {
        assert forall|k: int| 0 <= k < members.drop_first().len() implies
            (#[trigger] members.drop_first()[k]).0@ != key by {
            assert(members.drop_first()[k] == members[k + 1]);
        }
        member_value_absent(members.drop_first(), key);
    }
}

/// The first member named `key` is at `j`: looking it up finds its value.
proof fn member_value_first(members: Seq<(String, JsonValue)>, key: Seq<char>, j: int)
    requires
        0 <= j < members.len(),
        members[j].0@ == key,
        forall|k: int| 0 <= k < j ==> (#[trigger] members[k]).0@ != key,
    ensures
        member_value(members, key) == Some(members[j].1),
    decreases members.len(),
{
    if j > 0 {
        assert(members[0].0@ != key);
        assert forall|k: int| 0 <= k < j - 1 implies
            (#[trigger] members.drop_first()[k]).0@ != key by {
            assert(members.drop_first()[k] == members[k + 1]);
        }
        member_value_first(members.drop_first(), key, j - 1);
    }
}

/// Looking up a member of an object finds the value of the first member
/// with that name, wherever it stands among the others, and finds nothing
/// exactly when no member has that name; any other value has no members.
pub proof fn field_finds_the_first_member(v: JsonValue, key: Seq<char>)
    ensures
        v matches JsonValue::Object(members) ==> {
            &&& (forall|k: int| 0 <= k < members@.len() ==> (#[trigger] members@[k]).0@ != key)
                ==> v.field(key) is None
            &&& forall|j: int|
                0 <= j < members@.len() && (#[trigger] members@[j]).0@ == key
                    && (forall|k: int| 0 <= k < j ==> (#[trigger] members@[k]).0@ != key)
                    ==> v.field(key) == Some(members@[j].1)
        },
        !(v is Object) ==> v.field(key) is None,
{
    if let JsonValue::Object(members) = v {
        if forall|k: int| 0 <= k < members@.len() ==> (#[trigger] members@[k]).0@ != key {
            member_value_absent(members@, key);
        }
        assert forall|j: int|
            0 <= j < members@.len() && (#[trigger] members@[j]).0@ == key
                && (forall|k: int| 0 <= k < j ==> (#[trigger] members@[k]).0@ != key)
            implies v.field(key) == Some(members@[j].1) by {
            member_value_first(members@, key, j);
        }
    }
}

/// A copy is the value it copies: a scalar (null, boolean, number, string)
/// is equal to it, and an array or an object has the same kind, as many
/// items or members, the same member names in the same order, and copies
/// of each item and member value.
pub proof fn copies_are_equal(a: JsonValue, b: JsonValue)
    requires
        same_json(a, b),
    ensures
        a is Array <==> b is Array,
        a is Object <==> b is Object,
        !(a is Array) && !(a is Object) ==> a == b,
        a matches JsonValue::Array(x) ==> b matches JsonValue::Array(y) && {
            &&& x@.len() == y@.len()
            &&& forall|i: int| 0 <= i < x@.len() ==> same_json(#[trigger] x@[i], y@[i])
        },
        a matches JsonValue::Object(x) ==> b matches JsonValue::Object(y) && {
            &&& x@.len() == y@.len()
            &&& forall|i: int| 0 <= i < x@.len() ==> (#[trigger] x@[i]).0@ == y@[i].0@
            &&& forall|i: int| 0 <= i < x@.len() ==> same_json((#[trigger] x@[i]).1, y@[i].1)
        },
{
}

} // verus!
