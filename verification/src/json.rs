//! A JSON document as plain values: what the service reads out of its
//! configuration file and what its handlers answer with.
use vstd::prelude::*;

verus! {

/// A JSON number as serde_json keeps it: a non-negative integer, a negative
/// integer, or a floating-point number (whose value this library never reads).
pub enum JsonNumber {
    PosInt(u64),
    NegInt(i64),
    Float,
}

/// A JSON value. Object members keep the order they were given in; a document
/// that serde_json parsed has its members sorted by name, one per name.
pub enum JsonValue {
    Null,
    Bool(bool),
    Number(JsonNumber),
    String(String),
    Array(Vec<JsonValue>),
    Object(Vec<(String, JsonValue)>),
}

/// The mathematical model of a JSON value.
pub enum JsonView {
    Null,
    Bool(bool),
    PosInt(u64),
    NegInt(i64),
    Float,
    Str(Seq<char>),
    Array(Seq<JsonView>),
    Object(Seq<(Seq<char>, JsonView)>),
}

impl JsonValue {
    /// The model of the value: strings as character sequences, members and
    /// items as sequences of models.
    pub open spec fn model(self) -> JsonView
        decreases self,
    {
        match self {
            JsonValue::Null => JsonView::Null,
            JsonValue::Bool(b) => JsonView::Bool(b),
            JsonValue::Number(JsonNumber::PosInt(n)) => JsonView::PosInt(n),
            JsonValue::Number(JsonNumber::NegInt(n)) => JsonView::NegInt(n),
            JsonValue::Number(JsonNumber::Float) => JsonView::Float,
            JsonValue::String(s) => JsonView::Str(s@),
            JsonValue::Array(items) => JsonView::Array(
                Seq::new(
                    items@.len(),
                    |i: int|
                        if 0 <= i < items@.len() {
                            items@[i].model()
                        } else {
                            JsonView::Null
                        },
                ),
            ),
            JsonValue::Object(members) => JsonView::Object(
                Seq::new(
                    members@.len(),
                    |i: int|
                        if 0 <= i < members@.len() {
                            (members@[i].0@, members@[i].1.model())
                        } else {
                            (Seq::empty(), JsonView::Null)
                        },
                ),
            ),
        }
    }
}

impl View for JsonValue {
    type V = JsonView;

    open spec fn view(&self) -> JsonView {
        self.model()
    }
}

/// The value of the first member named `key`, if there is one.
pub open spec fn find_member(members: Seq<(Seq<char>, JsonView)>, key: Seq<char>) -> Option<JsonView>
    decreases members.len(),
{
    if members.len() == 0 {
        None
    } else if members[0].0 == key {
        Some(members[0].1)
    } else {
        find_member(members.drop_first(), key)
    }
}

impl JsonView {
    /// The member named `key` of an object, if it has one.
    pub open spec fn lookup(self, key: Seq<char>) -> Option<JsonView> {
        match self {
            JsonView::Object(members) => find_member(members, key),
            _ => None,
        }
    }

    /// `value[key]`: the member named `key`, or null when there is none or
    /// the value is no object.
    pub open spec fn member(self, key: Seq<char>) -> JsonView {
        match self.lookup(key) {
            Some(v) => v,
            None => JsonView::Null,
        }
    }

    /// The text of a string.
    pub open spec fn as_str(self) -> Option<Seq<char>> {
        match self {
            JsonView::Str(s) => Some(s),
            _ => None,
        }
    }

    /// An integer that fits in an `i64`.
    pub open spec fn as_i64(self) -> Option<i64> {
        match self {
            JsonView::PosInt(n) => if n <= i64::MAX as u64 {
                Some(n as i64)
            } else {
                None
            },
            JsonView::NegInt(n) => Some(n),
            _ => None,
        }
    }
}

/// Looking a name up in an object gives the value of its first member of
/// that name.
pub proof fn lemma_find_first_member(members: Seq<(Seq<char>, JsonView)>, key: Seq<char>, i: int)
    requires
        0 <= i < members.len(),
        members[i].0 == key,
        forall|j: int| 0 <= j < i ==> #[trigger] members[j].0 != key,
    ensures
        find_member(members, key) == Some(members[i].1),
    decreases i,
{
    if i > 0 {
        let rest = members.drop_first();
        assert forall|j: int| 0 <= j < i - 1 implies #[trigger] rest[j].0 != key by {
            assert(rest[j] == members[j + 1]);
        }
        lemma_find_first_member(rest, key, i - 1);
    }
}

/// A name that no member of an object has, and any name looked up in a
/// value that is no object, gives null.
pub proof fn lemma_missing_member_is_null(v: JsonView, key: Seq<char>)
    requires
        forall|j: int| v is Object && 0 <= j < v->Object_0.len() ==> #[trigger] v->Object_0[j].0 != key,
    ensures
        v.member(key) == JsonView::Null,
{
    if let JsonView::Object(members) = v {
        lemma_find_absent(members, key);
    }
}

/// A name that no member has is not found.
proof fn lemma_find_absent(members: Seq<(Seq<char>, JsonView)>, key: Seq<char>)
    requires
        forall|j: int| 0 <= j < members.len() ==> #[trigger] members[j].0 != key,
    ensures
        find_member(members, key) is None,
    decreases members.len(),
{
    if members.len() > 0 {
        let rest = members.drop_first();
        assert forall|j: int| 0 <= j < rest.len() implies #[trigger] rest[j].0 != key by {
            assert(rest[j] == members[j + 1]);
        }
        lemma_find_absent(rest, key);
    }
}

/// Looking up a name in an object gives the value of the first member of
/// that name, wherever it stands; `value[name]` gives the same value.
pub proof fn lemma_lookup_first_member(v: JsonView, key: Seq<char>, i: int)
    requires
        v is Object,
        0 <= i < v->Object_0.len(),
        v->Object_0[i].0 == key,
        forall|j: int| 0 <= j < i ==> #[trigger] v->Object_0[j].0 != key,
    ensures
        v.lookup(key) == Some(v->Object_0[i].1),
        v.member(key) == v->Object_0[i].1,
{
    lemma_find_first_member(v->Object_0, key, i);
}

/// Looking up a name finds nothing exactly when the value is no object or
/// none of its members has that name.
pub proof fn lemma_lookup_none(v: JsonView, key: Seq<char>)
    ensures
        v.lookup(key) is None <==> (!(v is Object) || forall|j: int|
            0 <= j < v->Object_0.len() ==> #[trigger] v->Object_0[j].0 != key),
{
    if let JsonView::Object(ms) = v {
        if forall|j: int| 0 <= j < ms.len() ==> #[trigger] ms[j].0 != key {
            lemma_find_absent(ms, key);
        } else {
            let i = choose|i: int| 0 <= i < ms.len() && #[trigger] ms[i].0 == key;
            lemma_find_some(ms, key, i);
        }
    }
}

/// A name that some member has is found.
proof fn lemma_find_some(members: Seq<(Seq<char>, JsonView)>, key: Seq<char>, i: int)
    requires
        0 <= i < members.len(),
        members[i].0 == key,
    ensures
        find_member(members, key) is Some,
    decreases i,
{
    if members[0].0 != key {
        assert(members.drop_first()[i - 1] == members[i]);
        lemma_find_some(members.drop_first(), key, i - 1);
    }
}

impl JsonValue {
    /// The member named `key` of an object: the first one, where a name
    /// occurs more than once.
    pub fn get(&self, key: &str) -> (r: Option<&JsonValue>)
        ensures
            r matches Some(v) ==> self@.lookup(key@) == Some(v@),
            r is None <==> self@.lookup(key@) is None,
            forall|i: int|
                #![trigger self@->Object_0[i]]
                self@ is Object && 0 <= i < self@->Object_0.len() && self@->Object_0[i].0 == key@ && (forall|
                    j: int,
                | 0 <= j < i ==> self@->Object_0[j].0 != key@) ==> (r matches Some(v) && v@ == self@->Object_0[i].1),
            r is None ==> (!(self@ is Object) || forall|j: int|
                0 <= j < self@->Object_0.len() ==> #[trigger] self@->Object_0[j].0 != key@),
    {
        match self {
            JsonValue::Object(members) => {
                let k = key.to_string();
                let ghost ms = self@->Object_0;
                assert(ms.skip(0) =~= ms);
                let mut i: usize = 0;
                while i < members.len()
                    invariant
                        0 <= i <= members@.len(),
                        ms.len() == members@.len(),
                        k@ == key@,
                        self@ == JsonView::Object(ms),
                        forall|j: int| 0 <= j < members@.len() ==> #[trigger] ms[j] == (members@[j].0@, members@[j].1@),
                        find_member(ms, key@) == find_member(ms.skip(i as int), key@),
                        forall|j: int| 0 <= j < i ==> #[trigger] ms[j].0 != key@,
                    decreases members.len() - i,
                {
                    assert(ms.skip(i as int)[0] == ms[i as int]);
                    assert(ms[i as int] == (members@[i as int].0@, members@[i as int].1@));
                    if members[i].0 == k {
                        assert(ms.skip(i as int).len() > 0);
                        assert(find_member(ms.skip(i as int), key@) == Some(ms[i as int].1));
                        assert forall|i2: int|
                            #![trigger ms[i2]]
                            0 <= i2 < ms.len() && ms[i2].0 == key@ && (forall|j: int|
                                0 <= j < i2 ==> ms[j].0 != key@) implies i2 == i by {
                            if i2 > i {
                                assert(ms[i as int].0 == key@);
                            }
                        }
                        return Some(&members[i].1);
                    }
                    assert(ms.skip(i as int).drop_first() =~= ms.skip(i + 1));
                    i = i + 1;
                }
                None
            },
            _ => None,
        }
    }

    /// The text of a string value.
    pub fn as_str(&self) -> (r: Option<&str>)
        ensures
            r matches Some(t) ==> self@.as_str() == Some(t@),
            r is None <==> self@.as_str() is None,
    {
        match self {
            JsonValue::String(s) => Some(s.as_str()),
            _ => None,
        }
    }

    /// The value of an integer that fits in an `i64`.
    pub fn as_i64(&self) -> (r: Option<i64>)
        ensures
            r == self@.as_i64(),
    {
        match self {
            JsonValue::Number(JsonNumber::PosInt(n)) => {
                if *n <= i64::MAX as u64 {
                    Some(*n as i64)
                } else {
                    None
                }
            },
            JsonValue::Number(JsonNumber::NegInt(n)) => Some(*n),
            _ => None,
        }
    }

    /// `value[section][field].as_str()`: the text at a member of a member.
    pub fn str_at(&self, section: &str, field: &str) -> (r: Option<&str>)
        ensures
            r matches Some(t) ==> self@.member(section@).member(field@).as_str() == Some(t@),
            r is None <==> self@.member(section@).member(field@).as_str() is None,
    {
        match self.get(section) {
            Some(inner) => match inner.get(field) {
                Some(v) => v.as_str(),
                None => None,
            },
            None => None,
        }
    }

    /// `value[section][field].as_i64()`: the integer at a member of a member.
    pub fn i64_at(&self, section: &str, field: &str) -> (r: Option<i64>)
        ensures
            r == self@.member(section@).member(field@).as_i64(),
    {
        match self.get(section) {
            Some(inner) => match inner.get(field) {
                Some(v) => v.as_i64(),
                None => None,
            },
            None => None,
        }
    }
}

} // verus!
