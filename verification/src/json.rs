//! A JSON value as plain data, with the accessors the protocol logic reads
//! payloads through.

use vstd::prelude::*;

verus! {

/// A JSON number. Integers are held exactly; any other number is carried by
/// its decimal text, which the logic never interprets.
#[derive(Debug, PartialEq, Eq)]
pub enum Number {
    /// A non-negative integer.
    PosInt(u64),
    /// A negative integer.
    NegInt(i64),
    /// A number with a fraction or an exponent, as written.
    Float(String),
}

/// The mathematical value of a [`Number`].
pub enum NumberView {
    PosInt(u64),
    NegInt(i64),
    Float(Seq<char>),
}

impl View for Number {
    type V = NumberView;

    open spec fn view(&self) -> NumberView {
        match self {
            Number::PosInt(n) => NumberView::PosInt(*n),
            Number::NegInt(n) => NumberView::NegInt(*n),
            Number::Float(text) => NumberView::Float(text@),
        }
    }
}

impl Clone for Number {
    fn clone(&self) -> (res: Self)
        ensures
            res@ == self@,
    {
        match self {
            Number::PosInt(n) => Number::PosInt(*n),
            Number::NegInt(n) => Number::NegInt(*n),
            Number::Float(text) => Number::Float(text.clone()),
        }
    }
}

/// A JSON value. An object keeps its members in the order they were added;
/// a lookup by key finds the first member with that key.
#[derive(Debug, PartialEq, Eq)]
pub enum Json {
    Null,
    Bool(bool),
    Number(Number),
    String(String),
    Array(Vec<Json>),
    Object(Vec<(String, Json)>),
}

/// The mathematical value of a [`Json`]: the same tree over sequences.
pub enum JsonView {
    Null,
    Bool(bool),
    Number(NumberView),
    String(Seq<char>),
    Array(Seq<JsonView>),
    Object(Seq<(Seq<char>, JsonView)>),
}

/// The view of each element of `items`.
pub open spec fn view_items(items: Seq<Json>) -> Seq<JsonView>
    decreases items, 0nat,
{
    Seq::new(
        items.len(),
        |i: int|
            if 0 <= i < items.len() {
                view_json(items[i])
            } else {
                JsonView::Null
            },
    )
}

/// The view of each member of `members`.
pub open spec fn view_members(members: Seq<(String, Json)>) -> Seq<(Seq<char>, JsonView)>
    decreases members, 0nat,
{
    Seq::new(
        members.len(),
        |i: int|
            if 0 <= i < members.len() {
                (members[i].0@, view_json(members[i].1))
            } else {
                (Seq::empty(), JsonView::Null)
            },
    )
}

/// The view of `value`.
pub open spec fn view_json(value: Json) -> JsonView
    decreases value, 1nat,
{
    match value {
        Json::Null => JsonView::Null,
        Json::Bool(b) => JsonView::Bool(b),
        Json::Number(n) => JsonView::Number(n@),
        Json::String(s) => JsonView::String(s@),
        Json::Array(items) => JsonView::Array(view_items(items@)),
        Json::Object(members) => JsonView::Object(view_members(members@)),
    }
}

impl View for Json {
    type V = JsonView;

    open spec fn view(&self) -> JsonView {
        view_json(*self)
    }
}

/// Position of the first member of `members` whose key is `key`, searching
/// from `from`; `None` when there is none.
pub open spec fn find_member(members: Seq<(Seq<char>, JsonView)>, key: Seq<char>, from: int) -> Option<int>
    decreases members.len() - from,
{
    if from < 0 || from >= members.len() {
        None
    } else if members[from].0 == key {
        Some(from)
    } else {
        find_member(members, key, from + 1)
    }
}

impl JsonView {
    /// The member `key` of an object; `None` for a missing key and for any
    /// value that is not an object.
    pub open spec fn get(self, key: Seq<char>) -> Option<JsonView> {
        match self {
            JsonView::Object(members) => match find_member(members, key, 0) {
                Some(i) => Some(members[i].1),
                None => None,
            },
            _ => None,
        }
    }

    /// The member `key`, or `Null` where [`JsonView::get`] finds nothing.
    pub open spec fn field(self, key: Seq<char>) -> JsonView {
        match self.get(key) {
            Some(v) => v,
            None => JsonView::Null,
        }
    }

    /// The text of a string value.
    pub open spec fn as_str(self) -> Option<Seq<char>> {
        match self {
            JsonView::String(s) => Some(s),
            _ => None,
        }
    }

    /// The value of a number that is a non-negative integer.
    pub open spec fn as_u64(self) -> Option<u64> {
        match self {
            JsonView::Number(NumberView::PosInt(n)) => Some(n),
            _ => None,
        }
    }

    /// The value of a number that is an integer in the range of `i64`.
    pub open spec fn as_i64(self) -> Option<i64> {
        match self {
            JsonView::Number(NumberView::PosInt(n)) => if n <= i64::MAX {
                Some(n as i64)
            } else {
                None
            },
            JsonView::Number(NumberView::NegInt(n)) => Some(n),
            _ => None,
        }
    }

    /// The elements of an array value.
    pub open spec fn as_array(self) -> Option<Seq<JsonView>> {
        match self {
            JsonView::Array(items) => Some(items),
            _ => None,
        }
    }

    /// The truth value of a boolean.
    pub open spec fn as_bool(self) -> Option<bool> {
        match self {
            JsonView::Bool(b) => Some(b),
            _ => None,
        }
    }
}


/// Appending an element appends its view.
pub proof fn lemma_view_items_push(items: Seq<Json>, value: Json)
    ensures
        view_items(items.push(value)) == view_items(items).push(value@),
{
    assert(view_items(items.push(value)) =~= view_items(items).push(value@));
}

/// Appending a member appends its view.
pub proof fn lemma_view_members_push(members: Seq<(String, Json)>, member: (String, Json))
    ensures
        view_members(members.push(member)) == view_members(members).push(
            (member.0@, member.1@),
        ),
{
    assert(view_members(members.push(member)) =~= view_members(members).push(
        (member.0@, member.1@),
    ));
}

/// Two lists with element-wise equal views have equal views.
pub proof fn lemma_view_items_eq(a: Seq<Json>, b: Seq<Json>)
    requires
        a.len() == b.len(),
        forall|k: int| 0 <= k < a.len() ==> a[k]@ == b[k]@,
    ensures
        view_items(a) == view_items(b),
{
    assert(view_items(a) =~= view_items(b));
}

/// Two member lists with pairwise equal keys and value views have equal views.
pub proof fn lemma_view_members_eq(a: Seq<(String, Json)>, b: Seq<(String, Json)>)
    requires
        a.len() == b.len(),
        forall|k: int| 0 <= k < a.len() ==> a[k].0@ == b[k].0@ && a[k].1@ == b[k].1@,
    ensures
        view_members(a) == view_members(b),
{
    assert(view_members(a) =~= view_members(b));
}

impl Clone for Json {
    #[verifier::loop_isolation(false)]
    fn clone(&self) -> (res: Self)
        ensures
            res@ == self@,
        decreases self,
    {
        match self {
            Json::Null => Json::Null,
            Json::Bool(b) => Json::Bool(*b),
            Json::Number(n) => Json::Number(n.clone()),
            Json::String(s) => Json::String(s.clone()),
            Json::Array(items) => {
                let mut out: Vec<Json> = Vec::new();
                let mut i: usize = 0;
                while i < items.len()
                    invariant
                        i <= items.len(),
                        out@.len() == i,
                        forall|k: int| 0 <= k < i ==> out@[k]@ == items@[k]@,
                    decreases items.len() - i,
                {
                    let item = items[i].clone();
                    out.push(item);
                    i = i + 1;
                }
                proof {
                    lemma_view_items_eq(out@, items@);
                }
                Json::Array(out)
            },
            Json::Object(members) => {
                let mut out: Vec<(String, Json)> = Vec::new();
                let mut i: usize = 0;
                while i < members.len()
                    invariant
                        i <= members.len(),
                        out@.len() == i,
                        forall|k: int|
                            0 <= k < i ==> out@[k].0@ == members@[k].0@ && out@[k].1@
                                == members@[k].1@,
                    decreases members.len() - i,
                {
                    let key = members[i].0.clone();
                    let value = members[i].1.clone();
                    out.push((key, value));
                    i = i + 1;
                }
                proof {
                    lemma_view_members_eq(out@, members@);
                }
                Json::Object(out)
            },
        }
    }
}

impl Json {
    /// Whether the value is `null`.
    pub fn is_null(&self) -> (b: bool)
        ensures
            b == (self@ is Null),
    {
        match self {
            Json::Null => true,
            _ => false,
        }
    }

    /// Whether the value is an object.
    pub fn is_object(&self) -> (b: bool)
        ensures
            b == (self@ is Object),
    {
        match self {
            Json::Object(_) => true,
            _ => false,
        }
    }

    /// Whether the value is a string.
    pub fn is_string(&self) -> (b: bool)
        ensures
            b == (self@ is String),
    {
        match self {
            Json::String(_) => true,
            _ => false,
        }
    }

    /// The text of a string value.
    pub fn as_str(&self) -> (r: Option<&str>)
        ensures
            match r {
                Some(s) => self@.as_str() == Some(s@),
                None => self@.as_str() is None,
            },
    {
        match self {
            Json::String(s) => Some(s.as_str()),
            _ => None,
        }
    }

    /// The value of a number that is a non-negative integer.
    pub fn as_u64(&self) -> (r: Option<u64>)
        ensures
            r == self@.as_u64(),
    {
        match self {
            Json::Number(Number::PosInt(n)) => Some(*n),
            _ => None,
        }
    }

    /// The value of a number that is an integer in the range of `i64`.
    pub fn as_i64(&self) -> (r: Option<i64>)
        ensures
            r == self@.as_i64(),
    {
        match self {
            Json::Number(Number::PosInt(n)) => if *n <= i64::MAX as u64 {
                Some(*n as i64)
            } else {
                None
            },
            Json::Number(Number::NegInt(n)) => Some(*n),
            _ => None,
        }
    }

    /// A copy of the member `key`, or `null` where there is none.
    pub fn field(&self, key: &str) -> (r: Json)
        ensures
            r@ == self@.field(key@),
    {
        match self.get(key) {
            Some(v) => v.clone(),
            None => Json::Null,
        }
    }

    /// A copy of the text of the member `key`, where it is a string.
    pub fn text_field(&self, key: &str) -> (r: Option<String>)
        ensures
            crate::progress::text_of(r) == self@.field(key@).as_str(),
    {
        match self.get(key) {
            Some(v) => match v.as_str() {
                Some(s) => Some(s.to_owned()),
                None => None,
            },
            None => None,
        }
    }

    /// The truth value of a boolean.
    pub fn as_bool(&self) -> (r: Option<bool>)
        ensures
            r == self@.as_bool(),
    {
        match self {
            Json::Bool(b) => Some(*b),
            _ => None,
        }
    }

    /// The elements of an array value.
    pub fn as_array(&self) -> (r: Option<&Vec<Json>>)
        ensures
            match r {
                Some(items) => self@.as_array() == Some(view_items(items@)),
                None => self@.as_array() is None,
            },
    {
        match self {
            Json::Array(items) => Some(items),
            _ => None,
        }
    }

    /// The member `key` of an object: the first one with that key. `None`
    /// for a missing key and for a value that is not an object.
    pub fn get(&self, key: &str) -> (r: Option<&Json>)
        ensures
            match r {
                Some(v) => self@.get(key@) == Some(v@),
                None => self@.get(key@) is None,
            },
    {
        match self {
            Json::Object(members) => {
                let wanted = key.to_owned();
                let mut i: usize = 0;
                while i < members.len()
                    invariant
                        i <= members.len(),
                        wanted@ == key@,
                        self@ == JsonView::Object(view_members(members@)),
                        find_member(view_members(members@), key@, 0) == find_member(
                            view_members(members@),
                            key@,
                            i as int,
                        ),
                    decreases members.len() - i,
                {
                    proof {
                        let all = view_members(members@);
                        assert(all[i as int] == (members@[i as int].0@, members@[i as int].1@));
                    }
                    if members[i].0 == wanted {
                        return Some(&members[i].1);
                    }
                    i = i + 1;
                }
                None
            },
            _ => None,
        }
    }

    /// A string value holding `text`.
    pub fn string(text: &str) -> (r: Json)
        ensures
            r@ == JsonView::String(text@),
    {
        Json::String(text.to_owned())
    }

    /// A number value holding the non-negative integer `n`.
    pub fn number(n: u64) -> (r: Json)
        ensures
            r@ == JsonView::Number(NumberView::PosInt(n)),
    {
        Json::Number(Number::PosInt(n))
    }

    /// An array of `items`.
    pub fn array(items: Vec<Json>) -> (r: Json)
        ensures
            r@ == JsonView::Array(view_items(items@)),
    {
        Json::Array(items)
    }

    /// An empty array.
    pub fn empty_array() -> (r: Json)
        ensures
            r@ == JsonView::Array(Seq::empty()),
    {
        let r = Json::Array(Vec::new());
        assert(view_items(Seq::<Json>::empty()) =~= Seq::<JsonView>::empty());
        r
    }

    /// An object with the one member `key: value`.
    pub fn object1(key: &str, value: Json) -> (r: Json)
        ensures
            r@ == JsonView::Object(seq![(key@, value@)]),
    {
        let mut members: Vec<(String, Json)> = Vec::new();
        members.push((key.to_owned(), value));
        assert(view_members(members@) =~= seq![(key@, value@)]);
        Json::Object(members)
    }

    /// An object with two members, in the order given.
    pub fn object2(k1: &str, v1: Json, k2: &str, v2: Json) -> (r: Json)
        ensures
            r@ == JsonView::Object(seq![(k1@, v1@), (k2@, v2@)]),
    {
        let mut members: Vec<(String, Json)> = Vec::new();
        members.push((k1.to_owned(), v1));
        members.push((k2.to_owned(), v2));
        assert(view_members(members@) =~= seq![(k1@, v1@), (k2@, v2@)]);
        Json::Object(members)
    }

    /// An object with four members, in the order given.
    pub fn object4(
        k1: &str,
        v1: Json,
        k2: &str,
        v2: Json,
        k3: &str,
        v3: Json,
        k4: &str,
        v4: Json,
    ) -> (r: Json)
        ensures
            r@ == JsonView::Object(seq![(k1@, v1@), (k2@, v2@), (k3@, v3@), (k4@, v4@)]),
    {
        let mut members: Vec<(String, Json)> = Vec::new();
        members.push((k1.to_owned(), v1));
        members.push((k2.to_owned(), v2));
        members.push((k3.to_owned(), v3));
        members.push((k4.to_owned(), v4));
        assert(view_members(members@) =~= seq![(k1@, v1@), (k2@, v2@), (k3@, v3@), (k4@, v4@)]);
        Json::Object(members)
    }

    /// An object with three members, in the order given.
    pub fn object3(k1: &str, v1: Json, k2: &str, v2: Json, k3: &str, v3: Json) -> (r: Json)
        ensures
            r@ == JsonView::Object(seq![(k1@, v1@), (k2@, v2@), (k3@, v3@)]),
    {
        let mut members: Vec<(String, Json)> = Vec::new();
        members.push((k1.to_owned(), v1));
        members.push((k2.to_owned(), v2));
        members.push((k3.to_owned(), v3));
        assert(view_members(members@) =~= seq![(k1@, v1@), (k2@, v2@), (k3@, v3@)]);
        Json::Object(members)
    }
}

} // verus!
