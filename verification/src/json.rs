//! JSON values as the chat core reads and builds them.

use crate::text::str_eq;
use vstd::prelude::*;

verus! {

/// A JSON value.
#[derive(Debug, PartialEq, Eq)]
pub enum Json {
    Null,
    Bool(bool),
    /// A number, kept as its literal text.
    Number(String),
    Text(String),
    Array(Vec<Json>),
    /// The members in order. A lookup takes the first member with the key.
    Object(Vec<(String, Json)>),
}

/// The mathematical value of a [`Json`].
pub enum JsonValue {
    Null,
    Bool(bool),
    Number(Seq<char>),
    Text(Seq<char>),
    Array(Seq<JsonValue>),
    Object(Seq<(Seq<char>, JsonValue)>),
}

/// One step down into a JSON value.
#[derive(Debug, PartialEq, Eq)]
pub enum PathStep {
    /// Into the member of an object with this key.
    Key(String),
    /// Into the element of an array at this index.
    Index(usize),
}

/// The mathematical value of a [`PathStep`].
pub enum Step {
    Key(Seq<char>),
    Index(int),
}

impl View for PathStep {
    type V = Step;

    open spec fn view(&self) -> Step {
        match *self {
            PathStep::Key(k) => Step::Key(k@),
            PathStep::Index(i) => Step::Index(i as int),
        }
    }
}

/// The steps of a path as mathematical values.
pub open spec fn path_view(path: Seq<PathStep>) -> Seq<Step> {
    Seq::new(path.len(), |i: int| path[i]@)
}

/// A list of paths as mathematical values.
pub open spec fn paths_view(paths: Seq<Vec<PathStep>>) -> Seq<Seq<Step>> {
    Seq::new(paths.len(), |i: int| path_view(paths[i]@))
}

impl View for Json {
    type V = JsonValue;

    open spec fn view(&self) -> JsonValue {
        json_value(*self)
    }
}

/// The mathematical value of `j`.
pub open spec fn json_value(j: Json) -> JsonValue
    decreases j,
{
    match j {
        Json::Null => JsonValue::Null,
        Json::Bool(b) => JsonValue::Bool(b),
        Json::Number(n) => JsonValue::Number(n@),
        Json::Text(s) => JsonValue::Text(s@),
        Json::Array(items) => JsonValue::Array(items_view(items@)),
        Json::Object(members) => JsonValue::Object(members_view(members@)),
    }
}

/// The values of the elements of an array, in order.
pub open spec fn items_view(items: Seq<Json>) -> Seq<JsonValue>
    decreases items,
{
    if items.len() == 0 {
        Seq::empty()
    } else {
        items_view(items.drop_last()).push(json_value(items.last()))
    }
}

/// The keys and values of the members of an object, in order.
pub open spec fn members_view(members: Seq<(String, Json)>) -> Seq<(Seq<char>, JsonValue)>
    decreases members,
{
    if members.len() == 0 {
        Seq::empty()
    } else {
        members_view(members.drop_last()).push((members.last().0@, json_value(members.last().1)))
    }
}

/// The view of an array goes element by element.
pub proof fn lemma_items_view(items: Seq<Json>)
    ensures
        items_view(items).len() == items.len(),
        forall|i: int| 0 <= i < items.len() ==> (#[trigger] items_view(items)[i]) == items[i]@,
    decreases items.len(),
{
    if items.len() > 0 {
        lemma_items_view(items.drop_last());
    }
}

/// The view of an object goes member by member.
pub proof fn lemma_members_view(members: Seq<(String, Json)>)
    ensures
        members_view(members).len() == members.len(),
        forall|i: int|
            0 <= i < members.len() ==> (#[trigger] members_view(members)[i]) == (
                members[i].0@,
                members[i].1@,
            ),
    decreases members.len(),
{
    if members.len() > 0 {
        lemma_members_view(members.drop_last());
    }
}

/// The value of the first member with the key `key`.
pub open spec fn first_with_key(members: Seq<(Seq<char>, JsonValue)>, key: Seq<char>) -> Option<
    JsonValue,
>
    decreases members.len(),
{
    if members.len() == 0 {
        None
    } else if members[0].0 == key {
        Some(members[0].1)
    } else {
        first_with_key(members.drop_first(), key)
    }
}

impl JsonValue {
    /// The member of an object under `key`; `None` for a missing key and for
    /// any value that is no object.
    pub open spec fn member(self, key: Seq<char>) -> Option<JsonValue> {
        match self {
            JsonValue::Object(members) => first_with_key(members, key),
            _ => None,
        }
    }

    /// The element of an array at `index`; `None` past the end and for any
    /// value that is no array.
    pub open spec fn element(self, index: int) -> Option<JsonValue> {
        match self {
            JsonValue::Array(items) => if 0 <= index < items.len() {
                Some(items[index])
            } else {
                None
            },
            _ => None,
        }
    }

    /// The characters of a string value; `None` for any other value.
    pub open spec fn text(self) -> Option<Seq<char>> {
        match self {
            JsonValue::Text(s) => Some(s),
            _ => None,
        }
    }

    /// The elements of an array; `None` for any other value.
    pub open spec fn items(self) -> Option<Seq<JsonValue>> {
        match self {
            JsonValue::Array(items) => Some(items),
            _ => None,
        }
    }

    /// The string that is the member of an object under `key`; `None` where
    /// there is no such member or it is no string.
    pub open spec fn text_member(self, key: Seq<char>) -> Option<Seq<char>> {
        match self.member(key) {
            Some(m) => m.text(),
            None => None,
        }
    }

    /// One step down.
    pub open spec fn step(self, step: Step) -> Option<JsonValue> {
        match step {
            Step::Key(k) => self.member(k),
            Step::Index(i) => self.element(i),
        }
    }

    /// The value reached by following `path` from here.
    pub open spec fn lookup(self, path: Seq<Step>) -> Option<JsonValue>
        decreases path.len(),
    {
        if path.len() == 0 {
            Some(self)
        } else {
            match self.step(path[0]) {
                Some(next) => next.lookup(path.drop_first()),
                None => None,
            }
        }
    }

    /// The string found at `path`, if the path leads to a string.
    pub open spec fn text_at(self, path: Seq<Step>) -> Option<Seq<char>> {
        match self.lookup(path) {
            Some(v) => v.text(),
            None => None,
        }
    }

    /// The string found at the first of `paths` that leads to a string.
    pub open spec fn first_text(self, paths: Seq<Seq<Step>>) -> Option<Seq<char>>
        decreases paths.len(),
    {
        if paths.len() == 0 {
            None
        } else {
            match self.text_at(paths[0]) {
                Some(s) => Some(s),
                None => self.first_text(paths.drop_first()),
            }
        }
    }
}

/// `serde_json::Value`, carried through as it is.
#[verifier::external_type_specification]
#[verifier::external_body]
pub struct ExValue(serde_json::Value);

/// What `serde_json` reads out of a text: the value of the JSON document that
/// the text holds, or `None` where `serde_json` refuses the text.
pub uninterp spec fn json_of(text: Seq<char>) -> Option<JsonValue>;

/// What a `serde_json::Value` holds.
pub uninterp spec fn value_json(v: serde_json::Value) -> JsonValue;

/// `serde_json::from_str` at the type `serde_json::Value`, with its error
/// dropped. The result depends on the text alone: that is all the contract
/// claims, by giving the result a name.
#[verifier::external_body]
fn value_from_str(text: &str) -> (r: Option<serde_json::Value>)
    ensures
        r is Some <==> json_of(text@) is Some,
        r matches Some(v) ==> json_of(text@) == Some(value_json(v)),
{
    serde_json::from_str::<serde_json::Value>(text).ok()
}

/// Moves what a `serde_json::Value` holds into a [`Json`], variant by
/// variant: the members of a `serde_json::Map` in the order in which it hands
/// them out, a `serde_json::Number` as the text that its `to_string` gives.
/// The result depends on the value alone.
#[verifier::external_body]
fn json_from_value(v: serde_json::Value) -> (r: Json)
    ensures
        r@ == value_json(v),
{
    match v {
        serde_json::Value::Null => Json::Null,
        serde_json::Value::Bool(b) => Json::Bool(b),
        serde_json::Value::Number(n) => Json::Number(n.to_string()),
        serde_json::Value::String(s) => Json::Text(s),
        serde_json::Value::Array(a) => Json::Array(a.into_iter().map(json_from_value).collect()),
        serde_json::Value::Object(m) => Json::Object(
            m.into_iter().map(|(k, x)| (k, json_from_value(x))).collect(),
        ),
    }
}

impl Clone for PathStep {
    fn clone(&self) -> (r: PathStep)
        ensures
            r@ == self@,
    {
        match self {
            PathStep::Key(k) => PathStep::Key(k.clone()),
            PathStep::Index(i) => PathStep::Index(*i),
        }
    }
}

impl Clone for Json {
    fn clone(&self) -> (r: Json)
        ensures
            r@ == self@,
    {
        self.duplicate()
    }
}

/// Reads `text` as one JSON document.
pub fn parse(text: &str) -> (r: Option<Json>)
    ensures
        match r {
            Some(j) => json_of(text@) == Some(j@),
            None => json_of(text@) is None,
        },
{
    match value_from_str(text) {
        Some(v) => Some(json_from_value(v)),
        None => None,
    }
}

/// The JSON object that a text holds: what `serde_json` reads out of it,
/// where that is an object.
pub open spec fn object_of(text: Seq<char>) -> Option<JsonValue> {
    match json_of(text) {
        Some(JsonValue::Object(members)) => Some(JsonValue::Object(members)),
        _ => None,
    }
}

/// Reads `text` as one JSON object.
pub fn parse_object(text: &str) -> (r: Option<Json>)
    ensures
        match r {
            Some(j) => object_of(text@) == Some(j@),
            None => object_of(text@) is None,
        },
{
    match parse(text) {
        Some(Json::Object(members)) => Some(Json::Object(members)),
        _ => None,
    }
}

/// Whether `text` is one complete JSON object.
pub fn is_complete(text: &str) -> (b: bool)
    ensures
        b == object_of(text@).is_some(),
{
    parse_object(text).is_some()
}

impl Json {
    /// A string value holding the characters of `s`.
    pub fn text(s: &str) -> (r: Json)
        ensures
            r@ == JsonValue::Text(s@),
    {
        Json::Text(s.to_string())
    }

    /// A copy of the value.
    pub fn duplicate(&self) -> (r: Json)
        ensures
            r@ == self@,
        decreases self,
    {
        match self {
            Json::Null => Json::Null,
            Json::Bool(b) => Json::Bool(*b),
            Json::Number(n) => Json::Number(n.clone()),
            Json::Text(s) => Json::Text(s.clone()),
            Json::Array(items) => {
                let mut out: Vec<Json> = Vec::new();
                let mut i: usize = 0;
                while i < items.len()
                    invariant
                        i <= items.len(),
                        *self == Json::Array(*items),
                        out.len() == i,
                        forall|k: int| 0 <= k < i ==> (#[trigger] out[k])@ == items[k]@,
                    decreases items.len() - i,
                {
                    // The element is smaller than the array that holds it.
                    assert(decreases_to!(*self => self->Array_0));
                    assert(decreases_to!(*items => items[i as int]));
                    let copy = items[i].duplicate();
                    out.push(copy);
                    i += 1;
                }
                proof {
                    lemma_items_view(items@);
                    lemma_items_view(out@);
                    assert(items_view(out@) =~= items_view(items@));
                }
                Json::Array(out)
            },
            Json::Object(members) => {
                let mut out: Vec<(String, Json)> = Vec::new();
                let mut i: usize = 0;
                while i < members.len()
                    invariant
                        i <= members.len(),
                        *self == Json::Object(*members),
                        out.len() == i,
                        forall|k: int|
                            0 <= k < i ==> (#[trigger] out[k]).0@ == members[k].0@ && out[k].1@
                                == members[k].1@,
                    decreases members.len() - i,
                {
                    // The member is smaller than the object that holds it.
                    assert(decreases_to!(*self => self->Object_0));
                    assert(decreases_to!(*members => members[i as int]));
                    assert(decreases_to!(members[i as int] => members[i as int].1));
                    let copy = members[i].1.duplicate();
                    out.push((members[i].0.clone(), copy));
                    i += 1;
                }
                proof {
                    lemma_members_view(members@);
                    lemma_members_view(out@);
                    assert(members_view(out@) =~= members_view(members@));
                }
                Json::Object(out)
            },
        }
    }

    /// The member of an object under `key`.
    pub fn member(&self, key: &str) -> (r: Option<&Json>)
        ensures
            match r {
                Some(j) => self@.member(key@) == Some(j@),
                None => self@.member(key@) is None,
            },
    {
        match self {
            Json::Object(members) => {
                let ghost all = self@->Object_0;
                let mut i: usize = 0;
                proof {
                    lemma_members_view(members@);
                }
                assert(all.skip(0) =~= all);
                while i < members.len()
                    invariant
                        i <= members.len(),
                        all.len() == members.len(),
                        forall|j: int|
                            0 <= j < members.len() ==> all[j] == (
                                (#[trigger] members[j]).0@,
                                members[j].1@,
                            ),
                        self@.member(key@) == first_with_key(all.skip(i as int), key@),
                    decreases members.len() - i,
                {
                    assert(all.skip(i as int)[0] == all[i as int]);
                    if str_eq(members[i].0.as_str(), key) {
                        return Some(&members[i].1);
                    }
                    assert(all.skip(i as int).drop_first() =~= all.skip(i as int + 1));
                    i += 1;
                }
                None
            },
            _ => None,
        }
    }

    /// The element of an array at `index`.
    pub fn element(&self, index: usize) -> (r: Option<&Json>)
        ensures
            match r {
                Some(j) => self@.element(index as int) == Some(j@),
                None => self@.element(index as int) is None,
            },
    {
        match self {
            Json::Array(items) => {
                proof {
                    lemma_items_view(items@);
                }
                if index < items.len() {
                    Some(&items[index])
                } else {
                    None
                }
            },
            _ => None,
        }
    }

    /// The characters of a string value.
    pub fn as_text(&self) -> (r: Option<&str>)
        ensures
            match r {
                Some(s) => self@.text() == Some(s@),
                None => self@.text() is None,
            },
    {
        match self {
            Json::Text(s) => Some(s.as_str()),
            _ => None,
        }
    }

    /// The elements of an array.
    pub fn as_array(&self) -> (r: Option<&Vec<Json>>)
        ensures
            match r {
                Some(items) => self@.items() == Some(items_view(items@)),
                None => self@.items() is None,
            },
    {
        match self {
            Json::Array(items) => Some(items),
            _ => None,
        }
    }

    /// The string that is the member of an object under `key`.
    pub fn text_member(&self, key: &str) -> (r: Option<&str>)
        ensures
            match r {
                Some(s) => self@.text_member(key@) == Some(s@),
                None => self@.text_member(key@) is None,
            },
    {
        match self.member(key) {
            Some(m) => m.as_text(),
            None => None,
        }
    }

    /// One step down.
    pub fn step(&self, step: &PathStep) -> (r: Option<&Json>)
        ensures
            match r {
                Some(j) => self@.step(step@) == Some(j@),
                None => self@.step(step@) is None,
            },
    {
        match step {
            PathStep::Key(k) => self.member(k.as_str()),
            PathStep::Index(i) => self.element(*i),
        }
    }

    /// The value reached by following `path` from here.
    pub fn lookup(&self, path: &Vec<PathStep>) -> (r: Option<&Json>)
        ensures
            match r {
                Some(j) => self@.lookup(path_view(path@)) == Some(j@),
                None => self@.lookup(path_view(path@)) is None,
            },
    {
        let ghost steps = path_view(path@);
        let mut cur: &Json = self;
        let mut i: usize = 0;
        assert(steps.skip(0) =~= steps);
        while i < path.len()
            invariant
                i <= path.len(),
                steps == path_view(path@),
                self@.lookup(steps) == cur@.lookup(steps.skip(i as int)),
            decreases path.len() - i,
        {
            assert(steps.skip(i as int)[0] == path@[i as int]@);
            assert(steps.skip(i as int).drop_first() =~= steps.skip(i as int + 1));
            match cur.step(&path[i]) {
                Some(next) => {
                    cur = next;
                },
                None => {
                    return None;
                },
            }
            i += 1;
        }
        Some(cur)
    }

    /// The string found at `path`.
    pub fn text_at(&self, path: &Vec<PathStep>) -> (r: Option<&str>)
        ensures
            match r {
                Some(s) => self@.text_at(path_view(path@)) == Some(s@),
                None => self@.text_at(path_view(path@)) is None,
            },
    {
        match self.lookup(path) {
            Some(v) => v.as_text(),
            None => None,
        }
    }

    /// The string found at the first of `paths` that leads to a string.
    pub fn first_text(&self, paths: &Vec<Vec<PathStep>>) -> (r: Option<&str>)
        ensures
            match r {
                Some(s) => self@.first_text(paths_view(paths@)) == Some(s@),
                None => self@.first_text(paths_view(paths@)) is None,
            },
    {
        let ghost all = paths_view(paths@);
        let mut i: usize = 0;
        assert(all.skip(0) =~= all);
        while i < paths.len()
            invariant
                i <= paths.len(),
                all == paths_view(paths@),
                self@.first_text(all) == self@.first_text(all.skip(i as int)),
            decreases paths.len() - i,
        {
            assert(all.skip(i as int)[0] == path_view(paths@[i as int]@));
            assert(all.skip(i as int).drop_first() =~= all.skip(i as int + 1));
            match self.text_at(&paths[i]) {
                Some(s) => {
                    return Some(s);
                },
                None => {},
            }
            i += 1;
        }
        None
    }
}

} // verus!
