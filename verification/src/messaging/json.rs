//! A plain model of JSON documents: what the actor reads from incoming
//! messages and what it writes into outgoing events.

use vstd::prelude::*;

verus! {

/// Abstract value of a [`JsonValue`].
pub enum JsonView {
    Null,
    Bool(bool),
    Number(Seq<char>),
    Str(Seq<char>),
    Array(Seq<JsonView>),
    Object(Seq<(Seq<char>, JsonView)>),
}

/// A JSON document. Numbers are kept in their decimal text form; an object
/// keeps its members in order.
#[derive(Debug)]
pub enum JsonValue {
    Null,
    Bool(bool),
    Number(String),
    Str(String),
    Array(Vec<JsonValue>),
    Object(Vec<(String, JsonValue)>),
}

impl JsonValue {
    /// The abstract value of this document.
    pub open spec fn view(self) -> JsonView
        decreases self,
    {
        match self {
            JsonValue::Null => JsonView::Null,
            JsonValue::Bool(b) => JsonView::Bool(b),
            JsonValue::Number(n) => JsonView::Number(n@),
            JsonValue::Str(s) => JsonView::Str(s@),
            JsonValue::Array(items) => JsonView::Array(
                Seq::new(
                    items@.len(),
                    |i: int|
                        if 0 <= i < items@.len() {
                            proof {
                                assert(decreases_to!(items => items@));
                                assert(decreases_to!(items@ => items@[i]));
                            }
                            items@[i].view()
                        } else {
                            JsonView::Null
                        },
                ),
            ),
            JsonValue::Object(fields) => JsonView::Object(
                Seq::new(
                    fields@.len(),
                    |i: int|
                        if 0 <= i < fields@.len() {
                            proof {
                                assert(decreases_to!(fields => fields@));
                                assert(decreases_to!(fields@ => fields@[i]));
                                assert(decreases_to!(fields@[i] => fields@[i].1));
                            }
                            (fields@[i].0@, fields@[i].1.view())
                        } else {
                            (Seq::empty(), JsonView::Null)
                        },
                ),
            ),
        }
    }
}

/// The value of the first member named `key` among `fields`.
pub open spec fn member_spec(fields: Seq<(Seq<char>, JsonView)>, key: Seq<char>) -> Option<JsonView>
    decreases fields.len(),
{
    if fields.len() == 0 {
        None
    } else if fields[0].0 == key {
        Some(fields[0].1)
    } else {
        member_spec(fields.drop_first(), key)
    }
}

/// `Value::get`: the member `key` of an object; nothing for other values.
pub open spec fn get_spec(v: JsonView, key: Seq<char>) -> Option<JsonView> {
    match v {
        JsonView::Object(fields) => member_spec(fields, key),
        _ => None,
    }
}

/// `Value::as_str`: the text of a string value.
pub open spec fn as_str_spec(v: Option<JsonView>) -> Option<Seq<char>> {
    match v {
        Some(JsonView::Str(s)) => Some(s),
        _ => None,
    }
}

/// The text of the string member `key`, if `v` is an object that has one.
pub open spec fn str_member_spec(v: JsonView, key: Seq<char>) -> Option<Seq<char>> {
    as_str_spec(get_spec(v, key))
}

/// The abstract value of an optional reference to a document.
pub open spec fn opt_json_view(o: Option<&JsonValue>) -> Option<JsonView> {
    match o {
        Some(v) => Some(v.view()),
        None => None,
    }
}

/// The abstract members of an object's member list.
pub open spec fn fields_view(fields: Seq<(String, JsonValue)>) -> Seq<(Seq<char>, JsonView)> {
    Seq::new(fields.len(), |i: int| (fields[i].0@, fields[i].1.view()))
}

/// The view of an object is the view of its members.
pub proof fn lemma_object_view(fields: Vec<(String, JsonValue)>)
    ensures
        JsonValue::Object(fields).view() == JsonView::Object(fields_view(fields@)),
{
    let v = JsonValue::Object(fields).view();
    match v {
        JsonView::Object(f) => {
            assert(f =~= fields_view(fields@));
        },
        _ => {},
    }
}

impl JsonValue {
    /// The member `key` of an object (the first one, should the name repeat).
    pub fn get(&self, key: &str) -> (r: Option<&JsonValue>)
        ensures
            opt_json_view(r) == get_spec(self.view(), key@),
    {
        match self {
            JsonValue::Object(fields) => {
                let ghost fv = fields_view(fields@);
                proof {
                    lemma_object_view(*fields);
                }
                let mut i: usize = 0;
                proof {
                    assert(fv.skip(0) =~= fv);
                }
                while i < fields.len()
                    invariant
                        fv == fields_view(fields@),
                        self.view() == JsonView::Object(fv),
                        i <= fields.len(),
                        member_spec(fv, key@) == member_spec(fv.skip(i as int), key@),
                    decreases fields.len() - i,
                {
                    proof {
                        assert(fv.skip(i as int).drop_first() =~= fv.skip(i + 1));
                        assert(fv.skip(i as int)[0] == fv[i as int]);
                    }
                    if fields[i].0.eq(&String::from_str(key)) {
                        return Some(&fields[i].1);
                    }
                    i = i + 1;
                }
                None
            },
            _ => None,
        }
    }

    /// The text of a string value.
    pub fn as_str(&self) -> (r: Option<&String>)
        ensures
            match r {
                Some(s) => self.view() == JsonView::Str(s@),
                None => !(self.view() is Str),
            },
    {
        match self {
            JsonValue::Str(s) => Some(s),
            _ => None,
        }
    }

    /// The text of the string member `key`, copied out.
    pub fn str_member(&self, key: &str) -> (r: Option<String>)
        ensures
            match r {
                Some(s) => str_member_spec(self.view(), key@) == Some(s@),
                None => str_member_spec(self.view(), key@).is_none(),
            },
    {
        match self.get(key) {
            Some(v) => match v.as_str() {
                Some(s) => Some(s.clone()),
                None => None,
            },
            None => None,
        }
    }

    /// A string value.
    pub fn text(s: &str) -> (r: JsonValue)
        ensures
            r.view() == JsonView::Str(s@),
    {
        JsonValue::Str(String::from_str(s))
    }

    /// An object with the given members.
    pub fn object(fields: Vec<(String, JsonValue)>) -> (r: JsonValue)
        ensures
            r.view() == JsonView::Object(fields_view(fields@)),
    {
        let r = JsonValue::Object(fields);
        proof {
            lemma_object_view(fields);
        }
        r
    }
}

} // verus!
