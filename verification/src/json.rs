//! A modeled JSON value tree.
//!
//! Schema decoding is defined over this tree.  Object fields keep their
//! document order; a tree obtained from a parsed JSON text has unique keys
//! per object (a JSON parser's object representation is a map).  Numbers
//! carry their literal text: the recipe schema rejects a number wherever one
//! appears, so nothing ever reads the numeric value.

use vstd::prelude::*;

verus! {

/// An owned JSON value.
#[derive(Debug)]
pub enum Json {
    Null,
    Bool(bool),
    Num(String),
    Str(String),
    Arr(Vec<Json>),
    Obj(Vec<(String, Json)>),
}

/// The mathematical shape of a JSON value: what `Json` means in contracts.
pub enum JsonV {
    Null,
    Bool(bool),
    Num(Seq<char>),
    Str(Seq<char>),
    Arr(Seq<JsonV>),
    Obj(Seq<(Seq<char>, JsonV)>),
}

/// The view of one JSON value.
pub open spec fn json_view(j: Json) -> JsonV
    decreases j,
{
    match j {
        Json::Null => JsonV::Null,
        Json::Bool(b) => JsonV::Bool(b),
        Json::Num(s) => JsonV::Num(s@),
        Json::Str(s) => JsonV::Str(s@),
        Json::Arr(items) => JsonV::Arr(views_of(items@)),
        Json::Obj(fields) => JsonV::Obj(fields_view(fields@)),
    }
}

/// The views of the elements of a JSON array.
pub open spec fn views_of(items: Seq<Json>) -> Seq<JsonV>
    decreases items,
{
    Seq::new(
        items.len(),
        |i: int|
            if 0 <= i < items.len() {
                json_view(items[i])
            } else {
                JsonV::Null
            },
    )
}

/// The views of the fields of a JSON object.
pub open spec fn fields_view(fields: Seq<(String, Json)>) -> Seq<(Seq<char>, JsonV)>
    decreases fields,
{
    Seq::new(
        fields.len(),
        |i: int|
            if 0 <= i < fields.len() {
                (fields[i].0@, json_view(fields[i].1))
            } else {
                (Seq::empty(), JsonV::Null)
            },
    )
}

impl View for Json {
    type V = JsonV;

    open spec fn view(&self) -> JsonV {
        json_view(*self)
    }
}

/// The value of the first field named `key`, if any.
pub open spec fn lookup(fields: Seq<(Seq<char>, JsonV)>, key: Seq<char>) -> Option<JsonV>
    decreases fields.len(),
{
    if fields.len() == 0 {
        None
    } else if fields[0].0 == key {
        Some(fields[0].1)
    } else {
        lookup(fields.skip(1), key)
    }
}

proof fn lemma_lookup_hit(fields: Seq<(Seq<char>, JsonV)>, key: Seq<char>, i: int)
    requires
        0 <= i < fields.len(),
        forall|k: int| 0 <= k < i ==> fields[k].0 != key,
        fields[i].0 == key,
    ensures
        lookup(fields, key) == Some(fields[i].1),
    decreases i,
{
    if i > 0 {
        lemma_lookup_hit(fields.skip(1), key, i - 1);
    }
}

proof fn lemma_lookup_miss(fields: Seq<(Seq<char>, JsonV)>, key: Seq<char>)
    requires
        forall|k: int| 0 <= k < fields.len() ==> fields[k].0 != key,
    ensures
        lookup(fields, key) is None,
    decreases fields.len(),
{
    if fields.len() > 0 {
        lemma_lookup_miss(fields.skip(1), key);
    }
}

impl Json {
    /// The value of the field named `key` of a JSON object, if any.
    pub fn get_field<'a>(&'a self, key: &str) -> (r: Option<&'a Json>)
        requires
            self@ is Obj,
        ensures
            match r {
                Some(v) => lookup(self@->Obj_0, key@) == Some(v@),
                None => lookup(self@->Obj_0, key@) is None,
            },
    {
        let wanted: String = key.to_owned();
        match self {
            Json::Obj(fields) => {
                let n = fields.len();
                for i in 0..n
                    invariant
                        n == fields.len(),
                        self@->Obj_0 == fields_view(fields@),
                        wanted@ == key@,
                        forall|k: int| 0 <= k < i ==> fields_view(fields@)[k].0 != key@,
                {
                    if fields[i].0 == wanted {
                        proof {
                            lemma_lookup_hit(fields_view(fields@), key@, i as int);
                        }
                        return Some(&fields[i].1);
                    }
                    proof {
                        assert(fields_view(fields@)[i as int].0 == fields@[i as int].0@);
                    }
                }
                proof {
                    lemma_lookup_miss(fields_view(fields@), key@);
                }
                None
            },
            _ => None,
        }
    }
}

} // verus!
