//! The variant field decoder: reconciliation of the schema's "one-or-many"
//! and "instructions" shapes into normalized sequences.
//!
//! A one-or-many field accepts either a single value or a list of values;
//! instructions additionally accept a list of step objects, each carrying a
//! `text` field.  The shapes are tried in a fixed order: single value, list
//! of values, list of step objects.  An empty list matches the list-of-values
//! shape and normalizes to the empty sequence, so the ambiguity between the
//! two list shapes carries no information.

use vstd::prelude::*;

use crate::json::{lookup, views_of, Json, JsonV};

verus! {

/// A field value that is either a single `T` or a list of `T`.
#[derive(Debug, Clone)]
pub enum OneOrMany<T> {
    One(T),
    Many(Vec<T>),
}

/// The instructions of a recipe in any of their three source shapes: a
/// single text, a list of texts, or a list of steps.
#[derive(Debug, Clone)]
pub enum Instructions {
    One(String),
    Many(Vec<String>),
    HowToSteps(Vec<HowToStep>),
}

/// One instruction step object; only its `text` is read.
#[derive(Debug, Clone)]
pub struct HowToStep {
    pub text: String,
}

impl<T> OneOrMany<T> {
    /// The normalized sequence: `[v]` for the single case, the list itself
    /// for the many case.
    pub open spec fn to_seq(self) -> Seq<T> {
        match self {
            OneOrMany::One(v) => seq![v],
            OneOrMany::Many(vs) => vs@,
        }
    }
}

impl OneOrMany<String> {
    /// The normalized sequence of texts.
    pub open spec fn strings(self) -> Seq<Seq<char>> {
        match self {
            OneOrMany::One(s) => seq![s@],
            OneOrMany::Many(vs) => vs.deep_view(),
        }
    }
}

impl Instructions {
    /// The normalized sequence of step texts: the singleton, the list, or
    /// the `text` of each step.
    pub open spec fn strings(self) -> Seq<Seq<char>> {
        match self {
            Instructions::One(s) => seq![s@],
            Instructions::Many(vs) => vs.deep_view(),
            Instructions::HowToSteps(steps) => Seq::new(steps@.len(), |i: int| steps@[i].text@),
        }
    }
}

impl<T> Default for OneOrMany<T> {
    /// The default when the field is absent: an empty sequence, not a
    /// one-element sequence.
    fn default() -> (r: Self)
        ensures
            r.to_seq() == Seq::<T>::empty(),
    {
        let vs: Vec<T> = Vec::new();
        proof {
            assert(vs@ =~= Seq::<T>::empty());
        }
        OneOrMany::Many(vs)
    }
}

impl Default for Instructions {
    /// The default when the field is absent: an empty sequence of steps.
    fn default() -> (r: Self)
        ensures
            r.strings() == Seq::<Seq<char>>::empty(),
    {
        let vs: Vec<String> = Vec::new();
        proof {
            assert(vs.deep_view() =~= Seq::<Seq<char>>::empty());
        }
        Instructions::Many(vs)
    }
}

impl<T> vstd::std_specs::convert::FromSpecImpl<OneOrMany<T>> for Vec<T> {
    open spec fn obeys_from_spec() -> bool {
        false
    }

    open spec fn from_spec(v: OneOrMany<T>) -> Vec<T> {
        arbitrary()
    }
}

impl<T> From<OneOrMany<T>> for Vec<T> {
    /// Normalizing conversion to a plain ordered sequence.
    fn from(value: OneOrMany<T>) -> (r: Vec<T>)
        ensures
            r@ == value.to_seq(),
    {
        match value {
            OneOrMany::One(v) => {
                let mut out: Vec<T> = Vec::new();
                out.push(v);
                proof {
                    assert(out@ =~= OneOrMany::One(out@[0]).to_seq());
                }
                out
            },
            OneOrMany::Many(vs) => vs,
        }
    }
}

impl vstd::std_specs::convert::FromSpecImpl<Instructions> for Vec<String> {
    open spec fn obeys_from_spec() -> bool {
        false
    }

    open spec fn from_spec(v: Instructions) -> Vec<String> {
        arbitrary()
    }
}

impl From<Instructions> for Vec<String> {
    /// Normalizing conversion to the flat sequence of step texts.
    fn from(value: Instructions) -> (r: Vec<String>)
        ensures
            r.deep_view() == value.strings(),
    {
        match value {
            Instructions::One(s) => {
                let mut out: Vec<String> = Vec::new();
                out.push(s);
                proof {
                    assert(out.deep_view() =~= Instructions::One(out[0]).strings());
                }
                out
            },
            Instructions::Many(vs) => vs,
            Instructions::HowToSteps(steps) => {
                let ghost want: Seq<Seq<char>> = Instructions::HowToSteps(steps).strings();
                let mut out: Vec<String> = Vec::new();
                let n = steps.len();
                for i in 0..n
                    invariant
                        n == steps.len(),
                        out.len() == i,
                        want == Seq::new(steps@.len(), |k: int| steps@[k].text@),
                        forall|k: int| 0 <= k < i ==> out.deep_view()[k] == want[k],
                {
                    let text = steps[i].text.clone();
                    out.push(text);
                }
                proof {
                    assert(out.deep_view() =~= want);
                }
                out
            },
        }
    }
}

/// A vector holding a normalized one-or-many value element for element
/// carries the same sequence of texts.
pub proof fn lemma_strings_of_to_seq(om: OneOrMany<String>, w: Vec<String>)
    requires
        w@ == om.to_seq(),
    ensures
        w.deep_view() == om.strings(),
{
    match om {
        OneOrMany::One(s) => {
            assert(w.deep_view() =~= seq![s@]);
        },
        OneOrMany::Many(vs) => {
            assert(w.deep_view() =~= vs.deep_view());
        },
    }
}

/// The texts of a list of JSON values, where every value is a text;
/// `None` where some value is not.
pub open spec fn str_items(items: Seq<JsonV>) -> Option<Seq<Seq<char>>> {
    if forall|i: int| 0 <= i < items.len() ==> items[i] is Str {
        Some(Seq::new(items.len(), |i: int| items[i]->Str_0))
    } else {
        None
    }
}

/// The least index of a list element that is not a text (the list's length
/// where every element is one).
pub open spec fn first_non_str(items: Seq<JsonV>) -> int
    decreases items.len(),
{
    if items.len() == 0 {
        0
    } else if !(items[0] is Str) {
        0
    } else {
        1 + first_non_str(items.skip(1))
    }
}

proof fn lemma_first_non_str(items: Seq<JsonV>, i: int)
    requires
        0 <= i < items.len(),
        forall|k: int| 0 <= k < i ==> items[k] is Str,
        !(items[i] is Str),
    ensures
        first_non_str(items) == i,
    decreases i,
{
    if i > 0 {
        lemma_first_non_str(items.skip(1), i - 1);
    }
}

/// Decoding a one-or-many text field: a single text yields its singleton,
/// a list of texts yields the list itself; any other shape is rejected.
pub open spec fn one_or_many_strs(v: JsonV) -> Option<Seq<Seq<char>>> {
    match v {
        JsonV::Str(s) => Some(seq![s]),
        JsonV::Arr(items) => str_items(items),
        _ => None,
    }
}

/// The `text` of a step object; `None` where the value is not an object
/// carrying a text-valued `text` field.
pub open spec fn step_text(v: JsonV) -> Option<Seq<char>> {
    match v {
        JsonV::Obj(fields) => match lookup(fields, "text"@) {
            Some(JsonV::Str(s)) => Some(s),
            _ => None,
        },
        _ => None,
    }
}

/// The texts of a list of step objects; `None` where some element is not a
/// step object.
pub open spec fn step_items(items: Seq<JsonV>) -> Option<Seq<Seq<char>>> {
    if forall|i: int| 0 <= i < items.len() ==> step_text(items[i]) is Some {
        Some(Seq::new(items.len(), |i: int| step_text(items[i]).unwrap()))
    } else {
        None
    }
}

/// Decoding an instructions field: a single text, then a list of texts,
/// then a list of step objects; any other shape is rejected.
pub open spec fn instruction_strs(v: JsonV) -> Option<Seq<Seq<char>>> {
    match v {
        JsonV::Str(s) => Some(seq![s]),
        JsonV::Arr(items) => if str_items(items) is Some {
            str_items(items)
        } else {
            step_items(items)
        },
        _ => None,
    }
}

/// Decode the elements of a JSON array as texts, or report the first index
/// at which an element is not a text.
pub fn decode_str_items(items: &Vec<Json>) -> (r: Result<Vec<String>, usize>)
    ensures
        match r {
            Ok(vs) => str_items(views_of(items@)) == Some(vs.deep_view()),
            Err(i) => {
                &&& str_items(views_of(items@)) is None
                &&& i == first_non_str(views_of(items@))
                &&& i < items@.len()
            },
        },
{
    let ghost vs: Seq<JsonV> = views_of(items@);
    let mut out: Vec<String> = Vec::new();
    let n = items.len();
    for i in 0..n
        invariant
            n == items.len(),
            vs == views_of(items@),
            out.len() == i,
            forall|k: int| 0 <= k < i ==> vs[k] is Str,
            forall|k: int| 0 <= k < i ==> out@[k]@ == vs[k]->Str_0,
    {
        match &items[i] {
            Json::Str(s) => {
                let text = s.clone();
                out.push(text);
            },
            _ => {
                proof {
                    lemma_first_non_str(vs, i as int);
                    assert(!(vs[i as int] is Str));
                }
                return Err(i);
            },
        }
    }
    proof {
        assert(out.deep_view() =~= Seq::new(vs.len(), |i: int| vs[i]->Str_0));
    }
    Ok(out)
}

/// Decode a JSON value shaped as one text or a list of texts.
pub fn decode_one_or_many_str(v: &Json) -> (r: Option<OneOrMany<String>>)
    ensures
        match r {
            Some(om) => one_or_many_strs(v@) == Some(om.strings()),
            None => one_or_many_strs(v@) is None,
        },
{
    match v {
        Json::Str(s) => Some(OneOrMany::One(s.clone())),
        Json::Arr(items) => match decode_str_items(items) {
            Ok(vs) => Some(OneOrMany::Many(vs)),
            Err(_) => None,
        },
        _ => None,
    }
}

/// Decode the elements of a JSON array as step objects.
fn decode_steps(items: &Vec<Json>) -> (r: Option<Vec<HowToStep>>)
    ensures
        match r {
            Some(steps) => step_items(views_of(items@)) == Some(
                Seq::new(steps@.len(), |i: int| steps@[i].text@),
            ),
            None => step_items(views_of(items@)) is None,
        },
{
    let ghost vs: Seq<JsonV> = views_of(items@);
    let mut out: Vec<HowToStep> = Vec::new();
    let n = items.len();
    for i in 0..n
        invariant
            n == items.len(),
            vs == views_of(items@),
            out.len() == i,
            forall|k: int| 0 <= k < i ==> step_text(vs[k]) is Some,
            forall|k: int| 0 <= k < i ==> out@[k].text@ == step_text(vs[k]).unwrap(),
    {
        let item = &items[i];
        match item {
            Json::Obj(_) => {
                match item.get_field("text") {
                    Some(found) => match found {
                        Json::Str(s) => {
                            let text = s.clone();
                            out.push(HowToStep { text });
                        },
                        _ => {
                            proof {
                                assert(!(found@ is Str));
                                assert(step_text(vs[i as int]) is None);
                            }
                            return None;
                        },
                    },
                    None => {
                        proof {
                            assert(step_text(vs[i as int]) is None);
                        }
                        return None;
                    },
                }
            },
            _ => {
                proof {
                    assert(!(vs[i as int] is Obj));
                    assert(step_text(vs[i as int]) is None);
                }
                return None;
            },
        }
    }
    proof {
        assert(Seq::new(out@.len(), |i: int| out@[i].text@) =~= Seq::new(
            vs.len(),
            |i: int| step_text(vs[i]).unwrap(),
        ));
    }
    Some(out)
}

/// Decode a JSON value shaped as instructions: one text, a list of texts,
/// or a list of step objects.
pub fn decode_instructions(v: &Json) -> (r: Option<Instructions>)
    ensures
        match r {
            Some(ins) => instruction_strs(v@) == Some(ins.strings()),
            None => instruction_strs(v@) is None,
        },
{
    match v {
        Json::Str(s) => Some(Instructions::One(s.clone())),
        Json::Arr(items) => match decode_str_items(items) {
            Ok(vs) => Some(Instructions::Many(vs)),
            Err(_) => match decode_steps(items) {
                Some(steps) => Some(Instructions::HowToSteps(steps)),
                None => None,
            },
        },
        _ => None,
    }
}

/// A single text normalizes to its one-element sequence, under the
/// one-or-many shapes.
pub proof fn lemma_one_or_many_single(s: Seq<char>)
    ensures
        one_or_many_strs(JsonV::Str(s)) == Some(seq![s]),
{
}

/// A list of texts normalizes to exactly those texts, unchanged and in
/// order, under the one-or-many shapes.
pub proof fn lemma_one_or_many_list(items: Seq<JsonV>)
    requires
        forall|i: int| 0 <= i < items.len() ==> items[i] is Str,
    ensures
        one_or_many_strs(JsonV::Arr(items)) == Some(
            Seq::new(items.len(), |i: int| items[i]->Str_0),
        ),
{
}

/// A single text normalizes to its one-element sequence, under the
/// instructions shapes.
pub proof fn lemma_instructions_single(s: Seq<char>)
    ensures
        instruction_strs(JsonV::Str(s)) == Some(seq![s]),
{
}

/// A list of texts normalizes to exactly those texts, under the
/// instructions shapes.
pub proof fn lemma_instructions_list(items: Seq<JsonV>)
    requires
        forall|i: int| 0 <= i < items.len() ==> items[i] is Str,
    ensures
        instruction_strs(JsonV::Arr(items)) == Some(
            Seq::new(items.len(), |i: int| items[i]->Str_0),
        ),
{
}

/// A list of step objects normalizes to the flat sequence of their `text`
/// values: the same result as a plain list of those texts.
pub proof fn lemma_instructions_steps(items: Seq<JsonV>)
    requires
        forall|i: int| 0 <= i < items.len() ==> step_text(items[i]) is Some,
    ensures
        instruction_strs(JsonV::Arr(items)) == Some(
            Seq::new(items.len(), |i: int| step_text(items[i]).unwrap()),
        ),
{
    if items.len() == 0 {
        assert(str_items(items) == Some(Seq::new(items.len(), |i: int| items[i]->Str_0)));
        assert(Seq::new(items.len(), |i: int| items[i]->Str_0) =~= Seq::new(
            items.len(),
            |i: int| step_text(items[i]).unwrap(),
        ));
    } else {
        assert(step_text(items[0]) is Some);
        assert(!(items[0] is Str));
        assert(str_items(items) is None);
    }
}

} // verus!
