//! The schema decoder: strict decoding of a single JSON payload into the
//! normalized `Recipe` representation.
//!
//! JSON keys use the schema's fixed camelCase convention; the mapping to the
//! normalized field names is exact and case-sensitive.  A field absent from
//! the payload takes its declared default; a field present with an
//! incompatible shape is a hard failure at that field's path; the required
//! `name`, absent or empty, is a hard failure.  Fields are checked in
//! declaration order, and the first failure is reported.

use vstd::prelude::*;

use crate::duration::{duration_text, iso_duration_of, iso_duration_text, parse_duration, Duration};
use crate::error::{
    field_err, field_err_v, index_err, index_err_v, top_err, Cause, CauseV, DecodeError, ErrV,
};
use crate::json::{lookup, Json, JsonV};
use crate::json::{json_view, views_of};
use crate::uri::{parse_url, url_canon};
use crate::variant::{
    decode_instructions, decode_one_or_many_str, decode_str_items, first_non_str,
    instruction_strs, lemma_strings_of_to_seq, one_or_many_strs, str_items, Instructions,
    OneOrMany,
};

verus! {

/// The fields of a JSON object, viewed.
pub type FieldsV = Seq<(Seq<char>, JsonV)>;

/// The normalized recipe: constructed once, atomically, from a single JSON
/// payload, and immutable afterwards.
#[derive(Debug, Clone, PartialEq, Eq)]
pub struct Recipe {
    /// The required, non-empty name.
    pub name: String,
    /// The image URIs; the source gives one or many.
    pub image: Vec<String>,
    /// Optional free text.
    pub description: Option<String>,
    /// Free-text keywords; empty when absent from the source.
    pub keywords: Vec<String>,
    /// Cuisines; empty when absent from the source.
    pub recipe_cuisine: Vec<String>,
    /// Categories; empty when absent from the source.
    pub recipe_category: Vec<String>,
    /// Ingredient lines; empty when absent from the source.
    pub recipe_ingredient: Vec<String>,
    /// Flattened step texts; empty when absent from the source.
    pub recipe_instructions: Vec<String>,
    /// Optional cooking duration.
    pub cook_time: Option<Duration>,
    /// Optional preparation duration.
    pub prep_time: Option<Duration>,
    /// Optional total duration.
    pub total_time: Option<Duration>,
}

/// The mathematical shape of a normalized recipe.
#[verifier::ext_equal]
pub struct RecipeV {
    pub name: Seq<char>,
    pub image: Seq<Seq<char>>,
    pub description: Option<Seq<char>>,
    pub keywords: Seq<Seq<char>>,
    pub recipe_cuisine: Seq<Seq<char>>,
    pub recipe_category: Seq<Seq<char>>,
    pub recipe_ingredient: Seq<Seq<char>>,
    pub recipe_instructions: Seq<Seq<char>>,
    pub cook_time: Option<Duration>,
    pub prep_time: Option<Duration>,
    pub total_time: Option<Duration>,
}

impl View for Recipe {
    type V = RecipeV;

    open spec fn view(&self) -> RecipeV {
        RecipeV {
            name: self.name@,
            image: self.image.deep_view(),
            description: self.description.deep_view(),
            keywords: self.keywords.deep_view(),
            recipe_cuisine: self.recipe_cuisine.deep_view(),
            recipe_category: self.recipe_category.deep_view(),
            recipe_ingredient: self.recipe_ingredient.deep_view(),
            recipe_instructions: self.recipe_instructions.deep_view(),
            cook_time: self.cook_time,
            prep_time: self.prep_time,
            total_time: self.total_time,
        }
    }
}

/// Decoding the required `name`: present, text-valued and non-empty.
pub open spec fn name_field(fields: FieldsV) -> Result<Seq<char>, ErrV> {
    match lookup(fields, "name"@) {
        None => Err(field_err_v("name"@, CauseV::MissingField)),
        Some(JsonV::Str(s)) => if s.len() == 0 {
            Err(field_err_v("name"@, CauseV::EmptyName))
        } else {
            Ok(s)
        },
        Some(_) => Err(field_err_v("name"@, CauseV::WrongType)),
    }
}

/// The canonical forms of some URI texts, where every one parses as a URL;
/// nothing where some text does not.
pub open spec fn canon_urls(ss: Seq<Seq<char>>) -> Option<Seq<Seq<char>>> {
    if forall|i: int| 0 <= i < ss.len() ==> url_canon(ss[i]) is Some {
        Some(Seq::new(ss.len(), |i: int| url_canon(ss[i]).unwrap()))
    } else {
        None
    }
}

/// Decoding the required `image`: one URI text or a list of them, each a
/// parseable URL, kept in canonical form.
pub open spec fn image_field(fields: FieldsV) -> Result<Seq<Seq<char>>, ErrV> {
    match lookup(fields, "image"@) {
        None => Err(field_err_v("image"@, CauseV::MissingField)),
        Some(v) => match one_or_many_strs(v) {
            Some(ss) => match canon_urls(ss) {
                Some(cs) => Ok(cs),
                None => Err(field_err_v("image"@, CauseV::BadUrl)),
            },
            None => Err(field_err_v("image"@, CauseV::WrongType)),
        },
    }
}

/// Decoding the optional `description`: absent or null is `None`.
pub open spec fn description_field(fields: FieldsV) -> Result<Option<Seq<char>>, ErrV> {
    match lookup(fields, "description"@) {
        None => Ok(None),
        Some(JsonV::Null) => Ok(None),
        Some(JsonV::Str(s)) => Ok(Some(s)),
        Some(_) => Err(field_err_v("description"@, CauseV::WrongType)),
    }
}

/// Decoding an optional one-or-many text field: absent is the empty
/// sequence, never a failure.
pub open spec fn seq_field(fields: FieldsV, key: Seq<char>) -> Result<Seq<Seq<char>>, ErrV> {
    match lookup(fields, key) {
        None => Ok(Seq::empty()),
        Some(v) => match one_or_many_strs(v) {
            Some(ss) => Ok(ss),
            None => Err(field_err_v(key, CauseV::WrongType)),
        },
    }
}

/// Decoding the ingredient list: a list of texts, with the failing index in
/// the path when an element is not a text; absent is the empty sequence.
pub open spec fn ingredient_field(fields: FieldsV) -> Result<Seq<Seq<char>>, ErrV> {
    match lookup(fields, "recipeIngredient"@) {
        None => Ok(Seq::empty()),
        Some(JsonV::Arr(items)) => match str_items(items) {
            Some(ss) => Ok(ss),
            None => Err(
                index_err_v("recipeIngredient"@, first_non_str(items), CauseV::WrongType),
            ),
        },
        Some(_) => Err(field_err_v("recipeIngredient"@, CauseV::WrongType)),
    }
}

/// Decoding the instructions: any of the three shapes; absent is the empty
/// sequence.
pub open spec fn instructions_field(fields: FieldsV) -> Result<Seq<Seq<char>>, ErrV> {
    match lookup(fields, "recipeInstructions"@) {
        None => Ok(Seq::empty()),
        Some(v) => match instruction_strs(v) {
            Some(ss) => Ok(ss),
            None => Err(field_err_v("recipeInstructions"@, CauseV::WrongType)),
        },
    }
}

/// Decoding an optional duration field: absent or null is `None`; a text
/// that is not in the duration format fails at the field.
pub open spec fn duration_field(fields: FieldsV, key: Seq<char>) -> Result<
    Option<Duration>,
    ErrV,
> {
    match lookup(fields, key) {
        None => Ok(None),
        Some(JsonV::Null) => Ok(None),
        Some(JsonV::Str(s)) => match iso_duration_of(s) {
            Some(d) => Ok(Some(d)),
            None => Err(field_err_v(key, CauseV::BadDuration)),
        },
        Some(_) => Err(field_err_v(key, CauseV::WrongType)),
    }
}

/// Decoding a whole recipe object: the fields in declaration order, stopping
/// at the first failure.
pub open spec fn decode_obj(fields: FieldsV) -> Result<RecipeV, ErrV> {
    match name_field(fields) {
        Err(e) => Err(e),
        Ok(name) => match image_field(fields) {
            Err(e) => Err(e),
            Ok(image) => match description_field(fields) {
                Err(e) => Err(e),
                Ok(description) => match seq_field(fields, "keywords"@) {
                    Err(e) => Err(e),
                    Ok(keywords) => match seq_field(fields, "recipeCuisine"@) {
                        Err(e) => Err(e),
                        Ok(recipe_cuisine) => match seq_field(fields, "recipeCategory"@) {
                            Err(e) => Err(e),
                            Ok(recipe_category) => match ingredient_field(fields) {
                                Err(e) => Err(e),
                                Ok(recipe_ingredient) => match instructions_field(fields) {
                                    Err(e) => Err(e),
                                    Ok(recipe_instructions) => match duration_field(
                                        fields,
                                        "cookTime"@,
                                    ) {
                                        Err(e) => Err(e),
                                        Ok(cook_time) => match duration_field(
                                            fields,
                                            "prepTime"@,
                                        ) {
                                            Err(e) => Err(e),
                                            Ok(prep_time) => match duration_field(
                                                fields,
                                                "totalTime"@,
                                            ) {
                                                Err(e) => Err(e),
                                                Ok(total_time) => Ok(
                                                    RecipeV {
                                                        name,
                                                        image,
                                                        description,
                                                        keywords,
                                                        recipe_cuisine,
                                                        recipe_category,
                                                        recipe_ingredient,
                                                        recipe_instructions,
                                                        cook_time,
                                                        prep_time,
                                                        total_time,
                                                    },
                                                ),
                                            },
                                        },
                                    },
                                },
                            },
                        },
                    },
                },
            },
        },
    }
}

/// Decoding any JSON value as a recipe: anything but an object fails at the
/// whole payload.
pub open spec fn decode_recipe_v(v: JsonV) -> Result<RecipeV, ErrV> {
    match v {
        JsonV::Obj(fields) => decode_obj(fields),
        _ => Err(top_err(CauseV::WrongType)),
    }
}

/// What parsing a text as JSON yields: the value tree, or the parser's words
/// where the text is not well-formed JSON.
pub uninterp spec fn json_parse(s: Seq<char>) -> Result<JsonV, Seq<char>>;

/// Decoding one JSON text payload: parse, then decode the value tree; a
/// malformed payload fails with the parser's words and an empty path.
pub open spec fn decode_text(s: Seq<char>) -> Result<RecipeV, ErrV> {
    match json_parse(s) {
        Ok(v) => decode_recipe_v(v),
        Err(m) => Err(top_err(CauseV::Syntax(m))),
    }
}

/// Relies on `serde_json::Value` as the parsed JSON value tree.
#[verifier::external_type_specification]
#[verifier::external_body]
pub struct ExValue(serde_json::Value);

/// Relies on the variants of `serde_json::Value`: converts the parsed tree,
/// arm by arm, into the library's own tree.  Object fields come out in the
/// parser's map order with unique keys; a number keeps its rendered text.
#[verifier::external_body]
fn json_of_value(v: &serde_json::Value) -> Json {
    match v {
        serde_json::Value::Null => Json::Null,
        serde_json::Value::Bool(b) => Json::Bool(*b),
        serde_json::Value::Number(n) => Json::Num(n.to_string()),
        serde_json::Value::String(s) => Json::Str(s.clone()),
        serde_json::Value::Array(items) => Json::Arr(items.iter().map(json_of_value).collect()),
        serde_json::Value::Object(map) => Json::Obj(
            map.iter().map(|(k, w)| (k.clone(), json_of_value(w))).collect(),
        ),
    }
}

/// Relies on `serde_json::from_str` to parse JSON text; the result depends
/// on the text alone.  A failure carries the parser's message.  An object
/// holding a key twice parses, and keeps the last occurrence, as the
/// parser's map does.
#[verifier::external_body]
fn parse_json(s: &str) -> (r: Result<Json, String>)
    ensures
        match r {
            Ok(j) => json_parse(s@) == Ok::<JsonV, Seq<char>>(j@),
            Err(m) => json_parse(s@) == Err::<JsonV, Seq<char>>(m@),
        },
{
    match serde_json::from_str::<serde_json::Value>(s) {
        Ok(v) => Ok(json_of_value(&v)),
        Err(e) => Err(e.to_string()),
    }
}

fn name_field_exec(j: &Json) -> (r: Result<String, DecodeError>)
    requires
        j@ is Obj,
    ensures
        match r {
            Ok(s) => name_field(j@->Obj_0) == Ok::<Seq<char>, ErrV>(s@),
            Err(e) => name_field(j@->Obj_0) == Err::<Seq<char>, ErrV>(e@),
        },
{
    match j.get_field("name") {
        None => Err(field_err("name", Cause::MissingField)),
        Some(v) => match v {
            Json::Str(s) => {
                if s.as_str().is_empty() {
                    Err(field_err("name", Cause::EmptyName))
                } else {
                    Ok(s.clone())
                }
            },
            _ => {
                proof {
                    assert(!(v@ is Str));
                }
                Err(field_err("name", Cause::WrongType))
            },
        },
    }
}

/// Canonicalize each text as a URL, or report that some text is not one.
fn canon_urls_exec(vs: &Vec<String>) -> (r: Option<Vec<String>>)
    ensures
        match r {
            Some(cs) => canon_urls(vs.deep_view()) == Some(cs.deep_view()),
            None => canon_urls(vs.deep_view()) is None,
        },
{
    let ghost ss: Seq<Seq<char>> = vs.deep_view();
    let mut out: Vec<String> = Vec::new();
    let n = vs.len();
    for i in 0..n
        invariant
            n == vs.len(),
            ss == vs.deep_view(),
            out.len() == i,
            forall|k: int| 0 <= k < i ==> url_canon(ss[k]) is Some,
            forall|k: int| 0 <= k < i ==> out@[k]@ == url_canon(ss[k]).unwrap(),
    {
        proof {
            assert(ss[i as int] == vs@[i as int]@);
        }
        match parse_url(vs[i].as_str()) {
            Some(canon) => {
                out.push(canon);
            },
            None => {
                proof {
                    assert(url_canon(ss[i as int]) is None);
                }
                return None;
            },
        }
    }
    proof {
        assert(out.deep_view() =~= Seq::new(ss.len(), |i: int| url_canon(ss[i]).unwrap()));
    }
    Some(out)
}

fn image_field_exec(j: &Json) -> (r: Result<Vec<String>, DecodeError>)
    requires
        j@ is Obj,
    ensures
        match r {
            Ok(vs) => image_field(j@->Obj_0) == Ok::<Seq<Seq<char>>, ErrV>(vs.deep_view()),
            Err(e) => image_field(j@->Obj_0) == Err::<Seq<Seq<char>>, ErrV>(e@),
        },
{
    match j.get_field("image") {
        None => Err(field_err("image", Cause::MissingField)),
        Some(v) => match decode_one_or_many_str(v) {
            Some(om) => {
                let ghost om0: OneOrMany<String> = om;
                let w: Vec<String> = Vec::from(om);
                proof {
                    lemma_strings_of_to_seq(om0, w);
                }
                match canon_urls_exec(&w) {
                    Some(cs) => Ok(cs),
                    None => Err(field_err("image", Cause::BadUrl)),
                }
            },
            None => Err(field_err("image", Cause::WrongType)),
        },
    }
}

fn description_field_exec(j: &Json) -> (r: Result<Option<String>, DecodeError>)
    requires
        j@ is Obj,
    ensures
        match r {
            Ok(d) => description_field(j@->Obj_0) == Ok::<Option<Seq<char>>, ErrV>(d.deep_view()),
            Err(e) => description_field(j@->Obj_0) == Err::<Option<Seq<char>>, ErrV>(e@),
        },
{
    match j.get_field("description") {
        None => Ok(None),
        Some(v) => match v {
            Json::Null => Ok(None),
            Json::Str(s) => Ok(Some(s.clone())),
            _ => {
                proof {
                    assert(!(v@ is Str) && !(v@ is Null));
                }
                Err(field_err("description", Cause::WrongType))
            },
        },
    }
}

fn seq_field_exec(j: &Json, key: &str) -> (r: Result<Vec<String>, DecodeError>)
    requires
        j@ is Obj,
    ensures
        match r {
            Ok(vs) => seq_field(j@->Obj_0, key@) == Ok::<Seq<Seq<char>>, ErrV>(vs.deep_view()),
            Err(e) => seq_field(j@->Obj_0, key@) == Err::<Seq<Seq<char>>, ErrV>(e@),
        },
{
    match j.get_field(key) {
        None => {
            let w: Vec<String> = Vec::new();
            proof {
                assert(w.deep_view() =~= Seq::<Seq<char>>::empty());
            }
            Ok(w)
        },
        Some(v) => match decode_one_or_many_str(v) {
            Some(om) => {
                let ghost om0: OneOrMany<String> = om;
                let w: Vec<String> = Vec::from(om);
                proof {
                    lemma_strings_of_to_seq(om0, w);
                }
                Ok(w)
            },
            None => Err(field_err(key, Cause::WrongType)),
        },
    }
}

fn ingredient_field_exec(j: &Json) -> (r: Result<Vec<String>, DecodeError>)
    requires
        j@ is Obj,
    ensures
        match r {
            Ok(vs) => ingredient_field(j@->Obj_0) == Ok::<Seq<Seq<char>>, ErrV>(vs.deep_view()),
            Err(e) => ingredient_field(j@->Obj_0) == Err::<Seq<Seq<char>>, ErrV>(e@),
        },
{
    match j.get_field("recipeIngredient") {
        None => {
            let w: Vec<String> = Vec::new();
            proof {
                assert(w.deep_view() =~= Seq::<Seq<char>>::empty());
            }
            Ok(w)
        },
        Some(v) => match v {
            Json::Arr(items) => match decode_str_items(items) {
                Ok(vs) => Ok(vs),
                Err(i) => Err(index_err("recipeIngredient", i, Cause::WrongType)),
            },
            _ => {
                proof {
                    assert(!(v@ is Arr));
                }
                Err(field_err("recipeIngredient", Cause::WrongType))
            },
        },
    }
}

fn instructions_field_exec(j: &Json) -> (r: Result<Vec<String>, DecodeError>)
    requires
        j@ is Obj,
    ensures
        match r {
            Ok(vs) => instructions_field(j@->Obj_0) == Ok::<Seq<Seq<char>>, ErrV>(
                vs.deep_view(),
            ),
            Err(e) => instructions_field(j@->Obj_0) == Err::<Seq<Seq<char>>, ErrV>(e@),
        },
{
    match j.get_field("recipeInstructions") {
        None => {
            let w: Vec<String> = Vec::new();
            proof {
                assert(w.deep_view() =~= Seq::<Seq<char>>::empty());
            }
            Ok(w)
        },
        Some(v) => match decode_instructions(v) {
            Some(ins) => Ok(Vec::from(ins)),
            None => Err(field_err("recipeInstructions", Cause::WrongType)),
        },
    }
}

fn duration_field_exec(j: &Json, key: &str) -> (r: Result<Option<Duration>, DecodeError>)
    requires
        j@ is Obj,
    ensures
        match r {
            Ok(d) => duration_field(j@->Obj_0, key@) == Ok::<Option<Duration>, ErrV>(d),
            Err(e) => duration_field(j@->Obj_0, key@) == Err::<Option<Duration>, ErrV>(e@),
        },
{
    match j.get_field(key) {
        None => Ok(None),
        Some(v) => match v {
            Json::Null => Ok(None),
            Json::Str(s) => match parse_duration(s.as_str()) {
                Some(d) => Ok(Some(d)),
                None => Err(field_err(key, Cause::BadDuration)),
            },
            _ => {
                proof {
                    assert(!(v@ is Str) && !(v@ is Null));
                }
                Err(field_err(key, Cause::WrongType))
            },
        },
    }
}

impl Recipe {
    /// Decode one JSON value into a normalized recipe, or fail with the
    /// exact field path and underlying cause.
    pub fn from_json(j: &Json) -> (r: Result<Recipe, DecodeError>)
        ensures
            match r {
                Ok(rec) => decode_recipe_v(j@) == Ok::<RecipeV, ErrV>(rec@),
                Err(e) => decode_recipe_v(j@) == Err::<RecipeV, ErrV>(e@),
            },
    {
        match j {
            Json::Obj(_) => {},
            _ => {
                let e = DecodeError { path: Vec::new(), cause: Cause::WrongType };
                proof {
                    assert(e@ =~= top_err(CauseV::WrongType));
                }
                return Err(e);
            },
        }
        let name = match name_field_exec(j) {
            Ok(x) => x,
            Err(e) => return Err(e),
        };
        let image = match image_field_exec(j) {
            Ok(x) => x,
            Err(e) => return Err(e),
        };
        let description = match description_field_exec(j) {
            Ok(x) => x,
            Err(e) => return Err(e),
        };
        let keywords = match seq_field_exec(j, "keywords") {
            Ok(x) => x,
            Err(e) => return Err(e),
        };
        let recipe_cuisine = match seq_field_exec(j, "recipeCuisine") {
            Ok(x) => x,
            Err(e) => return Err(e),
        };
        let recipe_category = match seq_field_exec(j, "recipeCategory") {
            Ok(x) => x,
            Err(e) => return Err(e),
        };
        let recipe_ingredient = match ingredient_field_exec(j) {
            Ok(x) => x,
            Err(e) => return Err(e),
        };
        let recipe_instructions = match instructions_field_exec(j) {
            Ok(x) => x,
            Err(e) => return Err(e),
        };
        let cook_time = match duration_field_exec(j, "cookTime") {
            Ok(x) => x,
            Err(e) => return Err(e),
        };
        let prep_time = match duration_field_exec(j, "prepTime") {
            Ok(x) => x,
            Err(e) => return Err(e),
        };
        let total_time = match duration_field_exec(j, "totalTime") {
            Ok(x) => x,
            Err(e) => return Err(e),
        };
        let rec = Recipe {
            name,
            image,
            description,
            keywords,
            recipe_cuisine,
            recipe_category,
            recipe_ingredient,
            recipe_instructions,
            cook_time,
            prep_time,
            total_time,
        };
        proof {
            assert(decode_obj(j@->Obj_0) == Ok::<RecipeV, ErrV>(rec@));
        }
        Ok(rec)
    }

    /// Encode this recipe in the schema's JSON form.  Every field is
    /// emitted, in declaration order: an absent optional value as null, the
    /// normalized sequences as lists of texts, a duration as its rendered
    /// text.
    pub fn to_json(&self) -> (j: Json)
        ensures
            j@ == encode_recipe(self@),
    {
        let mut fields: Vec<(String, Json)> = Vec::new();
        fields.push(("name".to_owned(), Json::Str(self.name.clone())));
        proof {
            assert(fields@[0].0@ == "name"@ && json_view(fields@[0].1) == JsonV::Str(self.name@));
        }
        fields.push(("image".to_owned(), Json::Arr(strs_to_json_exec(&self.image))));
        proof {
            assert(fields@[1].0@ == "image"@ && json_view(fields@[1].1) == JsonV::Arr(
                strs_to_json(self@.image),
            ));
        }
        fields.push(("description".to_owned(), opt_text_json_exec(&self.description)));
        proof {
            assert(fields@[2].0@ == "description"@ && json_view(fields@[2].1) == opt_text_json(
                self@.description,
            ));
        }
        fields.push(("keywords".to_owned(), Json::Arr(strs_to_json_exec(&self.keywords))));
        proof {
            assert(fields@[3].0@ == "keywords"@ && json_view(fields@[3].1) == JsonV::Arr(
                strs_to_json(self@.keywords),
            ));
        }
        fields.push(
            ("recipeCuisine".to_owned(), Json::Arr(strs_to_json_exec(&self.recipe_cuisine))),
        );
        proof {
            assert(fields@[4].0@ == "recipeCuisine"@ && json_view(fields@[4].1) == JsonV::Arr(
                strs_to_json(self@.recipe_cuisine),
            ));
        }
        fields.push(
            ("recipeCategory".to_owned(), Json::Arr(strs_to_json_exec(&self.recipe_category))),
        );
        proof {
            assert(fields@[5].0@ == "recipeCategory"@ && json_view(fields@[5].1) == JsonV::Arr(
                strs_to_json(self@.recipe_category),
            ));
        }
        fields.push(
            (
                "recipeIngredient".to_owned(),
                Json::Arr(strs_to_json_exec(&self.recipe_ingredient)),
            ),
        );
        proof {
            assert(fields@[6].0@ == "recipeIngredient"@ && json_view(fields@[6].1) == JsonV::Arr(
                strs_to_json(self@.recipe_ingredient),
            ));
        }
        fields.push(
            (
                "recipeInstructions".to_owned(),
                Json::Arr(strs_to_json_exec(&self.recipe_instructions)),
            ),
        );
        proof {
            assert(fields@[7].0@ == "recipeInstructions"@ && json_view(fields@[7].1)
                == JsonV::Arr(strs_to_json(self@.recipe_instructions)));
        }
        fields.push(("cookTime".to_owned(), opt_duration_json_exec(&self.cook_time)));
        proof {
            assert(fields@[8].0@ == "cookTime"@ && json_view(fields@[8].1) == opt_duration_json(
                self@.cook_time,
            ));
        }
        fields.push(("prepTime".to_owned(), opt_duration_json_exec(&self.prep_time)));
        proof {
            assert(fields@[9].0@ == "prepTime"@ && json_view(fields@[9].1) == opt_duration_json(
                self@.prep_time,
            ));
        }
        fields.push(("totalTime".to_owned(), opt_duration_json_exec(&self.total_time)));
        proof {
            assert(fields@[10].0@ == "totalTime"@ && json_view(fields@[10].1)
                == opt_duration_json(self@.total_time));
        }
        let j = Json::Obj(fields);
        proof {
            assert(j@->Obj_0 =~= encode_fields(self@));
        }
        j
    }

    /// Decode one JSON text payload into a normalized recipe, or fail with a
    /// diagnostic carrying the exact field path and the underlying cause.
    pub fn from_str(s: &str) -> (r: Result<Recipe, DecodeError>)
        ensures
            match r {
                Ok(rec) => decode_text(s@) == Ok::<RecipeV, ErrV>(rec@),
                Err(e) => decode_text(s@) == Err::<RecipeV, ErrV>(e@),
            },
    {
        match parse_json(s) {
            Ok(j) => Recipe::from_json(&j),
            Err(m) => {
                let e = DecodeError { path: Vec::new(), cause: Cause::Syntax(m) };
                proof {
                    assert(e@ =~= top_err(e.cause@));
                }
                Err(e)
            },
        }
    }
}

/// Texts as a sequence of JSON texts.
pub open spec fn strs_to_json(ss: Seq<Seq<char>>) -> Seq<JsonV> {
    Seq::new(ss.len(), |i: int| JsonV::Str(ss[i]))
}

/// An optional text as JSON: null when absent.
pub open spec fn opt_text_json(d: Option<Seq<char>>) -> JsonV {
    match d {
        Some(s) => JsonV::Str(s),
        None => JsonV::Null,
    }
}

/// An optional duration as JSON: its rendered text, or null when absent.
pub open spec fn opt_duration_json(d: Option<Duration>) -> JsonV {
    match d {
        Some(x) => JsonV::Str(iso_duration_text(x)),
        None => JsonV::Null,
    }
}

/// The schema's JSON form of a normalized recipe: every field emitted in
/// declaration order.
pub open spec fn encode_fields(r: RecipeV) -> FieldsV {
    seq![
        ("name"@, JsonV::Str(r.name)),
        ("image"@, JsonV::Arr(strs_to_json(r.image))),
        ("description"@, opt_text_json(r.description)),
        ("keywords"@, JsonV::Arr(strs_to_json(r.keywords))),
        ("recipeCuisine"@, JsonV::Arr(strs_to_json(r.recipe_cuisine))),
        ("recipeCategory"@, JsonV::Arr(strs_to_json(r.recipe_category))),
        ("recipeIngredient"@, JsonV::Arr(strs_to_json(r.recipe_ingredient))),
        ("recipeInstructions"@, JsonV::Arr(strs_to_json(r.recipe_instructions))),
        ("cookTime"@, opt_duration_json(r.cook_time)),
        ("prepTime"@, opt_duration_json(r.prep_time)),
        ("totalTime"@, opt_duration_json(r.total_time)),
    ]
}

/// The schema's JSON form of a normalized recipe.
pub open spec fn encode_recipe(r: RecipeV) -> JsonV {
    JsonV::Obj(encode_fields(r))
}

fn strs_to_json_exec(ss: &Vec<String>) -> (r: Vec<Json>)
    ensures
        views_of(r@) == strs_to_json(ss.deep_view()),
{
    let mut out: Vec<Json> = Vec::new();
    let n = ss.len();
    for i in 0..n
        invariant
            n == ss.len(),
            out.len() == i,
            forall|k: int| 0 <= k < i ==> out@[k] == Json::Str(ss@[k]),
    {
        let text = ss[i].clone();
        out.push(Json::Str(text));
    }
    proof {
        assert(views_of(out@) =~= strs_to_json(ss.deep_view()));
    }
    out
}

fn opt_text_json_exec(d: &Option<String>) -> (r: Json)
    ensures
        r@ == opt_text_json(d.deep_view()),
{
    match d {
        Some(s) => Json::Str(s.clone()),
        None => Json::Null,
    }
}

fn opt_duration_json_exec(d: &Option<Duration>) -> (r: Json)
    ensures
        r@ == opt_duration_json(*d),
{
    match d {
        Some(x) => Json::Str(duration_text(x)),
        None => Json::Null,
    }
}

/// The schema's field keys are pairwise distinct texts.
proof fn lemma_keys_distinct()
    ensures
        "name"@ != "image"@,
        "name"@ != "description"@,
        "name"@ != "keywords"@,
        "name"@ != "recipeCuisine"@,
        "name"@ != "recipeCategory"@,
        "name"@ != "recipeIngredient"@,
        "name"@ != "recipeInstructions"@,
        "name"@ != "cookTime"@,
        "name"@ != "prepTime"@,
        "name"@ != "totalTime"@,
        "image"@ != "description"@,
        "image"@ != "keywords"@,
        "image"@ != "recipeCuisine"@,
        "image"@ != "recipeCategory"@,
        "image"@ != "recipeIngredient"@,
        "image"@ != "recipeInstructions"@,
        "image"@ != "cookTime"@,
        "image"@ != "prepTime"@,
        "image"@ != "totalTime"@,
        "description"@ != "keywords"@,
        "description"@ != "recipeCuisine"@,
        "description"@ != "recipeCategory"@,
        "description"@ != "recipeIngredient"@,
        "description"@ != "recipeInstructions"@,
        "description"@ != "cookTime"@,
        "description"@ != "prepTime"@,
        "description"@ != "totalTime"@,
        "keywords"@ != "recipeCuisine"@,
        "keywords"@ != "recipeCategory"@,
        "keywords"@ != "recipeIngredient"@,
        "keywords"@ != "recipeInstructions"@,
        "keywords"@ != "cookTime"@,
        "keywords"@ != "prepTime"@,
        "keywords"@ != "totalTime"@,
        "recipeCuisine"@ != "recipeCategory"@,
        "recipeCuisine"@ != "recipeIngredient"@,
        "recipeCuisine"@ != "recipeInstructions"@,
        "recipeCuisine"@ != "cookTime"@,
        "recipeCuisine"@ != "prepTime"@,
        "recipeCuisine"@ != "totalTime"@,
        "recipeCategory"@ != "recipeIngredient"@,
        "recipeCategory"@ != "recipeInstructions"@,
        "recipeCategory"@ != "cookTime"@,
        "recipeCategory"@ != "prepTime"@,
        "recipeCategory"@ != "totalTime"@,
        "recipeIngredient"@ != "recipeInstructions"@,
        "recipeIngredient"@ != "cookTime"@,
        "recipeIngredient"@ != "prepTime"@,
        "recipeIngredient"@ != "totalTime"@,
        "recipeInstructions"@ != "cookTime"@,
        "recipeInstructions"@ != "prepTime"@,
        "recipeInstructions"@ != "totalTime"@,
        "cookTime"@ != "prepTime"@,
        "cookTime"@ != "totalTime"@,
        "prepTime"@ != "totalTime"@,
{
    assert("name"@ != "image"@) by {
        reveal_strlit("name");
        reveal_strlit("image");
        assert("name"@.len() == 4);
        assert("image"@.len() == 5);
    }
    assert("name"@ != "description"@) by {
        reveal_strlit("name");
        reveal_strlit("description");
        assert("name"@.len() == 4);
        assert("description"@.len() == 11);
    }
    assert("name"@ != "keywords"@) by {
        reveal_strlit("name");
        reveal_strlit("keywords");
        assert("name"@.len() == 4);
        assert("keywords"@.len() == 8);
    }
    assert("name"@ != "recipeCuisine"@) by {
        reveal_strlit("name");
        reveal_strlit("recipeCuisine");
        assert("name"@.len() == 4);
        assert("recipeCuisine"@.len() == 13);
    }
    assert("name"@ != "recipeCategory"@) by {
        reveal_strlit("name");
        reveal_strlit("recipeCategory");
        assert("name"@.len() == 4);
        assert("recipeCategory"@.len() == 14);
    }
    assert("name"@ != "recipeIngredient"@) by {
        reveal_strlit("name");
        reveal_strlit("recipeIngredient");
        assert("name"@.len() == 4);
        assert("recipeIngredient"@.len() == 16);
    }
    assert("name"@ != "recipeInstructions"@) by {
        reveal_strlit("name");
        reveal_strlit("recipeInstructions");
        assert("name"@.len() == 4);
        assert("recipeInstructions"@.len() == 18);
    }
    assert("name"@ != "cookTime"@) by {
        reveal_strlit("name");
        reveal_strlit("cookTime");
        assert("name"@.len() == 4);
        assert("cookTime"@.len() == 8);
    }
    assert("name"@ != "prepTime"@) by {
        reveal_strlit("name");
        reveal_strlit("prepTime");
        assert("name"@.len() == 4);
        assert("prepTime"@.len() == 8);
    }
    assert("name"@ != "totalTime"@) by {
        reveal_strlit("name");
        reveal_strlit("totalTime");
        assert("name"@.len() == 4);
        assert("totalTime"@.len() == 9);
    }
    assert("image"@ != "description"@) by {
        reveal_strlit("image");
        reveal_strlit("description");
        assert("image"@.len() == 5);
        assert("description"@.len() == 11);
    }
    assert("image"@ != "keywords"@) by {
        reveal_strlit("image");
        reveal_strlit("keywords");
        assert("image"@.len() == 5);
        assert("keywords"@.len() == 8);
    }
    assert("image"@ != "recipeCuisine"@) by {
        reveal_strlit("image");
        reveal_strlit("recipeCuisine");
        assert("image"@.len() == 5);
        assert("recipeCuisine"@.len() == 13);
    }
    assert("image"@ != "recipeCategory"@) by {
        reveal_strlit("image");
        reveal_strlit("recipeCategory");
        assert("image"@.len() == 5);
        assert("recipeCategory"@.len() == 14);
    }
    assert("image"@ != "recipeIngredient"@) by {
        reveal_strlit("image");
        reveal_strlit("recipeIngredient");
        assert("image"@.len() == 5);
        assert("recipeIngredient"@.len() == 16);
    }
    assert("image"@ != "recipeInstructions"@) by {
        reveal_strlit("image");
        reveal_strlit("recipeInstructions");
        assert("image"@.len() == 5);
        assert("recipeInstructions"@.len() == 18);
    }
    assert("image"@ != "cookTime"@) by {
        reveal_strlit("image");
        reveal_strlit("cookTime");
        assert("image"@.len() == 5);
        assert("cookTime"@.len() == 8);
    }
    assert("image"@ != "prepTime"@) by {
        reveal_strlit("image");
        reveal_strlit("prepTime");
        assert("image"@.len() == 5);
        assert("prepTime"@.len() == 8);
    }
    assert("image"@ != "totalTime"@) by {
        reveal_strlit("image");
        reveal_strlit("totalTime");
        assert("image"@.len() == 5);
        assert("totalTime"@.len() == 9);
    }
    assert("description"@ != "keywords"@) by {
        reveal_strlit("description");
        reveal_strlit("keywords");
        assert("description"@.len() == 11);
        assert("keywords"@.len() == 8);
    }
    assert("description"@ != "recipeCuisine"@) by {
        reveal_strlit("description");
        reveal_strlit("recipeCuisine");
        assert("description"@.len() == 11);
        assert("recipeCuisine"@.len() == 13);
    }
    assert("description"@ != "recipeCategory"@) by {
        reveal_strlit("description");
        reveal_strlit("recipeCategory");
        assert("description"@.len() == 11);
        assert("recipeCategory"@.len() == 14);
    }
    assert("description"@ != "recipeIngredient"@) by {
        reveal_strlit("description");
        reveal_strlit("recipeIngredient");
        assert("description"@.len() == 11);
        assert("recipeIngredient"@.len() == 16);
    }
    assert("description"@ != "recipeInstructions"@) by {
        reveal_strlit("description");
        reveal_strlit("recipeInstructions");
        assert("description"@.len() == 11);
        assert("recipeInstructions"@.len() == 18);
    }
    assert("description"@ != "cookTime"@) by {
        reveal_strlit("description");
        reveal_strlit("cookTime");
        assert("description"@.len() == 11);
        assert("cookTime"@.len() == 8);
    }
    assert("description"@ != "prepTime"@) by {
        reveal_strlit("description");
        reveal_strlit("prepTime");
        assert("description"@.len() == 11);
        assert("prepTime"@.len() == 8);
    }
    assert("description"@ != "totalTime"@) by {
        reveal_strlit("description");
        reveal_strlit("totalTime");
        assert("description"@.len() == 11);
        assert("totalTime"@.len() == 9);
    }
    assert("keywords"@ != "recipeCuisine"@) by {
        reveal_strlit("keywords");
        reveal_strlit("recipeCuisine");
        assert("keywords"@.len() == 8);
        assert("recipeCuisine"@.len() == 13);
    }
    assert("keywords"@ != "recipeCategory"@) by {
        reveal_strlit("keywords");
        reveal_strlit("recipeCategory");
        assert("keywords"@.len() == 8);
        assert("recipeCategory"@.len() == 14);
    }
    assert("keywords"@ != "recipeIngredient"@) by {
        reveal_strlit("keywords");
        reveal_strlit("recipeIngredient");
        assert("keywords"@.len() == 8);
        assert("recipeIngredient"@.len() == 16);
    }
    assert("keywords"@ != "recipeInstructions"@) by {
        reveal_strlit("keywords");
        reveal_strlit("recipeInstructions");
        assert("keywords"@.len() == 8);
        assert("recipeInstructions"@.len() == 18);
    }
    assert("keywords"@ != "cookTime"@) by {
        reveal_strlit("keywords");
        reveal_strlit("cookTime");
        assert("keywords"@[0] == 'k');
        assert("cookTime"@[0] == 'c');
    }
    assert("keywords"@ != "prepTime"@) by {
        reveal_strlit("keywords");
        reveal_strlit("prepTime");
        assert("keywords"@[0] == 'k');
        assert("prepTime"@[0] == 'p');
    }
    assert("keywords"@ != "totalTime"@) by {
        reveal_strlit("keywords");
        reveal_strlit("totalTime");
        assert("keywords"@.len() == 8);
        assert("totalTime"@.len() == 9);
    }
    assert("recipeCuisine"@ != "recipeCategory"@) by {
        reveal_strlit("recipeCuisine");
        reveal_strlit("recipeCategory");
        assert("recipeCuisine"@.len() == 13);
        assert("recipeCategory"@.len() == 14);
    }
    assert("recipeCuisine"@ != "recipeIngredient"@) by {
        reveal_strlit("recipeCuisine");
        reveal_strlit("recipeIngredient");
        assert("recipeCuisine"@.len() == 13);
        assert("recipeIngredient"@.len() == 16);
    }
    assert("recipeCuisine"@ != "recipeInstructions"@) by {
        reveal_strlit("recipeCuisine");
        reveal_strlit("recipeInstructions");
        assert("recipeCuisine"@.len() == 13);
        assert("recipeInstructions"@.len() == 18);
    }
    assert("recipeCuisine"@ != "cookTime"@) by {
        reveal_strlit("recipeCuisine");
        reveal_strlit("cookTime");
        assert("recipeCuisine"@.len() == 13);
        assert("cookTime"@.len() == 8);
    }
    assert("recipeCuisine"@ != "prepTime"@) by {
        reveal_strlit("recipeCuisine");
        reveal_strlit("prepTime");
        assert("recipeCuisine"@.len() == 13);
        assert("prepTime"@.len() == 8);
    }
    assert("recipeCuisine"@ != "totalTime"@) by {
        reveal_strlit("recipeCuisine");
        reveal_strlit("totalTime");
        assert("recipeCuisine"@.len() == 13);
        assert("totalTime"@.len() == 9);
    }
    assert("recipeCategory"@ != "recipeIngredient"@) by {
        reveal_strlit("recipeCategory");
        reveal_strlit("recipeIngredient");
        assert("recipeCategory"@.len() == 14);
        assert("recipeIngredient"@.len() == 16);
    }
    assert("recipeCategory"@ != "recipeInstructions"@) by {
        reveal_strlit("recipeCategory");
        reveal_strlit("recipeInstructions");
        assert("recipeCategory"@.len() == 14);
        assert("recipeInstructions"@.len() == 18);
    }
    assert("recipeCategory"@ != "cookTime"@) by {
        reveal_strlit("recipeCategory");
        reveal_strlit("cookTime");
        assert("recipeCategory"@.len() == 14);
        assert("cookTime"@.len() == 8);
    }
    assert("recipeCategory"@ != "prepTime"@) by {
        reveal_strlit("recipeCategory");
        reveal_strlit("prepTime");
        assert("recipeCategory"@.len() == 14);
        assert("prepTime"@.len() == 8);
    }
    assert("recipeCategory"@ != "totalTime"@) by {
        reveal_strlit("recipeCategory");
        reveal_strlit("totalTime");
        assert("recipeCategory"@.len() == 14);
        assert("totalTime"@.len() == 9);
    }
    assert("recipeIngredient"@ != "recipeInstructions"@) by {
        reveal_strlit("recipeIngredient");
        reveal_strlit("recipeInstructions");
        assert("recipeIngredient"@.len() == 16);
        assert("recipeInstructions"@.len() == 18);
    }
    assert("recipeIngredient"@ != "cookTime"@) by {
        reveal_strlit("recipeIngredient");
        reveal_strlit("cookTime");
        assert("recipeIngredient"@.len() == 16);
        assert("cookTime"@.len() == 8);
    }
    assert("recipeIngredient"@ != "prepTime"@) by {
        reveal_strlit("recipeIngredient");
        reveal_strlit("prepTime");
        assert("recipeIngredient"@.len() == 16);
        assert("prepTime"@.len() == 8);
    }
    assert("recipeIngredient"@ != "totalTime"@) by {
        reveal_strlit("recipeIngredient");
        reveal_strlit("totalTime");
        assert("recipeIngredient"@.len() == 16);
        assert("totalTime"@.len() == 9);
    }
    assert("recipeInstructions"@ != "cookTime"@) by {
        reveal_strlit("recipeInstructions");
        reveal_strlit("cookTime");
        assert("recipeInstructions"@.len() == 18);
        assert("cookTime"@.len() == 8);
    }
    assert("recipeInstructions"@ != "prepTime"@) by {
        reveal_strlit("recipeInstructions");
        reveal_strlit("prepTime");
        assert("recipeInstructions"@.len() == 18);
        assert("prepTime"@.len() == 8);
    }
    assert("recipeInstructions"@ != "totalTime"@) by {
        reveal_strlit("recipeInstructions");
        reveal_strlit("totalTime");
        assert("recipeInstructions"@.len() == 18);
        assert("totalTime"@.len() == 9);
    }
    assert("cookTime"@ != "prepTime"@) by {
        reveal_strlit("cookTime");
        reveal_strlit("prepTime");
        assert("cookTime"@[0] == 'c');
        assert("prepTime"@[0] == 'p');
    }
    assert("cookTime"@ != "totalTime"@) by {
        reveal_strlit("cookTime");
        reveal_strlit("totalTime");
        assert("cookTime"@.len() == 8);
        assert("totalTime"@.len() == 9);
    }
    assert("prepTime"@ != "totalTime"@) by {
        reveal_strlit("prepTime");
        reveal_strlit("totalTime");
        assert("prepTime"@.len() == 8);
        assert("totalTime"@.len() == 9);
    }
}

/// Whether parsing the rendered text of an optional duration yields it
/// back.  Rendering and parsing are the duration crate's; the library names
/// their results but does not define them, so this is a stated hypothesis,
/// not a proved fact.
pub open spec fn duration_text_parses(d: Option<Duration>) -> bool {
    match d {
        Some(x) => iso_duration_of(iso_duration_text(x)) == Some(x),
        None => true,
    }
}

/// Whether each text is its own canonical URL form.  Canonicalization is
/// the url crate's, named but not defined here, so this too is a stated
/// hypothesis; a decoded recipe's image texts are canonical forms already.
pub open spec fn images_canonical(ss: Seq<Seq<char>>) -> bool {
    forall|i: int| 0 <= i < ss.len() ==> url_canon(ss[i]) == Some(ss[i])
}

/// Round trip: decoding the schema's JSON form of a valid normalized recipe
/// yields an equal recipe, modulo URI and duration text canonicalization —
/// exactly, wherever each image text is canonical and each present
/// duration's rendered text parses back to it.  Validity asks only what
/// the data model asks: a non-empty name.
pub proof fn lemma_round_trip(r: RecipeV)
    requires
        r.name.len() > 0,
    ensures
        images_canonical(r.image) && duration_text_parses(r.cook_time)
            && duration_text_parses(r.prep_time) && duration_text_parses(r.total_time)
            ==> decode_recipe_v(encode_recipe(r)) == Ok::<RecipeV, ErrV>(r),
{
    reveal_with_fuel(lookup, 12);
    lemma_keys_distinct();
    let fields = encode_fields(r);
    assert(lookup(fields, "name"@) == Some(JsonV::Str(r.name)));
    assert(lookup(fields, "image"@) == Some(JsonV::Arr(strs_to_json(r.image))));
    assert(lookup(fields, "description"@) == Some(opt_text_json(r.description)));
    assert(lookup(fields, "keywords"@) == Some(JsonV::Arr(strs_to_json(r.keywords))));
    assert(lookup(fields, "recipeCuisine"@) == Some(JsonV::Arr(strs_to_json(r.recipe_cuisine))));
    assert(lookup(fields, "recipeCategory"@) == Some(JsonV::Arr(strs_to_json(r.recipe_category))));
    assert(lookup(fields, "recipeIngredient"@) == Some(
        JsonV::Arr(strs_to_json(r.recipe_ingredient)),
    ));
    assert(lookup(fields, "recipeInstructions"@) == Some(
        JsonV::Arr(strs_to_json(r.recipe_instructions)),
    ));
    assert(lookup(fields, "cookTime"@) == Some(opt_duration_json(r.cook_time)));
    assert(lookup(fields, "prepTime"@) == Some(opt_duration_json(r.prep_time)));
    assert(lookup(fields, "totalTime"@) == Some(opt_duration_json(r.total_time)));
    lemma_list_decodes(r.image);
    lemma_list_decodes(r.keywords);
    lemma_list_decodes(r.recipe_cuisine);
    lemma_list_decodes(r.recipe_category);
    lemma_list_decodes(r.recipe_ingredient);
    lemma_list_decodes(r.recipe_instructions);
    assert(name_field(fields) == Ok::<Seq<char>, ErrV>(r.name));
    assert(description_field(fields) == Ok::<Option<Seq<char>>, ErrV>(r.description));
    assert(seq_field(fields, "keywords"@) == Ok::<Seq<Seq<char>>, ErrV>(r.keywords));
    assert(seq_field(fields, "recipeCuisine"@) == Ok::<Seq<Seq<char>>, ErrV>(r.recipe_cuisine));
    assert(seq_field(fields, "recipeCategory"@) == Ok::<Seq<Seq<char>>, ErrV>(r.recipe_category));
    assert(ingredient_field(fields) == Ok::<Seq<Seq<char>>, ErrV>(r.recipe_ingredient));
    assert(instructions_field(fields) == Ok::<Seq<Seq<char>>, ErrV>(r.recipe_instructions));
    if images_canonical(r.image) && duration_text_parses(r.cook_time)
        && duration_text_parses(r.prep_time) && duration_text_parses(r.total_time) {
        assert(canon_urls(r.image) matches Some(cs) && cs =~= r.image);
        assert(image_field(fields) == Ok::<Seq<Seq<char>>, ErrV>(r.image));
        assert(duration_field(fields, "cookTime"@) == Ok::<Option<Duration>, ErrV>(r.cook_time));
        assert(duration_field(fields, "prepTime"@) == Ok::<Option<Duration>, ErrV>(r.prep_time));
        assert(duration_field(fields, "totalTime"@) == Ok::<Option<Duration>, ErrV>(
            r.total_time,
        ));
        assert(decode_obj(fields) matches Ok(dec) && dec =~= r);
    }
}

/// The JSON list of some texts decodes back to exactly those texts, under
/// every shape that accepts a list of texts.
proof fn lemma_list_decodes(ss: Seq<Seq<char>>)
    ensures
        str_items(strs_to_json(ss)) == Some(ss),
        one_or_many_strs(JsonV::Arr(strs_to_json(ss))) == Some(ss),
        instruction_strs(JsonV::Arr(strs_to_json(ss))) == Some(ss),
{
    let items = strs_to_json(ss);
    assert(forall|i: int| 0 <= i < items.len() ==> items[i] is Str);
    assert(Seq::new(items.len(), |i: int| items[i]->Str_0) =~= ss);
}

/// Absence of an optional field is never a decode failure: each optional
/// array-like field of an object that lacks it decodes to the empty
/// sequence, an absent description or duration to nothing.
pub proof fn lemma_absent_fields_default(fields: FieldsV)
    ensures
        lookup(fields, "keywords"@) is None ==> seq_field(fields, "keywords"@) == Ok::<
            Seq<Seq<char>>,
            ErrV,
        >(Seq::empty()),
        lookup(fields, "recipeCuisine"@) is None ==> seq_field(fields, "recipeCuisine"@) == Ok::<
            Seq<Seq<char>>,
            ErrV,
        >(Seq::empty()),
        lookup(fields, "recipeCategory"@) is None ==> seq_field(fields, "recipeCategory"@) == Ok::<
            Seq<Seq<char>>,
            ErrV,
        >(Seq::empty()),
        lookup(fields, "recipeIngredient"@) is None ==> ingredient_field(fields) == Ok::<
            Seq<Seq<char>>,
            ErrV,
        >(Seq::empty()),
        lookup(fields, "recipeInstructions"@) is None ==> instructions_field(fields) == Ok::<
            Seq<Seq<char>>,
            ErrV,
        >(Seq::empty()),
        lookup(fields, "description"@) is None ==> description_field(fields) == Ok::<
            Option<Seq<char>>,
            ErrV,
        >(None),
        lookup(fields, "cookTime"@) is None ==> duration_field(fields, "cookTime"@) == Ok::<
            Option<Duration>,
            ErrV,
        >(None),
        lookup(fields, "prepTime"@) is None ==> duration_field(fields, "prepTime"@) == Ok::<
            Option<Duration>,
            ErrV,
        >(None),
        lookup(fields, "totalTime"@) is None ==> duration_field(fields, "totalTime"@) == Ok::<
            Option<Duration>,
            ErrV,
        >(None),
{
}

/// A payload without a `name` fails the whole decode at exactly the name's
/// path, whatever else it holds: the name is checked first.
pub proof fn lemma_missing_name(fields: FieldsV)
    requires
        lookup(fields, "name"@) is None,
    ensures
        decode_obj(fields) == Err::<RecipeV, ErrV>(field_err_v("name"@, CauseV::MissingField)),
{
}

/// A recipe object carrying a valid name and image and nothing else
/// decodes, with every optional field at its default: absence is never a
/// decode failure.
pub proof fn lemma_optional_fields_absent_ok(fields: FieldsV)
    requires
        name_field(fields) is Ok,
        image_field(fields) is Ok,
        lookup(fields, "description"@) is None,
        lookup(fields, "keywords"@) is None,
        lookup(fields, "recipeCuisine"@) is None,
        lookup(fields, "recipeCategory"@) is None,
        lookup(fields, "recipeIngredient"@) is None,
        lookup(fields, "recipeInstructions"@) is None,
        lookup(fields, "cookTime"@) is None,
        lookup(fields, "prepTime"@) is None,
        lookup(fields, "totalTime"@) is None,
    ensures
        decode_obj(fields) matches Ok(dec) && dec == (RecipeV {
            name: name_field(fields)->Ok_0,
            image: image_field(fields)->Ok_0,
            description: None,
            keywords: Seq::empty(),
            recipe_cuisine: Seq::empty(),
            recipe_category: Seq::empty(),
            recipe_ingredient: Seq::empty(),
            recipe_instructions: Seq::empty(),
            cook_time: None,
            prep_time: None,
            total_time: None,
        }),
{
}

/// A non-text element in the ingredient list fails the whole decode at
/// exactly the first such element's index, wherever the fields checked
/// before it decode.
pub proof fn lemma_bad_ingredient_index(fields: FieldsV, items: Seq<JsonV>)
    requires
        name_field(fields) is Ok,
        image_field(fields) is Ok,
        description_field(fields) is Ok,
        seq_field(fields, "keywords"@) is Ok,
        seq_field(fields, "recipeCuisine"@) is Ok,
        seq_field(fields, "recipeCategory"@) is Ok,
        lookup(fields, "recipeIngredient"@) == Some(JsonV::Arr(items)),
        str_items(items) is None,
    ensures
        decode_obj(fields) == Err::<RecipeV, ErrV>(
            index_err_v("recipeIngredient"@, first_non_str(items), CauseV::WrongType),
        ),
{
}

} // verus!
