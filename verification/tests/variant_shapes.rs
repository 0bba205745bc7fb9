use kitchen::variant::{decode_instructions, decode_one_or_many_str};
use kitchen::{Instructions, Json, OneOrMany, Recipe};

#[test]
fn one_or_many_scalar_normalizes_to_singleton() {
    let v = Json::Str("Goulash".to_owned());
    let om = decode_one_or_many_str(&v).unwrap();
    let seq: Vec<String> = Vec::from(om);
    assert_eq!(seq, vec!["Goulash".to_owned()]);
}

#[test]
fn one_or_many_list_normalizes_unchanged() {
    let v = Json::Arr(vec![Json::Str("a".to_owned()), Json::Str("b".to_owned())]);
    let om = decode_one_or_many_str(&v).unwrap();
    let seq: Vec<String> = Vec::from(om);
    assert_eq!(seq, vec!["a".to_owned(), "b".to_owned()]);
}

#[test]
fn one_or_many_rejects_a_number() {
    assert!(decode_one_or_many_str(&Json::Num("5".to_owned())).is_none());
}

#[test]
fn one_or_many_default_is_empty() {
    let om: OneOrMany<String> = Default::default();
    let seq: Vec<String> = Vec::from(om);
    assert_eq!(seq, Vec::<String>::new());
}

#[test]
fn instructions_three_shapes_agree() {
    let single = Json::Str("Stir".to_owned());
    let list = Json::Arr(vec![Json::Str("Stir".to_owned())]);
    let steps = Json::Arr(vec![Json::Obj(vec![(
        "text".to_owned(),
        Json::Str("Stir".to_owned()),
    )])]);
    let from_single: Vec<String> = Vec::from(decode_instructions(&single).unwrap());
    let from_list: Vec<String> = Vec::from(decode_instructions(&list).unwrap());
    let from_steps: Vec<String> = Vec::from(decode_instructions(&steps).unwrap());
    assert_eq!(from_single, vec!["Stir".to_owned()]);
    assert_eq!(from_single, from_list);
    assert_eq!(from_list, from_steps);
}

#[test]
fn instructions_default_is_empty() {
    let ins: Instructions = Default::default();
    let seq: Vec<String> = Vec::from(ins);
    assert_eq!(seq, Vec::<String>::new());
}

#[test]
fn empty_list_normalizes_to_empty_sequence() {
    let v = Json::Arr(vec![]);
    let from_om: Vec<String> = Vec::from(decode_one_or_many_str(&v).unwrap());
    let from_ins: Vec<String> = Vec::from(decode_instructions(&v).unwrap());
    assert_eq!(from_om, Vec::<String>::new());
    assert_eq!(from_ins, Vec::<String>::new());
}

#[test]
fn instructions_reject_a_mixed_list() {
    let mixed = Json::Arr(vec![
        Json::Str("Stir".to_owned()),
        Json::Obj(vec![("text".to_owned(), Json::Str("Chop".to_owned()))]),
    ]);
    assert!(decode_instructions(&mixed).is_none());
}

#[test]
fn instructions_step_without_text_rejected() {
    let steps = Json::Arr(vec![Json::Obj(vec![(
        "name".to_owned(),
        Json::Str("Stir".to_owned()),
    )])]);
    assert!(decode_instructions(&steps).is_none());
}

#[test]
fn instruction_shapes_decode_within_a_recipe() {
    let single = Recipe::from_str(
        "{\"name\":\"Tea\",\"image\":[],\"recipeInstructions\":\"Boil water\"}",
    )
    .unwrap();
    assert_eq!(single.recipe_instructions, vec!["Boil water".to_owned()]);

    let steps = Recipe::from_str(
        "{\"name\":\"Tea\",\"image\":[],\
         \"recipeInstructions\":[{\"text\":\"Boil\"},{\"text\":\"Steep\"}]}",
    )
    .unwrap();
    assert_eq!(
        steps.recipe_instructions,
        vec!["Boil".to_owned(), "Steep".to_owned()]
    );
}
