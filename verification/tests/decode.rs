use kitchen::{Cause, Duration, PathSeg, Recipe};

fn goulash_json() -> String {
    "{\"name\":\"Goulash\",\
     \"image\":\"https://example.com/g.jpg\",\
     \"keywords\":\"Goulash\",\
     \"recipeCuisine\":[\"Europe\",\"Hungary\"],\
     \"recipeIngredient\":[\"Beef\",\"Onion\",\"Paprika\"],\
     \"totalTime\":\"P0DT2H40M\"}"
        .to_owned()
}

#[test]
fn test_from_str() {
    let payload = "{\"name\":\"Goulash\",\
        \"image\":\"https://upload.wikimedia.org/wikipedia/commons/thumb/4/49/Gulasch.jpg/1024px-Gulasch.jpg\",\
        \"keywords\":\"Goulash\",\
        \"recipeCuisine\":[\"Europe\",\"Hungary\"],\
        \"recipeIngredient\":[\"Beef\",\"Onion\",\"Paprika\"],\
        \"totalTime\":\"P0DT2H40M\"}";
    assert!(Recipe::from_str(payload).is_ok());
}

#[test]
fn goulash_decodes_exactly() {
    let recipe = Recipe::from_str(&goulash_json()).unwrap();
    assert_eq!(recipe.name, "Goulash");
    assert_eq!(recipe.image, vec!["https://example.com/g.jpg".to_owned()]);
    assert_eq!(recipe.description, None);
    assert_eq!(recipe.keywords, vec!["Goulash".to_owned()]);
    assert_eq!(recipe.recipe_cuisine, vec!["Europe".to_owned(), "Hungary".to_owned()]);
    assert_eq!(recipe.recipe_category, Vec::<String>::new());
    assert_eq!(
        recipe.recipe_ingredient,
        vec!["Beef".to_owned(), "Onion".to_owned(), "Paprika".to_owned()]
    );
    assert_eq!(recipe.recipe_instructions, Vec::<String>::new());
    assert_eq!(recipe.cook_time, None);
    assert_eq!(recipe.prep_time, None);
    assert_eq!(
        recipe.total_time,
        Some(Duration::YmdHms {
            year: 0,
            month: 0,
            day: 0,
            hour: 2,
            minute: 40,
            second: 0,
            millisecond: 0,
        })
    );
}

#[test]
fn missing_name_fails_at_name() {
    let err = Recipe::from_str("{\"image\":\"https://example.com/g.jpg\"}").unwrap_err();
    assert_eq!(err.path, vec![PathSeg::Field("name".to_owned())]);
    assert_eq!(err.cause, Cause::MissingField);
}

#[test]
fn empty_name_fails_at_name() {
    let err =
        Recipe::from_str("{\"name\":\"\",\"image\":\"https://example.com/g.jpg\"}").unwrap_err();
    assert_eq!(err.path, vec![PathSeg::Field("name".to_owned())]);
    assert_eq!(err.cause, Cause::EmptyName);
}

#[test]
fn numeric_name_fails_at_name() {
    let err =
        Recipe::from_str("{\"name\":7,\"image\":\"https://example.com/g.jpg\"}").unwrap_err();
    assert_eq!(err.path, vec![PathSeg::Field("name".to_owned())]);
    assert_eq!(err.cause, Cause::WrongType);
}

#[test]
fn unparseable_image_url_fails_at_image() {
    let err = Recipe::from_str("{\"name\":\"Goulash\",\"image\":\":::\"}").unwrap_err();
    assert_eq!(err.path, vec![PathSeg::Field("image".to_owned())]);
    assert_eq!(err.cause, Cause::BadUrl);

    let err = Recipe::from_str(
        "{\"name\":\"Goulash\",\"image\":[\"https://example.com/g.jpg\",\"not a url\"]}",
    )
    .unwrap_err();
    assert_eq!(err.path, vec![PathSeg::Field("image".to_owned())]);
    assert_eq!(err.cause, Cause::BadUrl);
}

#[test]
fn image_urls_are_canonicalized() {
    let recipe =
        Recipe::from_str("{\"name\":\"Goulash\",\"image\":\"HTTPS://EXAMPLE.COM/Dish.jpg\"}")
            .unwrap();
    assert_eq!(recipe.image, vec!["https://example.com/Dish.jpg".to_owned()]);
}

#[test]
fn missing_image_fails_at_image() {
    let err = Recipe::from_str("{\"name\":\"Goulash\"}").unwrap_err();
    assert_eq!(err.path, vec![PathSeg::Field("image".to_owned())]);
    assert_eq!(err.cause, Cause::MissingField);
}

#[test]
fn non_string_ingredient_fails_at_its_index() {
    let err = Recipe::from_str(
        "{\"name\":\"Goulash\",\"image\":\"https://example.com/g.jpg\",\
         \"recipeIngredient\":[\"Beef\",2,\"Paprika\"]}",
    )
    .unwrap_err();
    assert_eq!(
        err.path,
        vec![PathSeg::Field("recipeIngredient".to_owned()), PathSeg::At(1)]
    );
    assert_eq!(err.cause, Cause::WrongType);
}

#[test]
fn malformed_json_fails_with_empty_path() {
    let err = Recipe::from_str("{\"name\": \"Goul").unwrap_err();
    assert_eq!(err.path, Vec::new());
    assert!(matches!(err.cause, Cause::Syntax(_)));
}

#[test]
fn bad_duration_fails_at_its_field() {
    let err = Recipe::from_str(
        "{\"name\":\"Goulash\",\"image\":\"https://example.com/g.jpg\",\
         \"cookTime\":\"twenty minutes\"}",
    )
    .unwrap_err();
    assert_eq!(err.path, vec![PathSeg::Field("cookTime".to_owned())]);
    assert_eq!(err.cause, Cause::BadDuration);
}

#[test]
fn non_object_payload_fails_with_empty_path() {
    let err = Recipe::from_str("[1,2,3]").unwrap_err();
    assert_eq!(err.path, Vec::new());
    assert_eq!(err.cause, Cause::WrongType);
}

#[test]
fn missing_optional_fields_default_to_empty() {
    let recipe =
        Recipe::from_str("{\"name\":\"Tea\",\"image\":[\"https://example.com/t.jpg\"]}").unwrap();
    assert_eq!(recipe.keywords, Vec::<String>::new());
    assert_eq!(recipe.recipe_cuisine, Vec::<String>::new());
    assert_eq!(recipe.recipe_category, Vec::<String>::new());
    assert_eq!(recipe.recipe_ingredient, Vec::<String>::new());
    assert_eq!(recipe.recipe_instructions, Vec::<String>::new());
    assert_eq!(recipe.description, None);
    assert_eq!(recipe.cook_time, None);
    assert_eq!(recipe.prep_time, None);
    assert_eq!(recipe.total_time, None);
}

#[test]
fn null_description_and_durations_decode_to_none() {
    let recipe = Recipe::from_str(
        "{\"name\":\"Tea\",\"image\":[],\"description\":null,\"cookTime\":null}",
    )
    .unwrap();
    assert_eq!(recipe.description, None);
    assert_eq!(recipe.cook_time, None);
    assert_eq!(recipe.image, Vec::<String>::new());
}

#[test]
fn round_trip_preserves_recipe() {
    let recipe = Recipe::from_str(&goulash_json()).unwrap();
    let encoded = recipe.to_json();
    let again = Recipe::from_json(&encoded).unwrap();
    assert_eq!(recipe, again);
}

#[test]
fn round_trip_preserves_instructions_and_durations() {
    let recipe = Recipe::from_str(
        "{\"name\":\"Stew\",\"image\":[\"https://example.com/s.jpg\"],\
         \"description\":\"hearty\",\
         \"recipeInstructions\":[{\"text\":\"Chop\"},{\"text\":\"Simmer\"}],\
         \"cookTime\":\"PT1H30M\",\"prepTime\":\"P1W\",\"totalTime\":\"P1DT2H3M4S\"}",
    )
    .unwrap();
    assert_eq!(
        recipe.recipe_instructions,
        vec!["Chop".to_owned(), "Simmer".to_owned()]
    );
    assert_eq!(recipe.prep_time, Some(Duration::Weeks(1)));
    assert_eq!(recipe.description, Some("hearty".to_owned()));
    let encoded = recipe.to_json();
    let again = Recipe::from_json(&encoded).unwrap();
    assert_eq!(recipe, again);
}
