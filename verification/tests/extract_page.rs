use kitchen::{Error, Recipe};

fn page_with(blocks: &[&str]) -> String {
    let mut html = String::from("<html><head>");
    for block in blocks {
        html.push_str("<script type=\"application/ld+json\">");
        html.push_str(block);
        html.push_str("</script>");
    }
    html.push_str("</head><body><p>hello</p></body></html>");
    html
}

const GOULASH: &str = "{\"name\":\"Goulash\",\"image\":\"https://example.com/g.jpg\",\
    \"recipeIngredient\":[\"Beef\",\"Onion\"]}";

#[test]
fn first_decodable_block_wins_with_one_diagnostic() {
    let html = page_with(&["{not json", GOULASH]);
    let (found, diags) = Recipe::from_html(&html).unwrap();
    let recipe = found.unwrap();
    assert_eq!(recipe.name, "Goulash");
    assert_eq!(diags.len(), 1);
    assert_eq!(diags[0].path, Vec::new());
}

#[test]
fn later_blocks_are_not_examined_after_a_hit() {
    let html = page_with(&[GOULASH, "{not json"]);
    let (found, diags) = Recipe::from_html(&html).unwrap();
    assert_eq!(found.unwrap().name, "Goulash");
    assert_eq!(diags.len(), 0);
}

#[test]
fn zero_blocks_is_no_recipe_found_not_an_error() {
    let html = String::from("<html><body><script>var x = 1;</script></body></html>");
    let (found, diags) = Recipe::from_html(&html).unwrap();
    assert!(found.is_none());
    assert!(diags.is_empty());
}

#[test]
fn all_blocks_failing_is_no_recipe_found_with_diagnostics() {
    let html = page_with(&["{\"name\":\"NoImage\"}", "[]"]);
    let (found, diags) = Recipe::from_html(&html).unwrap();
    assert!(found.is_none());
    assert_eq!(diags.len(), 2);
}

#[test]
fn entity_escaped_block_decodes() {
    let escaped = "{&quot;name&quot;:&quot;Goulash&quot;,\
        &quot;image&quot;:&quot;https://example.com/g.jpg&quot;}";
    let html = page_with(&[escaped]);
    let (found, _diags) = Recipe::from_html(&html).unwrap();
    assert_eq!(found.unwrap().name, "Goulash");
}

#[test]
fn page_bytes_decode_like_the_text() {
    let html = page_with(&[GOULASH]);
    let (found, diags) = Recipe::from_html_bytes(html.as_bytes()).unwrap();
    assert_eq!(found.unwrap().name, "Goulash");
    assert!(diags.is_empty());
}

#[test]
fn invalid_utf8_is_an_encoding_error() {
    let bytes: Vec<u8> = vec![0x3c, 0xff, 0xfe, 0x3e];
    let err = Recipe::from_html_bytes(&bytes).unwrap_err();
    assert_eq!(err, Error::Utf8);
}
