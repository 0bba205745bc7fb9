//! The page extractor: given the raw text or bytes of one web page, find
//! every embedded structured-data script block, decode HTML entities, and
//! try the schema decoder on each block in document order.  The first block
//! that decodes wins; the diagnostics of the blocks tried before it are
//! reported alongside.  A page without a decodable block yields no recipe —
//! an absence, distinguished from the hard failures below.

use vstd::prelude::*;

use crate::error::{DecodeError, ErrV};
use crate::recipe::{decode_text, Recipe, RecipeV};

verus! {

/// A hard failure of a page extraction attempt.  A transport failure on the
/// way to the page belongs to the caller that fetches; a page where no block
/// decodes is an absence, not an error.
#[derive(Debug, Clone, PartialEq, Eq)]
pub enum Error {
    /// The page bytes are not valid UTF-8.
    Utf8,
    /// The fixed structured-data selector failed to compile: a defect of
    /// this library, never expected at runtime; carries the compiler's
    /// words.
    Selector(String),
}

/// What decoding bytes as UTF-8 yields: the text, or nothing where the
/// bytes are not valid UTF-8.
pub uninterp spec fn utf8_text(bytes: Seq<u8>) -> Option<Seq<char>>;

/// Relies on `String::from_utf8`, which returns the decoded text exactly
/// when the bytes are valid UTF-8.
#[verifier::external_body]
fn utf8_string(bytes: &[u8]) -> (r: Option<String>)
    ensures
        match r {
            Some(s) => utf8_text(bytes@) == Some(s@),
            None => utf8_text(bytes@) is None,
        },
{
    match String::from_utf8(bytes.to_vec()) {
        Ok(s) => Some(s),
        Err(_) => None,
    }
}

/// What decoding the HTML entities of a text yields.
pub uninterp spec fn html_unescaped(s: Seq<char>) -> Seq<char>;

/// Relies on `html_escape::decode_html_entities`; the result depends on the
/// text alone.
#[verifier::external_body]
fn decode_entities(s: &str) -> (r: String)
    ensures
        r@ == html_unescaped(s@),
{
    html_escape::decode_html_entities(s).into_owned()
}

/// The inner texts of an HTML document's structured-data script blocks, in
/// document order.
pub uninterp spec fn script_blocks(doc: Seq<char>) -> Seq<Seq<char>>;

/// Relies on `scraper`: `Html::parse_document` to parse the document tree,
/// `Selector::parse` to compile the fixed structured-data selector,
/// `Html::select` and `ElementRef::inner_html` to list the matching script
/// elements' inner texts in document order.  The result depends on the
/// document text alone.  The fixed selector is a plain attribute selector
/// that the selector grammar accepts, so compiling it succeeds and the call
/// returns the blocks; the error arm guards only against a defect of this
/// library.
#[verifier::external_body]
fn select_script_blocks(doc: &str) -> (r: Result<Vec<String>, String>)
    ensures
        r is Ok,
        r matches Ok(blocks) ==> blocks.deep_view() == script_blocks(doc@),
{
    let document = scraper::Html::parse_document(doc);
    let selector = match scraper::Selector::parse("script[type=\"application/ld+json\"]") {
        Ok(sel) => sel,
        Err(err) => return Err(err.to_string()),
    };
    Ok(document.select(&selector).map(|element| element.inner_html()).collect())
}

/// The outcome of trying candidate blocks in order: the first recipe that
/// decodes, if any, and the diagnostics of every block tried before it.
pub open spec fn scan_result(blocks: Seq<Seq<char>>) -> (Option<RecipeV>, Seq<ErrV>)
    decreases blocks.len(),
{
    if blocks.len() == 0 {
        (None, Seq::empty())
    } else {
        match decode_text(blocks[0]) {
            Ok(rec) => (Some(rec), Seq::empty()),
            Err(e) => {
                let rest = scan_result(blocks.skip(1));
                (rest.0, seq![e] + rest.1)
            },
        }
    }
}

proof fn lemma_scan_prefix(blocks: Seq<Seq<char>>, i: int)
    requires
        0 <= i <= blocks.len(),
        forall|k: int| 0 <= k < i ==> decode_text(blocks[k]) is Err,
    ensures
        scan_result(blocks).0 == scan_result(blocks.skip(i)).0,
        scan_result(blocks).1 == Seq::new(i as nat, |k: int| decode_text(blocks[k])->Err_0)
            + scan_result(blocks.skip(i)).1,
    decreases i,
{
    if i == 0 {
        assert(blocks.skip(0) =~= blocks);
        assert(Seq::new(0, |k: int| decode_text(blocks[k])->Err_0) =~= Seq::<ErrV>::empty());
        assert(scan_result(blocks).1 =~= Seq::new(0, |k: int| decode_text(blocks[k])->Err_0)
            + scan_result(blocks).1);
    } else {
        let rest = blocks.skip(1);
        lemma_scan_prefix(rest, i - 1);
        assert(rest.skip(i - 1) =~= blocks.skip(i));
        assert(decode_text(blocks[0]) is Err);
        assert(seq![decode_text(blocks[0])->Err_0] + Seq::new(
            (i - 1) as nat,
            |k: int| decode_text(rest[k])->Err_0,
        ) =~= Seq::new(i as nat, |k: int| decode_text(blocks[k])->Err_0));
        assert(scan_result(blocks).1 =~= Seq::new(i as nat, |k: int| decode_text(blocks[k])->Err_0)
            + scan_result(blocks.skip(i)).1);
    }
}

/// First match wins: where every block before `i` fails to decode and block
/// `i` decodes, the scan yields block `i`'s recipe, with one diagnostic per
/// failed block before it, in order, and the blocks after `i` do not matter.
pub proof fn lemma_first_match_wins(blocks: Seq<Seq<char>>, i: int)
    requires
        0 <= i < blocks.len(),
        forall|k: int| 0 <= k < i ==> decode_text(blocks[k]) is Err,
        decode_text(blocks[i]) is Ok,
    ensures
        scan_result(blocks).0 == Some(decode_text(blocks[i])->Ok_0),
        scan_result(blocks).1 == Seq::new(i as nat, |k: int| decode_text(blocks[k])->Err_0),
{
    lemma_scan_prefix(blocks, i);
    assert(blocks.skip(i)[0] == blocks[i]);
    assert(scan_result(blocks.skip(i)).0 == Some(decode_text(blocks[i])->Ok_0));
    assert(scan_result(blocks).1 =~= Seq::new(i as nat, |k: int| decode_text(blocks[k])->Err_0));
}

/// Exhaustion: where every block fails to decode — or none exists — the
/// scan yields no recipe, an absence, with one diagnostic per block tried,
/// in order.
pub proof fn lemma_all_blocks_fail(blocks: Seq<Seq<char>>)
    requires
        forall|k: int| 0 <= k < blocks.len() ==> decode_text(blocks[k]) is Err,
    ensures
        scan_result(blocks).0 is None,
        scan_result(blocks).1 == Seq::new(
            blocks.len(),
            |k: int| decode_text(blocks[k])->Err_0,
        ),
{
    lemma_scan_prefix(blocks, blocks.len() as int);
    assert(blocks.skip(blocks.len() as int) =~= Seq::<Seq<char>>::empty());
    assert(scan_result(blocks).1 =~= Seq::new(
        blocks.len(),
        |k: int| decode_text(blocks[k])->Err_0,
    ));
}

/// Try each candidate block in order.  The first successful decode wins,
/// and later blocks are not examined; the diagnostics of the failed blocks
/// that were tried come back alongside.
pub fn scan_blocks(blocks: &Vec<String>) -> (r: (Option<Recipe>, Vec<DecodeError>))
    ensures
        (match r.0 {
            Some(rec) => scan_result(blocks.deep_view()).0 == Some(rec@),
            None => scan_result(blocks.deep_view()).0 is None,
        }),
        r.1.deep_view() == scan_result(blocks.deep_view()).1,
{
    let ghost bs: Seq<Seq<char>> = blocks.deep_view();
    let mut diags: Vec<DecodeError> = Vec::new();
    let n = blocks.len();
    for i in 0..n
        invariant
            n == blocks.len(),
            bs == blocks.deep_view(),
            diags.len() == i,
            forall|k: int| 0 <= k < i ==> decode_text(bs[k]) is Err,
            forall|k: int| 0 <= k < i ==> diags@[k]@ == decode_text(bs[k])->Err_0,
    {
        proof {
            assert(bs[i as int] == blocks@[i as int]@);
        }
        match Recipe::from_str(blocks[i].as_str()) {
            Ok(rec) => {
                proof {
                    lemma_first_match_wins(bs, i as int);
                    assert(diags.deep_view() =~= Seq::new(
                        i as nat,
                        |k: int| decode_text(bs[k])->Err_0,
                    ));
                }
                return (Some(rec), diags);
            },
            Err(e) => {
                diags.push(e);
            },
        }
    }
    proof {
        lemma_all_blocks_fail(bs);
        assert(diags.deep_view() =~= Seq::new(
            bs.len(),
            |k: int| decode_text(bs[k])->Err_0,
        ));
    }
    (None, diags)
}

impl Recipe {
    /// Extract at most one recipe from an HTML text: decode HTML entities,
    /// list the structured-data blocks, and try each in document order.
    /// This always succeeds: no decodable block is an absence,
    /// `(None, diagnostics)`, not an error.  The `Selector` error arm
    /// exists only for a compile failure of the fixed selector, a defect of
    /// this library that the selector grammar rules out.
    pub fn from_html(html: &str) -> (r: Result<(Option<Recipe>, Vec<DecodeError>), Error>)
        ensures
            r is Ok,
            r matches Ok(found) ==> {
                let scanned = scan_result(script_blocks(html_unescaped(html@)));
                &&& (match found.0 {
                    Some(rec) => scanned.0 == Some(rec@),
                    None => scanned.0 is None,
                })
                &&& found.1.deep_view() == scanned.1
            },
    {
        let decoded = decode_entities(html);
        match select_script_blocks(decoded.as_str()) {
            Ok(blocks) => Ok(scan_blocks(&blocks)),
            Err(words) => Err(Error::Selector(words)),
        }
    }

    /// Extract at most one recipe from raw page bytes: decode them as UTF-8,
    /// then extract from the text.  This succeeds exactly when the bytes
    /// are valid UTF-8; invalid bytes are the encoding failure, the only
    /// failure here, and abort the attempt before any parsing.
    pub fn from_html_bytes(bytes: &[u8]) -> (r: Result<
        (Option<Recipe>, Vec<DecodeError>),
        Error,
    >)
        ensures
            r is Ok <==> utf8_text(bytes@) is Some,
            r matches Ok(found) ==> {
                let text = utf8_text(bytes@)->Some_0;
                let scanned = scan_result(script_blocks(html_unescaped(text)));
                &&& (match found.0 {
                    Some(rec) => scanned.0 == Some(rec@),
                    None => scanned.0 is None,
                })
                &&& found.1.deep_view() == scanned.1
            },
            r matches Err(e) ==> e is Utf8,
    {
        match utf8_string(bytes) {
            Some(text) => Recipe::from_html(text.as_str()),
            None => Err(Error::Utf8),
        }
    }
}

} // verus!
