//! The JSON documents that stand in the fenced blocks of a text.

use crate::config::text_of;
use crate::json::{parsed, trees, Json, JsonTree};
use vstd::prelude::*;

verus! {

/// A fenced block that is tagged `json`: the fence, the tag, and everything
/// up to the next fence, without the whitespace at either end.
pub const TAGGED_BLOCK: &'static str = r"```json\s*([\s\S]*?)\s*```";

/// A fenced block, whatever its tag.
pub const ANY_BLOCK: &'static str = r"```\s*([\s\S]*?)\s*```";

/// For each match of the regular expression `pattern` in `text`, from left to
/// right and without overlap, what the first group of the pattern matched,
/// if it took part; `None` where `pattern` is no regular expression that can
/// be compiled.
pub uninterp spec fn first_groups(pattern: Seq<char>, text: Seq<char>) -> Option<
    Seq<Option<Seq<char>>>,
>;

/// Compiles `pattern` with `regex::Regex::new`, walks the matches in `text`
/// with `Regex::captures_iter`, and takes from each the text of group 1.
/// What comes back depends on the pattern and the text alone; nothing comes
/// back where the pattern does not compile.
#[verifier::external_body]
fn first_group_texts(pattern: &str, text: &str) -> (r: Option<Vec<Option<String>>>)
    ensures
        match r {
            Some(texts) => first_groups(pattern@, text@) == Some(optional_texts(texts@)),
            None => first_groups(pattern@, text@).is_none(),
        },
{
    let expression = regex::Regex::new(pattern).ok()?;
    Some(expression.captures_iter(text).map(|c| c.get(1).map(|m| m.as_str().to_owned())).collect())
}

/// The characters of each of `texts`.
pub open spec fn optional_texts(texts: Seq<Option<String>>) -> Seq<Option<Seq<char>>> {
    Seq::new(texts.len(), |i: int| text_of(texts[i]))
}

/// What the blocks of `text` hold that match `pattern`; nothing where the
/// pattern does not compile.
pub open spec fn captured(pattern: Seq<char>, text: Seq<char>) -> Seq<Option<Seq<char>>> {
    match first_groups(pattern, text) {
        Some(texts) => texts,
        None => Seq::empty(),
    }
}

/// The documents among `captures`, in order: each capture that is there and
/// can be read as JSON.
pub open spec fn documents(captures: Seq<Option<Seq<char>>>) -> Seq<JsonTree>
    decreases captures.len(),
{
    if captures.len() == 0 {
        Seq::empty()
    } else {
        let before = documents(captures.drop_last());
        match captures.last() {
            Some(text) => match parsed(text) {
                Some(tree) => before.push(tree),
                None => before,
            },
            None => before,
        }
    }
}

/// What is handed out for `blocks`: nothing for none, the block itself for
/// one, the array of all of them for more.
pub open spec fn selection(blocks: Seq<JsonTree>) -> Option<JsonTree> {
    if blocks.len() == 0 {
        None
    } else if blocks.len() == 1 {
        Some(blocks[0])
    } else {
        Some(JsonTree::Array(blocks))
    }
}

/// The documents of the blocks tagged `json` where there is one, else the
/// documents of all the blocks.
pub open spec fn block_documents(text: Seq<char>) -> Seq<JsonTree> {
    let tagged = documents(captured(TAGGED_BLOCK@, text));
    if tagged.len() > 0 {
        tagged
    } else {
        documents(captured(ANY_BLOCK@, text))
    }
}

/// The model of an optional document.
pub open spec fn tree_of(j: Option<Json>) -> Option<JsonTree> {
    match j {
        Some(j) => Some(j@),
        None => None,
    }
}

/// What the blocks of `text` hold that match `pattern`.
pub fn capture_blocks(pattern: &str, text: &str) -> (r: Vec<Option<String>>)
    ensures
        optional_texts(r@) == captured(pattern@, text@),
{
    match first_group_texts(pattern, text) {
        Some(texts) => texts,
        None => {
            let none: Vec<Option<String>> = Vec::new();
            none
        },
    }
}

/// The documents among `captures`, in order.
pub fn read_documents(captures: &Vec<Option<String>>) -> (r: Vec<Json>)
    ensures
        trees(r@) == documents(optional_texts(captures@)),
{
    let ghost all = optional_texts(captures@);
    let mut blocks: Vec<Json> = Vec::new();
    let mut i: usize = 0;
    while i < captures.len()
        invariant
            i <= captures.len(),
            all == optional_texts(captures@),
            trees(blocks@) == documents(all.take(i as int)),
        decreases captures.len() - i,
    {
        assert(all.take(i + 1).drop_last() =~= all.take(i as int));
        match &captures[i] {
            Some(text) => match Json::parse(text.as_str()) {
                Some(json) => {
                    blocks.push(json);
                },
                None => {},
            },
            None => {},
        }
        i += 1;
    }
    assert(all.take(i as int) =~= all);
    blocks
}

/// What is handed out for `blocks`: nothing for none, the block itself for
/// one, the array of all of them for more.
pub fn select(blocks: Vec<Json>) -> (r: Option<Json>)
    ensures
        tree_of(r) == selection(trees(blocks@)),
{
    let mut blocks = blocks;
    if blocks.len() == 0 {
        None
    } else if blocks.len() == 1 {
        blocks.pop()
    } else {
        Some(Json::array(blocks))
    }
}

/// The JSON documents that stand in the fenced blocks of `response`.
///
/// The blocks tagged `json` are read first; a block that is no JSON is
/// passed over. Where none of them gives a document, all the fenced blocks
/// are read in the same way.
pub fn extract_json_blocks(response: &str) -> (r: Option<Json>)
    ensures
        tree_of(r) == selection(block_documents(response@)),
{
    let tagged = read_documents(&capture_blocks(TAGGED_BLOCK, response));
    if tagged.len() > 0 {
        select(tagged)
    } else {
        select(read_documents(&capture_blocks(ANY_BLOCK, response)))
    }
}

} // verus!
