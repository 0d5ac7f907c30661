use askme::extract::{
    capture_blocks, extract_json_blocks, read_documents, select, ANY_BLOCK, TAGGED_BLOCK,
};
use askme::json::Json;

fn number(text: &str) -> Json {
    Json::Number(text.to_string())
}

fn object(entries: Vec<(&str, Json)>) -> Json {
    Json::Object(entries.into_iter().map(|(k, v)| (k.to_string(), v)).collect())
}

#[test]
fn two_tagged_blocks_give_an_array_in_order() {
    let text = "first:\n```json\n{\"a\":1}\n```\nsecond:\n```json\n{\"b\":2}\n```\n";
    assert_eq!(
        extract_json_blocks(text),
        Some(Json::Array(vec![
            object(vec![("a", number("1"))]),
            object(vec![("b", number("2"))]),
        ]))
    );
}

#[test]
fn a_text_without_fenced_blocks_gives_nothing() {
    assert_eq!(extract_json_blocks("no blocks here, only {\"a\":1}"), None);
    assert_eq!(extract_json_blocks(""), None);
}

#[test]
fn one_block_of_invalid_json_gives_nothing() {
    assert_eq!(extract_json_blocks("```json\n{not json}\n```"), None);
    assert_eq!(extract_json_blocks("```\nplain text\n```"), None);
}

#[test]
fn one_tagged_block_gives_its_document_itself() {
    assert_eq!(
        extract_json_blocks("Here:\n```json\n{\"a\":1}\n```"),
        Some(object(vec![("a", number("1"))]))
    );
}

#[test]
fn an_invalid_tagged_block_is_passed_over() {
    let text = "```json\n{oops}\n```\n```json\n{\"b\":2}\n```";
    assert_eq!(extract_json_blocks(text), Some(object(vec![("b", number("2"))])));
}

#[test]
fn untagged_blocks_are_read_where_no_tagged_block_gives_a_document() {
    let text = "```\n{\"a\":1}\n```\nand\n```\n[1,2]\n```";
    assert_eq!(
        extract_json_blocks(text),
        Some(Json::Array(vec![
            object(vec![("a", number("1"))]),
            Json::Array(vec![number("1"), number("2")]),
        ]))
    );
}

#[test]
fn untagged_blocks_are_left_alone_where_a_tagged_block_gives_a_document() {
    let text = "```\n{\"a\":1}\n```\n```json\n{\"b\":2}\n```";
    assert_eq!(extract_json_blocks(text), Some(object(vec![("b", number("2"))])));
}

#[test]
fn a_block_with_another_tag_is_no_json() {
    assert_eq!(extract_json_blocks("```yaml\n{\"a\":1}\n```"), None);
}

#[test]
fn a_block_may_stand_on_one_line() {
    assert_eq!(extract_json_blocks("```json {\"a\":1} ```"), Some(object(vec![("a", number("1"))])));
}

#[test]
fn an_unclosed_block_gives_nothing() {
    assert_eq!(extract_json_blocks("```json\n{\"a\":1}\n"), None);
}

#[test]
fn capture_blocks_gives_what_stands_between_the_fences() {
    let text = "x ```json\n {\"a\": 1} \n``` y ```json[2]```";
    assert_eq!(
        capture_blocks(TAGGED_BLOCK, text),
        vec![Some("{\"a\": 1}".to_string()), Some("[2]".to_string())]
    );
    assert_eq!(
        capture_blocks(ANY_BLOCK, "```a``` ```\nb c\n```"),
        vec![Some("a".to_string()), Some("b c".to_string())]
    );
    assert_eq!(capture_blocks(TAGGED_BLOCK, "nothing"), Vec::<Option<String>>::new());
}

#[test]
fn capture_blocks_tells_a_group_that_took_no_part() {
    assert_eq!(capture_blocks("a(b)?", "ab a"), vec![Some("b".to_string()), None]);
}

#[test]
fn capture_blocks_of_a_pattern_that_does_not_compile_is_empty() {
    assert_eq!(capture_blocks("(", "((("), Vec::<Option<String>>::new());
}

#[test]
fn read_documents_keeps_what_can_be_read_in_order() {
    let captures = vec![
        Some("1".to_string()),
        None,
        Some("nope".to_string()),
        Some("[true]".to_string()),
    ];
    assert_eq!(
        read_documents(&captures),
        vec![number("1"), Json::Array(vec![Json::Bool(true)])]
    );
    assert_eq!(read_documents(&Vec::new()), Vec::<Json>::new());
}

#[test]
fn select_gives_nothing_one_or_all() {
    assert_eq!(select(vec![]), None);
    assert_eq!(select(vec![number("1")]), Some(number("1")));
    assert_eq!(
        select(vec![number("1"), number("2"), Json::Null]),
        Some(Json::Array(vec![number("1"), number("2"), Json::Null]))
    );
}

#[test]
fn select_of_one_array_is_that_array() {
    let only = Json::Array(vec![number("1"), number("2")]);
    assert_eq!(select(vec![Json::Array(vec![number("1"), number("2")])]), Some(only));
}
