use baiken::framedata::remove_tags;
use baiken::images::preprocess_images_json;
use baiken::preprocess::{apply_replacement_table, preprocess_json, REPLACEMENTS};
use std::collections::HashSet;

#[test]
fn replacement_table_lists_each_text_once() {
    let mut seen = HashSet::new();
    for (from, _) in REPLACEMENTS.iter() {
        assert!(!from.is_empty());
        assert!(seen.insert(*from), "listed twice: {}", from);
    }
}

#[test]
fn regex_steps_rewrite_slashes_jumps_and_knockdowns() {
    assert_eq!(preprocess_json("\"c.S\"".to_string()), "\"近S\"");
    assert_eq!(preprocess_json("\"f.S\"".to_string()), "\"遠S\"");
    assert_eq!(preprocess_json("\"j.K\"".to_string()), "\"jK\"");
    assert_eq!(preprocess_json("HKD on hit".to_string()), "強制ダウンon hit");
    assert_eq!(preprocess_json("KD on hit".to_string()), "ダウンon hit");
}

#[test]
fn table_rewrites_guard_and_names() {
    assert_eq!(
        preprocess_json("{\"guard\":\"High\",\"input\":\"5H\"}".to_string()),
        "{\"guard\":\"中段\",\"input\":\"5HS\"}"
    );
    assert_eq!(apply_replacement_table("\"Ground Throw\""), "\"投げ\"");
    assert_eq!(apply_replacement_table("nothing to do"), "nothing to do");
}

#[test]
fn tags_are_removed_from_frame_data() {
    let s = "a&lt;br&gt;b; c;d&#039;e&lt;/span&gt;".to_string();
    assert_eq!(remove_tags(s), "a, b\\nc\\nd'e");
}

#[test]
fn images_json_gets_its_apostrophes_back() {
    assert_eq!(preprocess_images_json("Ky&#039;s".to_string()), "Ky's");
}

#[test]
fn text_without_patterns_is_left_alone() {
    let t = "no quotes, no knockdown words here".to_string();
    assert_eq!(preprocess_json(t.clone()), t);
}
