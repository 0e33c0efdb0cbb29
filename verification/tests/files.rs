use std::collections::HashMap;

use shell_core::fatal::Fatal;
use shell_core::files::{read_file, write_outcome, write_to_file, WritePlan, WriteReport};

/// A host that keeps its files in memory: it carries out a plan by replacing
/// the whole content at the plan's path.
fn carry_out(files: &mut HashMap<String, Vec<u8>>, plan: WritePlan) -> WriteReport {
    files.insert(plan.path, plan.bytes);
    WriteReport::Written
}

fn load(files: &HashMap<String, Vec<u8>>, path: &str) -> Option<Vec<u8>> {
    files.get(path).cloned()
}

#[test]
fn write_plan_keeps_path_and_encodes_content() {
    let plan = write_to_file("notes/today.txt".to_string(), "hi".to_string());
    assert_eq!(plan.path, "notes/today.txt");
    assert_eq!(plan.bytes, vec![0x68, 0x69]);
}

#[test]
fn write_plan_encodes_beyond_ascii() {
    let plan = write_to_file("a".to_string(), "é€😀".to_string());
    assert_eq!(
        plan.bytes,
        vec![0xC3, 0xA9, 0xE2, 0x82, 0xAC, 0xF0, 0x9F, 0x98, 0x80]
    );
}

#[test]
fn write_plan_of_empty_content_is_empty() {
    let plan = write_to_file("empty.txt".to_string(), String::new());
    assert_eq!(plan.path, "empty.txt");
    assert!(plan.bytes.is_empty());
}

#[test]
fn write_plan_adds_no_line_ending() {
    let plan = write_to_file("a".to_string(), "one\r\ntwo".to_string());
    assert_eq!(plan.bytes, b"one\r\ntwo".to_vec());
}

#[test]
fn read_gives_whole_content() {
    let end = read_file(Some(b"first line\nsecond line\n".to_vec()));
    assert_eq!(end, Ok("first line\nsecond line\n".to_string()));
}

#[test]
fn read_decodes_beyond_ascii() {
    let end = read_file(Some(vec![0xC3, 0xA9, 0xE2, 0x82, 0xAC, 0xF0, 0x9F, 0x98, 0x80]));
    assert_eq!(end, Ok("é€😀".to_string()));
}

#[test]
fn read_of_empty_file_is_empty_text() {
    assert_eq!(read_file(Some(Vec::new())), Ok(String::new()));
}

#[test]
fn read_after_write_gives_text_back() {
    let mut files = HashMap::new();
    let text = "Grüße, 世界! \u{1F980}\n\ttabs and\0nul";
    let plan = write_to_file("greeting.txt".to_string(), text.to_string());
    assert_eq!(write_outcome(carry_out(&mut files, plan)), Ok(()));
    assert_eq!(read_file(load(&files, "greeting.txt")), Ok(text.to_string()));
}

#[test]
fn second_write_replaces_first() {
    let mut files = HashMap::new();
    let plan = write_to_file("p".to_string(), "a long first content".to_string());
    carry_out(&mut files, plan);
    let plan = write_to_file("p".to_string(), "short".to_string());
    carry_out(&mut files, plan);
    assert_eq!(read_file(load(&files, "p")), Ok("short".to_string()));
}

#[test]
fn read_of_missing_file_is_fatal() {
    let files: HashMap<String, Vec<u8>> = HashMap::new();
    let end = read_file(load(&files, "nowhere.txt"));
    assert_eq!(end, Err(Fatal::ReadFailed));
    assert_ne!(end, Ok(String::new()));
}

#[test]
fn read_of_stray_byte_is_fatal() {
    assert_eq!(read_file(Some(vec![0xFF])), Err(Fatal::ReadFailed));
}

#[test]
fn read_of_text_with_one_bad_byte_is_fatal() {
    let mut bytes = b"good so far ".to_vec();
    bytes.push(0x80);
    bytes.extend_from_slice(b" and after");
    assert_eq!(read_file(Some(bytes)), Err(Fatal::ReadFailed));
}

#[test]
fn read_of_cut_off_character_is_fatal() {
    assert_eq!(read_file(Some(vec![0x61, 0xE2, 0x82])), Err(Fatal::ReadFailed));
}

#[test]
fn read_of_overlong_encoding_is_fatal() {
    assert_eq!(read_file(Some(vec![0xC0, 0xAF])), Err(Fatal::ReadFailed));
}

#[test]
fn read_of_surrogate_is_fatal() {
    assert_eq!(read_file(Some(vec![0xED, 0xA0, 0x80])), Err(Fatal::ReadFailed));
}

#[test]
fn read_beyond_last_scalar_is_fatal() {
    assert_eq!(read_file(Some(vec![0xF4, 0x90, 0x80, 0x80])), Err(Fatal::ReadFailed));
}

#[test]
fn failed_create_is_fatal() {
    assert_eq!(write_outcome(WriteReport::CreateFailed), Err(Fatal::CreateFailed));
}

#[test]
fn failed_write_is_fatal() {
    assert_eq!(write_outcome(WriteReport::WriteFailed), Err(Fatal::WriteFailed));
}

#[test]
fn finished_write_returns_nothing() {
    assert_eq!(write_outcome(WriteReport::Written), Ok(()));
}
