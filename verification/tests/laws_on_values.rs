use fishworker::dictionary::urlencoding_simple;
use fishworker::file_dialog::candidate_file_name;
use fishworker::reminder::make_reminder_key;

#[test]
fn reminder_keys_differ_by_day_and_offset() {
    let a = make_reminder_key("t1", "2024-01-10", 1);
    let b = make_reminder_key("t1", "2024-01-11", 1);
    let c = make_reminder_key("t1", "2024-01-10", 11);
    let d = make_reminder_key("t1", "2024-01-1", 11);
    assert_ne!(a, b);
    assert_ne!(a, c);
    assert_ne!(c, d);
    assert_eq!(a, make_reminder_key("t1", "2024-01-10", 1));
}

#[test]
fn file_name_attempts_are_all_different() {
    let names: Vec<String> = (0..25).map(|i| candidate_file_name("a_1", i)).collect();
    for i in 0..names.len() {
        for j in (i + 1)..names.len() {
            assert_ne!(names[i], names[j]);
        }
    }
}

#[test]
fn encoded_words_are_url_safe() {
    let e = urlencoding_simple("a b&c=d?é/你#%");
    assert_eq!(e, "a%20b%26c%3Dd%3F%C3%A9%2F%E4%BD%A0%23%25");
    assert!(e.chars().all(|c| c.is_ascii_alphanumeric() || "-_.~%".contains(c)));
}
