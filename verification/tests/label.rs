use audio_select::label::{get_shortened_label, HEAD_CHARS, MAX_LABEL_CHARS, TAIL_CHARS};

#[test]
fn short_label_is_kept() {
    assert_eq!(get_shortened_label(&"Built-in Audio".to_string()), "Built-in Audio");
    assert_eq!(get_shortened_label(&String::new()), "");
}

#[test]
fn label_of_35_characters_is_kept() {
    let label = "abcdefghijklmnopqrstuvwxyz012345678".to_string();
    assert_eq!(label.chars().count(), 35);
    assert_eq!(get_shortened_label(&label), label);
}

#[test]
fn label_of_36_characters_is_shortened() {
    let label = "abcdefghijklmnopqrstuvwxyz0123456789".to_string();
    assert_eq!(label.chars().count(), 36);
    assert_eq!(get_shortened_label(&label), "abcdefghijklmnopqrst...vwxyz0123456789");
}

#[test]
fn long_ascii_label_keeps_20_and_15_characters() {
    let label = "Family 17h (Models 00h-0fh) HD Audio Controller Analog Stereo".to_string();
    let short = get_shortened_label(&label);
    assert_eq!(short, "Family 17h (Models 0...r Analog Stereo");
    assert_eq!(short.chars().count(), 38);
}

#[test]
fn long_label_is_cut_between_characters_not_bytes() {
    let label = "Gerät für Kopfhörer über Lautsprecher — Ausgang ändern".to_string();
    assert!(!label.is_ascii());
    let chars: Vec<char> = label.chars().collect();
    assert!(chars.len() > 35);
    let mut expected: String = chars[..20].iter().collect();
    expected.push_str("...");
    expected.extend(chars[chars.len() - 15..].iter());
    let short = get_shortened_label(&label);
    assert_eq!(short, expected);
    assert_eq!(short, "Gerät für Kopfhörer ... Ausgang ändern");
}

#[test]
fn short_label_with_wide_characters_is_kept() {
    let label = "Österreichischer Kopfhörerverstärke".to_string();
    assert!(label.len() > 35);
    assert_eq!(label.chars().count(), 35);
    assert_eq!(get_shortened_label(&label), label);
}

#[test]
fn shortening_constants() {
    assert_eq!(MAX_LABEL_CHARS, 35);
    assert_eq!(HEAD_CHARS, 20);
    assert_eq!(TAIL_CHARS, 15);
}
