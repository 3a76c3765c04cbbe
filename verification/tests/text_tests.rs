use tomchat::chars::{chars_to_string, str_to_chars, trim_chars};
use tomchat::textproc::{
    clean_text, join_segments, keep_nonempty, key_action_for, word_count, KeyAction,
};

#[test]
fn chars_round_trip_through_string() {
    let chars = str_to_chars("hello, wörld!");
    assert_eq!(chars_to_string(&chars), "hello, wörld!");
    let empty = str_to_chars("");
    assert_eq!(chars_to_string(&empty), "");
}

#[test]
fn trim_strips_both_ends() {
    let v = str_to_chars("  \t hello world \n");
    assert_eq!(chars_to_string(&trim_chars(&v)), "hello world");
    let all_ws = str_to_chars(" \t\r\n");
    assert_eq!(chars_to_string(&trim_chars(&all_ws)), "");
}

#[test]
fn clean_text_collapses_whitespace() {
    assert_eq!(clean_text("  hello   world  "), "hello world");
    assert_eq!(clean_text("a\tb\nc"), "a b c");
    assert_eq!(clean_text(""), "");
    assert_eq!(clean_text("   "), "");
}

#[test]
fn clean_text_closes_spaces_before_punctuation() {
    assert_eq!(clean_text("hello , world ."), "hello, world.");
    assert_eq!(clean_text("what ?  yes !"), "what? yes!");
    assert_eq!(clean_text("a ; b : c"), "a; b: c");
}

#[test]
fn clean_text_leaves_tidy_text_alone() {
    assert_eq!(clean_text("already clean text."), "already clean text.");
}

#[test]
fn word_count_counts_separated_runs() {
    assert_eq!(word_count(""), 0);
    assert_eq!(word_count("   "), 0);
    assert_eq!(word_count("one"), 1);
    assert_eq!(word_count("  one  two   three "), 3);
    assert_eq!(word_count("a\nb\tc d"), 4);
}

#[test]
fn segments_join_trimmed_with_single_spaces() {
    let segs = vec![
        String::from(" Hello"),
        String::from(""),
        String::from("  "),
        String::from("world "),
        String::from("again"),
    ];
    assert_eq!(join_segments(&segs), "Hello world again");
    assert_eq!(join_segments(&Vec::new()), "");
}

#[test]
fn streaming_results_keep_only_nonempty() {
    let results = vec![
        String::from("first"),
        String::from(""),
        String::from("second"),
        String::from(""),
    ];
    let kept = keep_nonempty(results);
    assert_eq!(kept, vec![String::from("first"), String::from("second")]);
}

#[test]
fn key_actions_for_special_characters() {
    assert_eq!(key_action_for('\n'), KeyAction::PressReturn);
    assert_eq!(key_action_for('\t'), KeyAction::PressTab);
    assert_eq!(key_action_for(' '), KeyAction::PressSpace);
    assert_eq!(key_action_for('x'), KeyAction::TypeText('x'));
    assert_eq!(key_action_for('!'), KeyAction::TypeText('!'));
}
