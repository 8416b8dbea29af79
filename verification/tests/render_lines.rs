use termtalk::render::format_message;
use termtalk::render::has_mention;
use termtalk::render::is_mention;

const TS: &str = "[01.01.2026 12:00]";

#[test]
fn server_notices_keep_their_text() {
    let line = "SERVER: alice has joined the chat!";
    assert_eq!(
        format_message(line, true, "bob", TS),
        format!("{} {}", TS, line)
    );
}

#[test]
fn chat_lines_split_at_the_first_colon() {
    assert_eq!(
        format_message("alice: hello there", false, "bob", TS),
        format!("{} alice: hello there", TS)
    );
    // Later colons belong to the content.
    assert_eq!(
        format_message("alice: see: this", false, "bob", TS),
        format!("{} alice: see: this", TS)
    );
    // No colon at all: the whole line is the author part, content is empty.
    assert_eq!(
        format_message("just text", false, "bob", TS),
        format!("{} just text: ", TS)
    );
}

#[test]
fn mentioned_content_is_rejoined_word_by_word() {
    // A mention makes the renderer walk the words, so runs of whitespace
    // collapse to single spaces.
    assert_eq!(
        format_message("alice:  hi   @bob  !", false, "bob", TS),
        format!("{} alice: hi @bob !", TS)
    );
    // Without a mention the content is left untouched.
    assert_eq!(
        format_message("alice:  hi   carol  !", false, "bob", TS),
        format!("{} alice: hi   carol  !", TS)
    );
    // @all counts as a mention for everyone.
    assert_eq!(
        format_message("alice: hello   @all", false, "bob", TS),
        format!("{} alice: hello @all", TS)
    );
}

#[test]
fn mention_words_are_exact() {
    assert!(is_mention("@bob", "bob"));
    assert!(is_mention("@all", "bob"));
    assert!(!is_mention("@bobby", "bob"));
    assert!(!is_mention("bob", "bob"));
    assert!(has_mention("hi @bob !", "bob"));
    assert!(has_mention("hi @all", "bob"));
    assert!(!has_mention("hi carol", "bob"));
    // Substring containment decides the highlighting branch, as in the
    // terminal it styles word-for-word afterwards.
    assert!(has_mention("hi @bobby", "bob"));
}
