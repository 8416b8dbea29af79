use termtalk::protocol::chat_line;
use termtalk::protocol::error_taken_line;
use termtalk::protocol::join_notice;
use termtalk::protocol::leave_notice;
use termtalk::protocol::name_prompt;
use termtalk::protocol::ping_line;
use termtalk::protocol::pong_frame;
use termtalk::protocol::success_line;
use termtalk::protocol::token_line;
use termtalk::protocol::userlist_line;
use termtalk::protocol::userlist_request_frame;

#[test]
fn every_protocol_line_is_exact() {
    assert_eq!(token_line(0), "Your token: 0\n");
    assert_eq!(token_line(42), "Your token: 42\n");
    assert_eq!(name_prompt(), "Enter your username: ");
    assert_eq!(
        error_taken_line(),
        "ERROR: Username is already taken. Please choose a different one.\n"
    );
    assert_eq!(success_line(), "SUCCESS: Username accepted.\n");
    assert_eq!(ping_line(), "PING\n");
    assert_eq!(pong_frame(), "PONG\n");
    assert_eq!(userlist_request_frame(), "GET_USERLIST\n");
}

#[test]
fn notice_and_chat_lines_embed_the_name() {
    assert_eq!(join_notice("alice"), "SERVER: alice has joined the chat!\n");
    assert_eq!(leave_notice("alice"), "SERVER: alice has left the chat!\n");
    assert_eq!(chat_line("alice", "hello @all"), "alice: hello @all\n");
}

#[test]
fn userlist_line_joins_names_with_comma_space() {
    assert_eq!(
        userlist_line(&vec!["alice".to_string(), "bob".to_string()]),
        "USERLIST: alice, bob\n"
    );
    assert_eq!(userlist_line(&vec!["alice".to_string()]), "USERLIST: alice\n");
    assert_eq!(userlist_line(&Vec::new()), "USERLIST: \n");
}
