use termtalk::peer::Incoming;
use termtalk::peer::NameSubmission;
use termtalk::peer::PeerClient;
use termtalk::peer::PeerState;
use termtalk::peer::ReplyOutcome;
use termtalk::protocol::userlist_request_frame;

fn chatting_peer() -> PeerClient {
    let mut peer = PeerClient::new();
    peer.on_token_line("Your token: 0\n");
    let reply = peer.on_name_reply("alice", "SUCCESS: Username accepted.\n");
    assert!(matches!(reply, ReplyOutcome::Accepted));
    peer
}

#[test]
fn token_is_last_word_of_greeting() {
    let mut peer = PeerClient::new();
    peer.on_token_line("Your token: 0\n");
    assert_eq!(peer.token, Some("0".to_string()));
    assert_eq!(peer.state, PeerState::NegotiatingName);

    let mut odd = PeerClient::new();
    odd.on_token_line("\n");
    assert_eq!(odd.token, Some("unknown".to_string()));
}

#[test]
fn empty_name_is_rejected_locally() {
    let mut peer = PeerClient::new();
    peer.on_token_line("Your token: 0\n");
    assert!(matches!(peer.submit_name("   "), NameSubmission::EmptyInput));
    match peer.submit_name("alice") {
        NameSubmission::Send(frame) => assert_eq!(frame, "alice\n"),
        NameSubmission::EmptyInput => panic!("non-empty input rejected"),
    }
}

#[test]
fn name_reply_branches_on_literal_content() {
    let mut peer = PeerClient::new();
    peer.on_token_line("Your token: 0\n");

    let taken = "ERROR: Username is already taken. Please choose a different one.\n";
    match peer.on_name_reply("alice", taken) {
        ReplyOutcome::Rejected { error } => {
            assert_eq!(error, "ERROR: Username is already taken. Please choose a different one.");
        }
        _ => panic!("rejection line not recognized"),
    }
    assert_eq!(peer.state, PeerState::NegotiatingName);

    match peer.on_name_reply("alice", "something else entirely\n") {
        ReplyOutcome::Unexpected { error } => {
            assert_eq!(error, "Unexpected server response. Please try again.");
        }
        _ => panic!("unexpected line not recognized"),
    }
    assert_eq!(peer.state, PeerState::NegotiatingName);

    let reply = peer.on_name_reply("alice", "SUCCESS: Username accepted.\n");
    assert!(matches!(reply, ReplyOutcome::Accepted));
    assert_eq!(peer.state, PeerState::Chatting);
    assert_eq!(peer.name, Some("alice".to_string()));
}

#[test]
fn echoed_prompt_prefix_is_tolerated() {
    let mut peer = PeerClient::new();
    peer.on_token_line("Your token: 0\n");
    let reply = peer.on_name_reply("alice", "Enter your username: SUCCESS: Username accepted.\n");
    assert!(matches!(reply, ReplyOutcome::Accepted));
    assert_eq!(peer.state, PeerState::Chatting);
}

#[test]
fn incoming_lines_are_classified() {
    let peer = chatting_peer();

    match peer.classify_incoming("PING\n") {
        Incoming::Ping { reply } => assert_eq!(reply, "PONG\n"),
        _ => panic!("probe not recognized"),
    }
    match peer.classify_incoming("USERLIST: alice, bob\n") {
        Incoming::UserList { names } => assert_eq!(names, "alice, bob"),
        _ => panic!("user list not recognized"),
    }
    assert!(matches!(
        peer.classify_incoming("Enter your username: \n"),
        Incoming::Prompt
    ));
    match peer.classify_incoming("alice: hello @all\n") {
        Incoming::Chat { line } => assert_eq!(line, "alice: hello @all"),
        _ => panic!("chat line not recognized"),
    }
}

#[test]
fn chat_input_becomes_trimmed_frames() {
    let peer = chatting_peer();
    assert_eq!(peer.chat_frame(""), None);
    assert_eq!(peer.chat_frame("hello @all "), Some("hello @all\n".to_string()));
    assert_eq!(userlist_request_frame(), "GET_USERLIST\n");
}

#[test]
fn closing_is_terminal() {
    let mut peer = chatting_peer();
    peer.close();
    assert_eq!(peer.state, PeerState::Closed);
    assert_eq!(peer.name, Some("alice".to_string()));
}
