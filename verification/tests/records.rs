use campus_dapp::{Address, Note, NoteRequest, Suggestion};

fn who() -> Address {
    Address { bytes: [3u8; 32] }
}

#[test]
fn new_suggestion_has_no_votes() {
    let s = Suggestion::new(who(), "Fix WiFi".to_string(), "It is down".to_string(), 2, 99, 254);
    assert_eq!(
        s,
        Suggestion {
            author: who(),
            title: "Fix WiFi".to_string(),
            description: "It is down".to_string(),
            category: 2,
            vote_count: 0,
            timestamp: 99,
            bump: 254,
        }
    );
}

#[test]
fn a_vote_changes_the_count_only() {
    let mut s = Suggestion::new(who(), "Fix WiFi".to_string(), "It is down".to_string(), 2, 99, 254);
    let before = s.clone();
    s.upvote();
    assert_eq!(s.vote_count, 1);
    s.upvote();
    assert_eq!(s.vote_count, 2);
    assert_eq!(Suggestion { vote_count: 0, ..s }, before);
    let mut high = Suggestion { vote_count: u64::MAX - 1, ..before };
    high.upvote();
    assert_eq!(high.vote_count, u64::MAX);
}

#[test]
fn new_note_keeps_its_fields() {
    let n = Note::new(who(), "Math".to_string(), "Week 1".to_string(), "Qm".to_string(), -7, 1);
    assert_eq!(
        n,
        Note {
            author: who(),
            subject: "Math".to_string(),
            title: "Week 1".to_string(),
            ipfs_hash: "Qm".to_string(),
            timestamp: -7,
            bump: 1,
        }
    );
}

#[test]
fn new_request_is_open() {
    let r = NoteRequest::new(who(), "Math".to_string(), "Chapter 3".to_string(), 12, 250);
    assert_eq!(
        r,
        NoteRequest {
            author: who(),
            subject: "Math".to_string(),
            description: "Chapter 3".to_string(),
            is_fulfilled: false,
            timestamp: 12,
            bump: 250,
        }
    );
}
