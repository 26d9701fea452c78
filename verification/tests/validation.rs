use campus_dapp::error::AppError;
use campus_dapp::records::{
    note_fits, request_fits, suggestion_fits, NOTE_SPACE, REQUEST_SPACE, SUGGESTION_SPACE,
};
use campus_dapp::validate::{stored_len, validate_note, validate_request, validate_suggestion};

fn text(n: usize) -> String {
    "a".repeat(n)
}

#[test]
fn title_bounds() {
    let d = text(20);
    assert_eq!(validate_suggestion(&text(2), &d, 0), Err(AppError::InvalidTitle));
    assert_eq!(validate_suggestion(&text(3), &d, 0), Ok(()));
    assert_eq!(validate_suggestion(&text(100), &d, 0), Ok(()));
    assert_eq!(validate_suggestion(&text(101), &d, 0), Err(AppError::InvalidTitle));
    assert_eq!(validate_suggestion("", &d, 0), Err(AppError::InvalidTitle));
}

#[test]
fn description_bounds() {
    let t = text(10);
    assert_eq!(validate_suggestion(&t, &text(9), 0), Err(AppError::InvalidDescription));
    assert_eq!(validate_suggestion(&t, &text(10), 0), Ok(()));
    assert_eq!(validate_suggestion(&t, &text(500), 0), Ok(()));
    assert_eq!(validate_suggestion(&t, &text(501), 0), Err(AppError::InvalidDescription));
}

#[test]
fn category_bounds() {
    let t = text(10);
    let d = text(20);
    assert_eq!(validate_suggestion(&t, &d, 0), Ok(()));
    assert_eq!(validate_suggestion(&t, &d, 4), Ok(()));
    assert_eq!(validate_suggestion(&t, &d, 5), Err(AppError::InvalidCategory));
    assert_eq!(validate_suggestion(&t, &d, 255), Err(AppError::InvalidCategory));
}

#[test]
fn suggestion_reports_first_broken_rule() {
    assert_eq!(validate_suggestion(&text(2), &text(9), 5), Err(AppError::InvalidTitle));
    assert_eq!(validate_suggestion(&text(3), &text(9), 5), Err(AppError::InvalidDescription));
    assert_eq!(validate_suggestion(&text(3), &text(10), 5), Err(AppError::InvalidCategory));
}

#[test]
fn note_rules() {
    assert_eq!(validate_note(&text(2), &text(3), "Q"), Ok(()));
    assert_eq!(validate_note(&text(50), &text(100), &text(64)), Ok(()));
    assert_eq!(validate_note(&text(1), &text(3), "Q"), Err(AppError::InvalidSubject));
    assert_eq!(validate_note(&text(51), &text(3), "Q"), Err(AppError::InvalidSubject));
    assert_eq!(validate_note(&text(2), &text(2), "Q"), Err(AppError::InvalidTitle));
    assert_eq!(validate_note(&text(2), &text(101), "Q"), Err(AppError::InvalidTitle));
    assert_eq!(validate_note(&text(2), &text(3), ""), Err(AppError::InvalidIpfsHash));
}

#[test]
fn note_reports_title_before_subject_before_hash() {
    assert_eq!(validate_note(&text(1), &text(2), ""), Err(AppError::InvalidTitle));
    assert_eq!(validate_note(&text(1), &text(3), ""), Err(AppError::InvalidSubject));
}

#[test]
fn request_rules() {
    assert_eq!(validate_request(&text(2), &text(10)), Ok(()));
    assert_eq!(validate_request(&text(50), &text(500)), Ok(()));
    assert_eq!(validate_request(&text(1), &text(10)), Err(AppError::InvalidSubject));
    assert_eq!(validate_request(&text(51), &text(10)), Err(AppError::InvalidSubject));
    assert_eq!(validate_request(&text(2), &text(9)), Err(AppError::InvalidDescription));
    assert_eq!(validate_request(&text(2), &text(501)), Err(AppError::InvalidDescription));
    assert_eq!(validate_request(&text(1), &text(9)), Err(AppError::InvalidSubject));
}

#[test]
fn lengths_count_bytes() {
    assert_eq!(stored_len(""), 0);
    assert_eq!(stored_len("abc"), 3);
    assert_eq!(stored_len("é"), 2);
    // two bytes per letter: 50 letters are 100 bytes, 51 letters are 102.
    let d = text(20);
    assert_eq!(validate_suggestion(&"é".repeat(50), &d, 0), Ok(()));
    assert_eq!(validate_suggestion(&"é".repeat(51), &d, 0), Err(AppError::InvalidTitle));
    assert_eq!(validate_suggestion("é", &d, 0), Err(AppError::InvalidTitle));
}

#[test]
fn spaces_of_the_three_kinds() {
    assert_eq!(SUGGESTION_SPACE, 666);
    assert_eq!(NOTE_SPACE, 275);
    assert_eq!(REQUEST_SPACE, 608);
}

#[test]
fn fitting_is_exact_at_the_limit() {
    assert!(suggestion_fits(&text(100), &text(500)));
    assert!(!suggestion_fits(&text(100), &text(501)));
    assert!(!suggestion_fits(&text(101), &text(500)));
    assert!(note_fits(&text(50), &text(100), &text(64)));
    assert!(!note_fits(&text(50), &text(100), &text(65)));
    assert!(!note_fits(&text(50), &text(101), &text(64)));
    assert!(!note_fits(&text(51), &text(100), &text(64)));
    assert!(request_fits(&text(50), &text(500)));
    assert!(!request_fits(&text(51), &text(500)));
    assert!(!request_fits(&text(50), &text(501)));
}

#[test]
fn each_text_has_its_own_slot() {
    // room left by one text is not lent to another
    assert!(!suggestion_fits("", &text(501)));
    assert!(!suggestion_fits(&text(101), ""));
    assert!(!note_fits("", "", &text(65)));
    assert!(!note_fits(&text(4), &text(9), &text(65)));
    assert!(note_fits(&text(4), &text(9), &text(64)));
    assert!(note_fits("", "", ""));
    assert!(!request_fits("", &text(501)));
}

#[test]
fn error_messages() {
    assert_eq!(AppError::InvalidTitle.message(), "Invalid title length");
    assert_eq!(AppError::InvalidDescription.message(), "Invalid description length");
    assert_eq!(AppError::InvalidCategory.message(), "Invalid category value");
    assert_eq!(AppError::InvalidSubject.message(), "Invalid subject length");
    assert_eq!(AppError::InvalidIpfsHash.message(), "Invalid IPFS hash");
    assert_eq!(AppError::PdaMismatch.message(), "PDA mismatch");
    assert_eq!(AppError::Unauthorized.message(), "Unauthorized");
    assert_eq!(AppError::ClockUnavailable.message(), "Clock unavailable");
}
