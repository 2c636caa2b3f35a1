use direnv_status::{AllowStatus, ParseError};

#[test]
fn codes_zero_one_two() {
    assert_eq!(AllowStatus::try_from(0), Ok(AllowStatus::Allowed));
    assert_eq!(AllowStatus::try_from(1), Ok(AllowStatus::NotAllowed));
    assert_eq!(AllowStatus::try_from(2), Ok(AllowStatus::Denied));
}

#[test]
fn every_other_code_is_an_error() {
    for u in 3..=255u8 {
        assert_eq!(AllowStatus::try_from(u), Err(ParseError::UnknownIntegerAllowStatus));
    }
}

#[test]
fn tokens() {
    assert_eq!(AllowStatus::from_str("0"), Ok(AllowStatus::Allowed));
    assert_eq!(AllowStatus::from_str("true"), Ok(AllowStatus::Allowed));
    assert_eq!(AllowStatus::from_str("1"), Ok(AllowStatus::NotAllowed));
    assert_eq!(AllowStatus::from_str("2"), Ok(AllowStatus::Denied));
    assert_eq!(AllowStatus::from_str("false"), Ok(AllowStatus::Denied));
}

#[test]
fn every_other_token_is_an_error() {
    for t in ["", "3", "-1", "00", "True", "TRUE", "yes", " 0", "0 ", "allowed", "denied", "01"] {
        assert_eq!(AllowStatus::from_str(t), Err(ParseError::InvalidAllowStatus), "{:?}", t);
    }
}

#[test]
fn codes_and_tokens_agree() {
    for u in 0..=2u8 {
        assert_eq!(AllowStatus::try_from(u), AllowStatus::from_str(&u.to_string()));
    }
}

#[test]
fn error_messages() {
    assert_eq!(ParseError::UnknownState.message(), "unknown direnv state");
    assert_eq!(ParseError::InvalidAllowStatus.message(), "invalid allow status");
    assert_eq!(
        ParseError::UnknownIntegerAllowStatus.message(),
        "unknown integer allow status"
    );
}
