use voice_clipper::error::Error;

#[test]
fn each_error_has_its_message() {
    assert_eq!(Error::NoConnection.message(), "No connection to vc");
    assert_eq!(Error::CantConnect.message(), "Failed to connect");
    assert_eq!(Error::SkillIssue.message(), "Internal error");
}

#[test]
fn errors_compare_by_kind() {
    assert_eq!(Error::NoConnection, Error::NoConnection);
    assert_ne!(Error::NoConnection, Error::SkillIssue);
    assert_ne!(Error::CantConnect, Error::SkillIssue);
}

#[test]
fn codec_failures_are_internal_errors() {
    assert_eq!(Error::from(mp3lame_encoder::BuildError::BadBRate), Error::SkillIssue);
    assert_eq!(Error::from(mp3lame_encoder::BuildError::NoMem), Error::SkillIssue);
    assert_eq!(Error::from(mp3lame_encoder::EncodeError::BufferTooSmall), Error::SkillIssue);
    assert_eq!(Error::from(mp3lame_encoder::EncodeError::InvalidState), Error::SkillIssue);
}
