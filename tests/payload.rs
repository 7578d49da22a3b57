use flexispot_e7::error::DeskError;
use flexispot_e7::payload::ResponsePayload;

#[test]
fn height_text() {
    assert_eq!(ResponsePayload::Height(1050).to_text(), "1050");
    assert_eq!(ResponsePayload::Height(0).to_text(), "0");
    assert_eq!(ResponsePayload::Height(-25).to_text(), "-25");
    assert_eq!(ResponsePayload::from(905).to_text(), "905");
}

#[test]
fn message_text() {
    assert_eq!(ResponsePayload::from_message("ok").to_text(), "ok");
}

#[test]
fn error_messages() {
    assert_eq!(ResponsePayload::from_error(DeskError::HeightEmpty).to_text(), "height is empty");
    assert_eq!(ResponsePayload::from_error(DeskError::DisplayEmpty).to_text(), "Display empty");
    assert_eq!(DeskError::TransportFailure.message(), "serial line failure");
}
