use mpesa::parameters::{decimal_string, MpesaRequestError, ResponseCodes};

#[test]
fn response_codes_render() {
    assert_eq!(ResponseCodes::SuccessC2B.to_string(), "0");
    assert_eq!(ResponseCodes::SuccessNotC2B.to_string(), "00000000");
    assert_eq!(ResponseCodes::RejectTranscation.to_string(), "1");
}

#[test]
fn request_errors_render_with_status() {
    assert_eq!(MpesaRequestError::NotFound.to_string(), "Error 404: Not Found");
    assert_eq!(MpesaRequestError::NotFound.status(), 404);
    assert_eq!(MpesaRequestError::TooManyRequests.status(), 429);
    assert_eq!(MpesaRequestError::ServiceUnavailable.status(), 503);
    assert!(MpesaRequestError::InternalServerError.to_string().starts_with("Error 500"));
}

#[test]
fn decimal_rendering() {
    assert_eq!(decimal_string(0), "0");
    assert_eq!(decimal_string(9), "9");
    assert_eq!(decimal_string(10), "10");
    assert_eq!(decimal_string(99), "99");
    assert_eq!(decimal_string(100), "100");
    assert_eq!(decimal_string(255), "255");
}
