use ucp_client::HttpStatus;

#[test]
fn status_has_three_digits() {
    assert!(HttpStatus::from_u16(0).is_none());
    assert!(HttpStatus::from_u16(99).is_none());
    assert!(HttpStatus::from_u16(100).is_some());
    assert!(HttpStatus::from_u16(999).is_some());
    assert!(HttpStatus::from_u16(1000).is_none());
    assert!(HttpStatus::from_u16(u16::MAX).is_none());
}

#[test]
fn status_keeps_its_number() {
    assert_eq!(HttpStatus::from_u16(418).unwrap().as_u16(), 418);
}

#[test]
fn success_is_the_range_from_200_to_299() {
    assert!(!HttpStatus::from_u16(199).unwrap().is_success());
    assert!(HttpStatus::from_u16(200).unwrap().is_success());
    assert!(HttpStatus::from_u16(299).unwrap().is_success());
    assert!(!HttpStatus::from_u16(300).unwrap().is_success());
}

#[test]
fn status_text_has_number_and_reason() {
    assert_eq!(HttpStatus::from_u16(200).unwrap().to_text(), "200 OK");
    assert_eq!(HttpStatus::from_u16(404).unwrap().to_text(), "404 Not Found");
    assert_eq!(HttpStatus::from_u16(429).unwrap().to_text(), "429 Too Many Requests");
}

#[test]
fn status_text_starts_with_the_digits_of_the_number() {
    for code in 100..=999u16 {
        let text = HttpStatus::from_u16(code).unwrap().to_text();
        assert!(text.len() > 4);
        assert_eq!(&text[..3], format!("{:03}", code));
        assert_eq!(&text[3..4], " ");
    }
}
