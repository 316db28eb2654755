use octopus_desktop::screenshot_result::{
    keeps_recognised_text, parse_pin_request, recognition_tabs, PinRequestError, ResultSlot,
};

fn pin_body(label: &[u8], geometry: [f64; 4], png: &[u8]) -> Vec<u8> {
    let mut body = Vec::new();
    body.extend_from_slice(&(label.len() as u32).to_be_bytes());
    body.extend_from_slice(label);
    for v in geometry {
        body.extend_from_slice(&v.to_be_bytes());
    }
    body.extend_from_slice(png);
    body
}

#[test]
fn pin_request_splits_label_geometry_and_image() {
    let body = pin_body(b"screenshot-3-0", [10.5, 20.0, 300.0, 150.25], &[0x89, b'P', b'N', b'G']);
    let req = parse_pin_request(&body).unwrap();
    assert_eq!(req.label, "screenshot-3-0");
    assert_eq!(f64::from_bits(req.x_bits), 10.5);
    assert_eq!(f64::from_bits(req.y_bits), 20.0);
    assert_eq!(f64::from_bits(req.w_bits), 300.0);
    assert_eq!(f64::from_bits(req.h_bits), 150.25);
    assert_eq!(req.png, vec![0x89, b'P', b'N', b'G']);
}

#[test]
fn pin_request_with_empty_label() {
    let body = pin_body(b"", [1.0, 2.0, 3.0, 4.0], &[7]);
    let req = parse_pin_request(&body).unwrap();
    assert_eq!(req.label, "");
    assert_eq!(f64::from_bits(req.h_bits), 4.0);
    assert_eq!(req.png, vec![7]);
}

#[test]
fn pin_request_too_short() {
    assert_eq!(parse_pin_request(&[0, 0, 1]), Err(PinRequestError::TooShort));
    assert_eq!(parse_pin_request(&[]), Err(PinRequestError::TooShort));
    assert_eq!(PinRequestError::TooShort.message(), "pin_screenshot body too short");
}

#[test]
fn pin_request_truncated_reports_sizes() {
    let mut body = pin_body(b"abc", [0.0; 4], &[]);
    body.truncate(20);
    let err = parse_pin_request(&body).unwrap_err();
    assert_eq!(err, PinRequestError::Truncated { need: 39, got: 20 });
    assert_eq!(err.message(), "pin_screenshot body truncated: need at least 39 bytes, got 20");
}

#[test]
fn pin_request_huge_label_length_is_truncated() {
    let body = vec![0xff, 0xff, 0xff, 0xff, 1, 2, 3];
    assert_eq!(
        parse_pin_request(&body),
        Err(PinRequestError::Truncated { need: 4 + 0xffff_ffff + 32, got: 7 })
    );
}

#[test]
fn pin_request_label_must_be_utf8() {
    let body = pin_body(&[0xc3, 0x28], [0.0; 4], &[1]);
    assert_eq!(parse_pin_request(&body), Err(PinRequestError::BadLabel));
    assert_eq!(PinRequestError::BadLabel.message(), "label UTF-8 decode failed");
}

#[test]
fn pin_request_needs_image_bytes() {
    let body = pin_body(b"w", [0.0; 4], &[]);
    assert_eq!(parse_pin_request(&body), Err(PinRequestError::MissingImage));
    assert_eq!(PinRequestError::MissingImage.message(), "pin_screenshot: missing PNG bytes");
}

#[test]
fn recognised_text_kept_only_when_not_blank() {
    assert!(keeps_recognised_text("hello"));
    assert!(keeps_recognised_text("  识别 \n"));
    assert!(!keeps_recognised_text(""));
    assert!(!keeps_recognised_text(" \t\r\n "));
}

#[test]
fn recognition_tabs_image_first() {
    assert_eq!(recognition_tabs(5, Some(6)), vec![5, 6]);
    assert_eq!(recognition_tabs(5, None), vec![5]);
}

#[test]
fn result_slot_hands_out_to_its_image_once() {
    let mut slot: ResultSlot<String> = ResultSlot::new();
    assert_eq!(slot.take_for(1), None);
    slot.put(7, "text".to_string());
    assert_eq!(slot.take_for(8), None);
    assert_eq!(slot.held, Some((7, "text".to_string())));
    assert_eq!(slot.take_for(7), Some("text".to_string()));
    assert_eq!(slot.take_for(7), None);
    assert_eq!(slot.held, None);
}

#[test]
fn result_slot_put_replaces() {
    let mut slot: ResultSlot<u32> = ResultSlot::new();
    slot.put(1, 10);
    slot.put(2, 20);
    assert_eq!(slot.take_for(1), None);
    assert_eq!(slot.take_for(2), Some(20));
}
