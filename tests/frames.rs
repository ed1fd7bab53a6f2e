use nos::event::UnsignedEvent;
use nos::filter::Filter;
use nos::frames::{event_message, req_message};
use nos::keys::Keypair;

#[test]
fn event_frame_wraps_wire_form() {
    let kp = Keypair::from_secret_bytes(&[1u8; 32]).unwrap();
    let ev = UnsignedEvent::text_note("hi".to_string(), 5).sign(&kp);
    let frame = String::from_utf8(event_message(&ev)).unwrap();
    let body = String::from_utf8(ev.serialize()).unwrap();
    assert_eq!(frame, format!("[\"EVENT\",{}]", body));
}

#[test]
fn req_frame_lists_present_constraints() {
    let f = Filter { ids: None, authors: Some(vec![vec![0xab, 0x01]]), kinds: Some(vec![1, 7]), since: Some(5), until: None };
    let frame = String::from_utf8(req_message("sub1", &f)).unwrap();
    assert_eq!(frame, "[\"REQ\",\"sub1\",{\"authors\":[\"ab01\"],\"kinds\":[1,7],\"since\":5}]");
    let frame = String::from_utf8(req_message("s", &Filter::any())).unwrap();
    assert_eq!(frame, "[\"REQ\",\"s\",{}]");
    let f = Filter { ids: Some(vec![vec![0xff], vec![0x00]]), authors: None, kinds: Some(vec![]), since: None, until: Some(1700000000) };
    let frame = String::from_utf8(req_message("x", &f)).unwrap();
    assert_eq!(frame, "[\"REQ\",\"x\",{\"ids\":[\"ff\",\"00\"],\"kinds\":[],\"until\":1700000000}]");
}
