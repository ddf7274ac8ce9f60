use nuba::message::{Message, MessageType};

#[test]
fn valid_buf() {
    let buf: Vec<u8> = "CMD /read/file /usr/share/file1".as_bytes().to_vec();

    let message = Message::from_buf(buf);
    assert!(&message.is_ok());
    assert_eq!(&message.as_ref().unwrap().message_type(), &MessageType::CMD);
    assert_eq!(&message.as_ref().unwrap().body(), &"/read/file");
    assert_eq!(&message.as_ref().unwrap().options(), &"/usr/share/file1");
}

#[test]
fn valid_buf_with_opts() {
    let buf: Vec<u8> = "CMD /read/file".as_bytes().to_vec();

    let message = Message::from_buf(buf);
    assert!(&message.is_ok());
    assert_eq!(&message.as_ref().unwrap().message_type(), &MessageType::CMD);
    assert_eq!(&message.as_ref().unwrap().body(), &"/read/file");
    assert_eq!(&message.as_ref().unwrap().options(), &"");
}

#[test]
fn invalid_type() {
    let buf: Vec<u8> = "CM /read/file /usr/share/file1".as_bytes().to_vec();

    let message = Message::from_buf(buf);
    assert!(&message.is_err());
}

#[test]
fn invalid_type2() {
    let buf: Vec<u8> = "CMDD /read/file /usr/share/file1".as_bytes().to_vec();

    let message = Message::from_buf(buf);
    assert!(&message.is_err());
}

#[test]
fn test_message_type() {
    println!("{:?}", Message::get_message_type("").unwrap());
    println!("{:?}", Message::get_message_type("BUF").unwrap());
    println!("{:?}", Message::get_message_type("CMD").unwrap());
    assert_eq!(Message::get_message_type(""), Some(MessageType::NONE));
    assert_eq!(Message::get_message_type("BUF"), Some(MessageType::BUF));
    assert_eq!(Message::get_message_type("CMD"), Some(MessageType::CMD));
    assert_eq!(Message::get_message_type("NONE"), None);
}

#[test]
fn new_message_is_empty() {
    let m = Message::new();
    assert_eq!(m.message_type(), MessageType::NONE);
    assert_eq!(m.body(), "");
    assert_eq!(m.options(), "");
}

#[test]
fn buf_message_type() {
    let m = Message::from_buf(b"BUF payload x".to_vec()).unwrap();
    assert_eq!(m.message_type(), MessageType::BUF);
    assert_eq!(m.body(), "payload");
    assert_eq!(m.options(), "x");
}

#[test]
fn short_buffer_is_refused() {
    assert!(Message::from_buf(b"CMD /a".to_vec()).is_ok());
    assert!(Message::from_buf(b"CMD /".to_vec()).is_err());
    assert!(Message::from_buf(Vec::new()).is_err());
}

#[test]
fn missing_space_is_refused() {
    let e = Message::from_buf(b"CMD\t/read/file".to_vec()).err().unwrap();
    assert_eq!(e.msg, "Invalid message buffer");
}

#[test]
fn body_ends_at_any_ascii_whitespace() {
    let m = Message::from_buf(b"CMD /read\nrest of it".to_vec()).unwrap();
    assert_eq!(m.body(), "/read");
    assert_eq!(m.options(), "rest of it");
}

#[test]
fn non_utf8_body_is_accepted() {
    let m = Message::from_buf(vec![b'C', b'M', b'D', b' ', 0xff, 0xfe, 0xfd]).unwrap();
    assert_eq!(m.message_type(), MessageType::CMD);
}
