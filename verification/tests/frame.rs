use exec_agent::frame::{looks_complete, FrameStatus, Framer, READ_CHUNK};

const REGRESSION: &str = "{\"language\":\"python\",\"code\":\"d={}\\nprint(d)\",\"filename\":\"a.py\"}";

#[test]
fn a_closed_object_looks_complete() {
    assert!(looks_complete(b"{}"));
    assert!(looks_complete(b"{\"language\":\"python\"}"));
    assert!(looks_complete(b"  {\"a\":1}\n\n"));
    assert!(looks_complete("{\"a\":\"é\"}\u{3000}".as_bytes()));
}

#[test]
fn an_open_object_does_not_look_complete() {
    assert!(!looks_complete(b""));
    assert!(!looks_complete(b"   "));
    assert!(!looks_complete(b"{\"language\":\"pyth"));
    assert!(!looks_complete(b"{\"a\":{"));
    assert!(!looks_complete(b"{}]"));
}

#[test]
fn the_shape_before_the_end_does_not_matter() {
    assert!(looks_complete(b"not json at all }"));
    assert!(looks_complete(b"}"));
}

#[test]
fn bytes_that_are_not_utf8_do_not_look_complete() {
    assert!(!looks_complete(&[0xFF, b'}']));
    assert!(!looks_complete(&[b'{', 0xC3, b'}']));
    assert!(!looks_complete(&[b'{', b'}', 0xE2, 0x82]));
    assert!(!looks_complete(&[0xED, 0xA0, 0x80, b'}']));
    assert!(!looks_complete(&[0xC0, 0xAF, b'}']));
}

#[test]
fn the_read_size_is_one_kibibyte() {
    assert_eq!(READ_CHUNK, 1024);
}

#[test]
fn a_new_framer_holds_nothing() {
    let framer = Framer::new();
    assert!(framer.bytes().is_empty());
}

#[test]
fn a_message_in_one_read_is_framed_whole() {
    let mut framer = Framer::new();
    assert_eq!(framer.accept(REGRESSION.as_bytes()), FrameStatus::Complete);
    assert_eq!(framer.bytes(), REGRESSION.as_bytes());
}

#[test]
fn code_with_a_closing_brace_is_read_in_full() {
    let bytes = REGRESSION.as_bytes();
    let cut = REGRESSION.find("print").unwrap();
    let mut framer = Framer::new();
    assert_eq!(framer.accept(&bytes[..cut]), FrameStatus::Incomplete);
    assert_eq!(framer.accept(&bytes[cut..]), FrameStatus::Complete);
    assert_eq!(framer.bytes(), bytes);
}

#[test]
fn code_with_a_closing_brace_is_read_in_full_byte_by_byte_after_the_brace() {
    let bytes = REGRESSION.as_bytes();
    let brace = REGRESSION.find("{}").unwrap() + 2;
    let mut framer = Framer::new();
    assert_eq!(framer.accept(&bytes[..brace + 1]), FrameStatus::Incomplete);
    let mut at = brace + 1;
    while at < bytes.len() - 1 {
        assert_eq!(framer.accept(&bytes[at..at + 1]), FrameStatus::Incomplete, "byte {}", at);
        at += 1;
    }
    assert_eq!(framer.accept(&bytes[at..]), FrameStatus::Complete);
    assert_eq!(framer.bytes(), bytes);
}

#[test]
fn a_read_that_ends_on_an_inner_brace_ends_the_message() {
    let bytes = REGRESSION.as_bytes();
    let brace = REGRESSION.find("{}").unwrap() + 2;
    let mut framer = Framer::new();
    assert_eq!(framer.accept(&bytes[..brace]), FrameStatus::Complete);
    assert_eq!(framer.bytes(), &bytes[..brace]);
}

#[test]
fn an_empty_read_ends_the_message_whatever_its_shape() {
    let mut framer = Framer::new();
    assert_eq!(framer.accept(b"{\"language\":"), FrameStatus::Incomplete);
    assert_eq!(framer.accept(b""), FrameStatus::Complete);
    assert_eq!(framer.bytes(), b"{\"language\":");
}

#[test]
fn an_empty_first_read_ends_an_empty_message() {
    let mut framer = Framer::new();
    assert_eq!(framer.accept(b""), FrameStatus::Complete);
    assert!(framer.bytes().is_empty());
}

#[test]
fn a_character_split_between_reads_is_put_together() {
    let text = "{\"code\":\"é\"}";
    let bytes = text.as_bytes();
    let cut = text.find('é').unwrap() + 1;
    let mut framer = Framer::new();
    assert_eq!(framer.accept(&bytes[..cut]), FrameStatus::Incomplete);
    assert_eq!(framer.accept(&bytes[cut..]), FrameStatus::Complete);
    assert_eq!(framer.bytes(), bytes);
}

#[test]
fn trailing_white_space_after_the_brace_still_ends_the_message() {
    let mut framer = Framer::new();
    assert_eq!(framer.accept(b"{\"a\":"), FrameStatus::Incomplete);
    assert_eq!(framer.accept(b"1}\r\n"), FrameStatus::Complete);
    assert_eq!(framer.bytes(), b"{\"a\":1}\r\n");
}

#[test]
fn a_long_message_takes_several_reads() {
    let code = "x".repeat(3000);
    let message = format!("{{\"language\":\"c\",\"code\":\"{}\",\"filename\":\"t.c\"}}", code);
    let bytes = message.as_bytes();
    let mut framer = Framer::new();
    let mut at = 0;
    let mut reads = 0;
    loop {
        let end = (at + READ_CHUNK).min(bytes.len());
        let status = framer.accept(&bytes[at..end]);
        reads += 1;
        at = end;
        if status == FrameStatus::Complete {
            break;
        }
    }
    assert_eq!(reads, 3);
    assert_eq!(framer.bytes(), bytes);
}
