use manuscript_echo::connection::Notice;
use manuscript_echo::endpoint::{
    health_check, HealthReply, HEALTHCHECK_PATH, LISTEN_IP, LISTEN_PORT, MANUSCRIPT_PATH,
};
use manuscript_echo::frame::{copy_bytes, template_text, CloseFrame, Frame};

#[test]
fn template_puts_the_prefix_before_the_text() {
    assert_eq!(template_text("hello"), "You sent: hello");
    assert_eq!(template_text(""), "You sent: ");
    assert_eq!(template_text("  spaced  "), "You sent:   spaced  ");
}

#[test]
fn template_adds_ten_characters() {
    let text = "größer";
    let reply = template_text(text);
    assert_eq!(reply.chars().count(), text.chars().count() + 10);
    assert!(reply.ends_with(text));
}

#[test]
fn different_texts_have_different_replies() {
    assert_ne!(template_text("a"), template_text("b"));
    assert_ne!(template_text(""), template_text(" "));
}

#[test]
fn copy_bytes_returns_the_same_bytes() {
    assert_eq!(copy_bytes(&vec![0x01, 0x02]), vec![0x01, 0x02]);
    assert_eq!(copy_bytes(&Vec::new()), Vec::<u8>::new());
    assert_eq!(copy_bytes(&vec![0, 255, 0, 255]), vec![0, 255, 0, 255]);
}

#[test]
fn reply_of_each_kind_of_frame() {
    assert_eq!(
        Frame::Text("hi".to_string()).reply(),
        Some(Frame::Text("You sent: hi".to_string()))
    );
    assert_eq!(Frame::Binary(vec![3, 4]).reply(), Some(Frame::Binary(vec![3, 4])));
    assert_eq!(Frame::Ping(vec![3, 4]).reply(), None);
    assert_eq!(Frame::Pong(vec![3, 4]).reply(), None);
    assert_eq!(Frame::Close(None).reply(), None);
    let close = Frame::Close(Some(CloseFrame { code: 1001, reason: "away".to_string() }));
    assert_eq!(close.reply(), None);
}

#[test]
fn notice_of_each_kind_of_frame() {
    assert_eq!(Frame::Text(String::new()).notice(), Notice::TextReceived);
    assert_eq!(Frame::Binary(Vec::new()).notice(), Notice::BinaryReceived);
    assert_eq!(Frame::Ping(Vec::new()).notice(), Notice::PingReceived);
    assert_eq!(Frame::Pong(Vec::new()).notice(), Notice::PongReceived);
    assert_eq!(Frame::Close(None).notice(), Notice::CloseReceived);
}

#[test]
fn only_a_close_frame_is_a_close() {
    assert!(Frame::Close(None).is_close());
    assert!(Frame::Close(Some(CloseFrame { code: 1000, reason: String::new() })).is_close());
    assert!(!Frame::Text("close".to_string()).is_close());
    assert!(!Frame::Binary(vec![0x88]).is_close());
    assert!(!Frame::Ping(Vec::new()).is_close());
    assert!(!Frame::Pong(Vec::new()).is_close());
}

#[test]
fn health_check_says_healthy() {
    assert_eq!(health_check(), HealthReply { status: 200, body: "healthy :D" });
}

#[test]
fn health_check_is_the_same_every_time() {
    let first = health_check();
    let mut conn = manuscript_echo::connection::Connection::new();
    conn.handle(&manuscript_echo::connection::Event::Received(Frame::Text("busy".to_string())));
    assert_eq!(health_check(), first);
    conn.handle(&manuscript_echo::connection::Event::Received(Frame::Close(None)));
    assert_eq!(health_check(), first);
}

#[test]
fn service_listens_on_loopback_port_9001() {
    assert_eq!(LISTEN_IP, [127, 0, 0, 1]);
    assert_eq!(LISTEN_PORT, 9001);
    assert_eq!(MANUSCRIPT_PATH, "/manuscript");
    assert_eq!(HEALTHCHECK_PATH, "/healthcheck");
}
