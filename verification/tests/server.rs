use rfb::server::{RfbServer, RfbServerBuilder};

#[test]
fn builder_defaults() {
    let b = RfbServerBuilder::new();
    assert_eq!(b.host(), "0.0.0.0");
    assert_eq!(b.configured_port(), 0);
    let s = b.build();
    assert_eq!((s.width(), s.height(), s.depth()), (640, 480, 32));
}

#[test]
fn port_is_set_and_does_not_change_the_server() {
    let b = RfbServerBuilder::new().port(5900);
    assert_eq!(b.configured_port(), 5900);
    let b = b.port(5901);
    assert_eq!(b.configured_port(), 5901);
    let s = b.build();
    assert_eq!((s.width(), s.height(), s.depth()), (640, 480, 32));
}

#[test]
fn server_new_keeps_its_arguments() {
    let s = RfbServer::new(1024, 768, 24);
    assert_eq!((s.width(), s.height(), s.depth()), (1024, 768, 24));
}
