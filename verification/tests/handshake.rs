use rfb::handshake::{
    handshake_start, handshake_step, security_outcome, HandshakePhase, SecurityOutcome,
};
use rfb::server_message::{
    challenge_message, protocol_version_message, security_ok_message, security_types_message,
    server_init_message,
};

fn run(choice: u8) -> (Vec<u8>, Vec<HandshakePhase>) {
    let (mut phase, first) = handshake_start();
    let mut written = first.write.clone();
    let mut phases = vec![phase];
    let mut read = first.read;
    while phase != HandshakePhase::Ready {
        let reply: Vec<u8> = if phase == HandshakePhase::SecurityChoice {
            vec![choice]
        } else {
            vec![0xAB; read]
        };
        assert_eq!(reply.len(), read);
        let (next, ex) = handshake_step(phase, &reply);
        written.extend_from_slice(&ex.write);
        read = ex.read;
        phase = next;
        phases.push(phase);
    }
    (written, phases)
}

#[test]
fn start_offers_the_version() {
    let (phase, ex) = handshake_start();
    assert_eq!(phase, HandshakePhase::VersionReply);
    assert_eq!(ex.write, protocol_version_message());
    assert!(ex.flush);
    assert_eq!(ex.read, 12);
}

#[test]
fn security_outcomes() {
    assert_eq!(security_outcome(1), SecurityOutcome::NoAuthentication);
    assert_eq!(security_outcome(2), SecurityOutcome::VncAuthentication);
    assert_eq!(security_outcome(0), SecurityOutcome::Unsupported);
    assert_eq!(security_outcome(16), SecurityOutcome::Unsupported);
}

#[test]
fn handshake_without_authentication() {
    let (written, phases) = run(1);
    let mut expected = protocol_version_message();
    expected.extend(security_types_message());
    expected.extend(security_ok_message());
    expected.extend(server_init_message());
    assert_eq!(written, expected);
    assert_eq!(
        phases,
        vec![
            HandshakePhase::VersionReply,
            HandshakePhase::SecurityChoice,
            HandshakePhase::ClientInit,
            HandshakePhase::Ready
        ]
    );
}

#[test]
fn handshake_with_vnc_authentication() {
    let (written, phases) = run(2);
    let mut expected = protocol_version_message();
    expected.extend(security_types_message());
    expected.extend(challenge_message());
    expected.extend(security_ok_message());
    expected.extend(server_init_message());
    assert_eq!(written, expected);
    assert_eq!(phases.len(), 5);
    assert_eq!(phases[2], HandshakePhase::ChallengeResponse);
}

#[test]
fn handshake_with_unsupported_type_goes_on() {
    let (written, phases) = run(16);
    let mut expected = protocol_version_message();
    expected.extend(security_types_message());
    expected.extend(server_init_message());
    assert_eq!(written, expected);
    assert_eq!(phases.len(), 4);
}

#[test]
fn step_details() {
    let (p, ex) = handshake_step(HandshakePhase::VersionReply, &[0u8; 12]);
    assert_eq!(p, HandshakePhase::SecurityChoice);
    assert!(!ex.flush);
    assert_eq!(ex.read, 1);
    let (p, ex) = handshake_step(HandshakePhase::SecurityChoice, &[2]);
    assert_eq!(p, HandshakePhase::ChallengeResponse);
    assert!(!ex.flush);
    assert_eq!(ex.read, 16);
    let (p, ex) = handshake_step(HandshakePhase::ChallengeResponse, &[0u8; 16]);
    assert_eq!(p, HandshakePhase::ClientInit);
    assert!(ex.flush);
    assert_eq!(ex.write, vec![0u8, 0, 0, 0]);
    let (p, ex) = handshake_step(HandshakePhase::ClientInit, &[1]);
    assert_eq!(p, HandshakePhase::Ready);
    assert!(ex.flush);
    assert_eq!(ex.read, 0);
    let (p, ex) = handshake_step(HandshakePhase::Ready, &[]);
    assert_eq!(p, HandshakePhase::Ready);
    assert!(ex.write.is_empty());
}
