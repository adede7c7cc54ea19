use crate::server_message::{
    challenge_bytes, challenge_message, protocol_version_bytes, protocol_version_message,
    security_ok_bytes, security_ok_message, security_types_bytes, security_types_message,
    server_init_bytes, server_init_message, CHALLENGE_REPLY_LEN, VERSION_REPLY_LEN,
};
use vstd::prelude::*;

verus! {

/// Where a connection stands in the opening handshake: what the server waits
/// for next.
#[derive(Debug, Clone, Copy, PartialEq, Eq, Structural)]
pub enum HandshakePhase {
    /// The client's protocol version (12 bytes).
    VersionReply,
    /// The security type the client picked (1 byte).
    SecurityChoice,
    /// The client's answer to the challenge (16 bytes).
    ChallengeResponse,
    /// ClientInit, the shared-desktop flag (1 byte).
    ClientInit,
    /// Nothing: the handshake is over and the session may start.
    Ready,
}

/// What the security type the client picked leads to.
#[derive(Debug, Clone, Copy, PartialEq, Eq, Structural)]
pub enum SecurityOutcome {
    /// Type 1: no authentication; success is reported at once.
    NoAuthentication,
    /// Type 2: VNC authentication; a challenge is sent and any answer accepted.
    VncAuthentication,
    /// Any other type: nothing is sent and the handshake goes on.
    Unsupported,
}

/// One exchange with the client: write `write` (flushing afterwards when
/// `flush`), then read exactly `read` bytes.
pub struct Exchange {
    pub write: Vec<u8>,
    pub flush: bool,
    pub read: usize,
}

/// The mathematical value of an [`Exchange`].
pub struct ExchangeModel {
    pub write: Seq<u8>,
    pub flush: bool,
    pub read: nat,
}

impl View for Exchange {
    type V = ExchangeModel;

    open spec fn view(&self) -> ExchangeModel {
        ExchangeModel { write: self.write@, flush: self.flush, read: self.read as nat }
    }
}

/// The exchange that writes `write`, flushes when `flush` and reads `read` bytes.
pub open spec fn exchange(write: Seq<u8>, flush: bool, read: nat) -> ExchangeModel {
    ExchangeModel { write, flush, read }
}

/// How many bytes the server reads from the client in `phase`.
pub open spec fn reply_len(phase: HandshakePhase) -> nat {
    match phase {
        HandshakePhase::VersionReply => VERSION_REPLY_LEN as nat,
        HandshakePhase::SecurityChoice => 1,
        HandshakePhase::ChallengeResponse => CHALLENGE_REPLY_LEN as nat,
        HandshakePhase::ClientInit => 1,
        HandshakePhase::Ready => 0,
    }
}

/// What the security type `code` leads to.
pub open spec fn security_outcome_spec(code: u8) -> SecurityOutcome {
    if code == 1 {
        SecurityOutcome::NoAuthentication
    } else if code == 2 {
        SecurityOutcome::VncAuthentication
    } else {
        SecurityOutcome::Unsupported
    }
}

/// The first exchange: offer the protocol version, flush, read the client's.
pub open spec fn handshake_start_spec() -> (HandshakePhase, ExchangeModel) {
    (
        HandshakePhase::VersionReply,
        exchange(protocol_version_bytes(), true, VERSION_REPLY_LEN as nat),
    )
}

/// The phase and exchange that follow `received` in `phase`.
pub open spec fn handshake_next(phase: HandshakePhase, received: Seq<u8>) -> (
    HandshakePhase,
    ExchangeModel,
) {
    match phase {
        HandshakePhase::VersionReply => (
            HandshakePhase::SecurityChoice,
            exchange(security_types_bytes(), false, 1),
        ),
        HandshakePhase::SecurityChoice => match security_outcome_spec(received[0]) {
            SecurityOutcome::NoAuthentication => (
                HandshakePhase::ClientInit,
                exchange(security_ok_bytes(), true, 1),
            ),
            SecurityOutcome::VncAuthentication => (
                HandshakePhase::ChallengeResponse,
                exchange(challenge_bytes(), false, CHALLENGE_REPLY_LEN as nat),
            ),
            SecurityOutcome::Unsupported => (
                HandshakePhase::ClientInit,
                exchange(Seq::empty(), false, 1),
            ),
        },
        HandshakePhase::ChallengeResponse => (
            HandshakePhase::ClientInit,
            exchange(security_ok_bytes(), true, 1),
        ),
        HandshakePhase::ClientInit => (HandshakePhase::Ready, exchange(server_init_bytes(), true, 0)),
        HandshakePhase::Ready => (HandshakePhase::Ready, exchange(Seq::empty(), false, 0)),
    }
}

/// What the security type `code` leads to.
pub fn security_outcome(code: u8) -> (o: SecurityOutcome)
    ensures
        o == security_outcome_spec(code),
{
    if code == 1 {
        SecurityOutcome::NoAuthentication
    } else if code == 2 {
        SecurityOutcome::VncAuthentication
    } else {
        SecurityOutcome::Unsupported
    }
}

/// Opens the handshake of a new connection.
pub fn handshake_start() -> (r: (HandshakePhase, Exchange))
    ensures
        (r.0, r.1@) == handshake_start_spec(),
{
    (
        HandshakePhase::VersionReply,
        Exchange { write: protocol_version_message(), flush: true, read: VERSION_REPLY_LEN },
    )
}

/// Moves the handshake on once the bytes asked for in `phase` have arrived.
pub fn handshake_step(phase: HandshakePhase, received: &[u8]) -> (r: (HandshakePhase, Exchange))
    requires
        received@.len() == reply_len(phase),
    ensures
        (r.0, r.1@) == handshake_next(phase, received@),
        r.1.read as nat == reply_len(r.0),
{
    match phase {
        HandshakePhase::VersionReply => (
            HandshakePhase::SecurityChoice,
            Exchange { write: security_types_message(), flush: false, read: 1 },
        ),
        HandshakePhase::SecurityChoice => match security_outcome(received[0]) {
            SecurityOutcome::NoAuthentication => (
                HandshakePhase::ClientInit,
                Exchange { write: security_ok_message(), flush: true, read: 1 },
            ),
            SecurityOutcome::VncAuthentication => (
                HandshakePhase::ChallengeResponse,
                Exchange { write: challenge_message(), flush: false, read: CHALLENGE_REPLY_LEN },
            ),
            SecurityOutcome::Unsupported => {
                let write: Vec<u8> = Vec::new();
                (HandshakePhase::ClientInit, Exchange { write, flush: false, read: 1 })
            },
        },
        HandshakePhase::ChallengeResponse => (
            HandshakePhase::ClientInit,
            Exchange { write: security_ok_message(), flush: true, read: 1 },
        ),
        HandshakePhase::ClientInit => (
            HandshakePhase::Ready,
            Exchange { write: server_init_message(), flush: true, read: 0 },
        ),
        HandshakePhase::Ready => {
            let write: Vec<u8> = Vec::new();
            (HandshakePhase::Ready, Exchange { write, flush: false, read: 0 })
        },
    }
}

/// How far `phase` stands from the end of the handshake.
pub open spec fn phases_left(phase: HandshakePhase) -> nat {
    match phase {
        HandshakePhase::VersionReply => 4,
        HandshakePhase::SecurityChoice => 3,
        HandshakePhase::ChallengeResponse => 2,
        HandshakePhase::ClientInit => 1,
        HandshakePhase::Ready => 0,
    }
}

/// Runs the handshake from `phase` on the successive replies `replies`: the
/// phase reached and every byte written on the way.
pub open spec fn drive(phase: HandshakePhase, replies: Seq<Seq<u8>>) -> (HandshakePhase, Seq<u8>)
    decreases replies.len(),
{
    if replies.len() == 0 {
        (phase, Seq::empty())
    } else {
        let (next, ex) = handshake_next(phase, replies[0]);
        let (last, written) = drive(next, replies.drop_first());
        (last, ex.write + written)
    }
}

/// What the server writes, after the security types, for the security type `code`.
pub open spec fn security_transcript(code: u8) -> Seq<u8> {
    match security_outcome_spec(code) {
        SecurityOutcome::NoAuthentication => security_ok_bytes(),
        SecurityOutcome::VncAuthentication => challenge_bytes() + security_ok_bytes(),
        SecurityOutcome::Unsupported => Seq::empty(),
    }
}

/// The replies a client gives through a whole handshake when it picks `code`.
pub open spec fn client_replies(
    version: Seq<u8>,
    code: u8,
    response: Seq<u8>,
    shared: u8,
) -> Seq<Seq<u8>> {
    if security_outcome_spec(code) == SecurityOutcome::VncAuthentication {
        seq![version, seq![code], response, seq![shared]]
    } else {
        seq![version, seq![code], seq![shared]]
    }
}

/// Every step of the handshake brings it closer to its end, and a finished
/// handshake stays finished.
pub proof fn lemma_handshake_progress(phase: HandshakePhase, received: Seq<u8>)
    requires
        received.len() == reply_len(phase),
    ensures
        phase != HandshakePhase::Ready ==> phases_left(handshake_next(phase, received).0)
            < phases_left(phase),
        phase == HandshakePhase::Ready ==> handshake_next(phase, received).0
            == HandshakePhase::Ready,
{
}

/// Whatever security type the client picks, the handshake ends ready for the
/// session, having written the security types, what that type calls for, and
/// ServerInit last; the protocol version goes before all of it.
pub proof fn lemma_handshake_completes(version: Seq<u8>, code: u8, response: Seq<u8>, shared: u8)
    requires
        version.len() == VERSION_REPLY_LEN,
        response.len() == CHALLENGE_REPLY_LEN,
    ensures
        handshake_start_spec().1.write == protocol_version_bytes(),
        drive(handshake_start_spec().0, client_replies(version, code, response, shared)) == (
            HandshakePhase::Ready,
            security_types_bytes() + security_transcript(code) + server_init_bytes(),
        ),
{
    let replies = client_replies(version, code, response, shared);
    reveal_with_fuel(drive, 5);
    if security_outcome_spec(code) == SecurityOutcome::VncAuthentication {
        assert(replies.drop_first()[0] == seq![code]);
        assert(replies.drop_first().drop_first()[0] == response);
        assert(replies.drop_first().drop_first().drop_first()[0] == seq![shared]);
        assert(replies.drop_first().drop_first().drop_first().drop_first().len() == 0);
        assert(security_types_bytes() + (challenge_bytes() + (security_ok_bytes() + (
        server_init_bytes() + Seq::empty()))) =~= security_types_bytes() + (challenge_bytes()
            + security_ok_bytes()) + server_init_bytes());
    } else {
        assert(replies.drop_first()[0] == seq![code]);
        assert(replies.drop_first().drop_first()[0] == seq![shared]);
        assert(replies.drop_first().drop_first().drop_first().len() == 0);
        assert(security_types_bytes() + (security_transcript(code) + (server_init_bytes()
            + Seq::empty())) =~= security_types_bytes() + security_transcript(code)
            + server_init_bytes());
    }
}


/// A step flushes exactly when it writes a SecurityResult or ServerInit: the
/// success result is flushed on the path without authentication as on the path
/// with it, while the security types and the challenge wait for the next flush.
/// The very first exchange, the protocol version, is flushed too.
pub proof fn lemma_flushes(phase: HandshakePhase, received: Seq<u8>)
    requires
        received.len() == reply_len(phase),
    ensures
        handshake_start_spec().1.flush,
        handshake_next(phase, received).1.flush <==> (handshake_next(phase, received).1.write
            == security_ok_bytes() || handshake_next(phase, received).1.write == server_init_bytes()),
{
    assert(security_ok_bytes().len() == 4);
    assert(server_init_bytes().len() == 24);
    assert(security_types_bytes().len() == 3);
    assert(challenge_bytes().len() == 16);
}

/// The client's choice of security type decides the next exchange: type 1
/// gets the success result at once, flushed, then ClientInit is read; type 2
/// gets the sixteen-byte challenge and its answer is read; any other type gets
/// nothing and ClientInit is read.
pub proof fn lemma_security_choice(code: u8)
    ensures
        code == 1 ==> handshake_next(HandshakePhase::SecurityChoice, seq![code]) == (
            HandshakePhase::ClientInit,
            exchange(seq![0u8, 0, 0, 0], true, 1),
        ),
        code == 2 ==> handshake_next(HandshakePhase::SecurityChoice, seq![code]) == (
            HandshakePhase::ChallengeResponse,
            exchange(challenge_bytes(), false, 16),
        ),
        code != 1 && code != 2 ==> handshake_next(HandshakePhase::SecurityChoice, seq![code]) == (
            HandshakePhase::ClientInit,
            exchange(Seq::empty(), false, 1),
        ),
{
    assert(seq![code][0] == code);
    assert(security_ok_bytes() =~= seq![0u8, 0, 0, 0]);
}

/// Whatever the client answers to the challenge, the success result follows,
/// flushed, and ClientInit is read; after ClientInit, ServerInit is written,
/// flushed, and nothing more is read.
pub proof fn lemma_challenge_and_init(answer: Seq<u8>, shared: Seq<u8>)
    requires
        answer.len() == 16,
        shared.len() == 1,
    ensures
        handshake_next(HandshakePhase::ChallengeResponse, answer) == (
            HandshakePhase::ClientInit,
            exchange(seq![0u8, 0, 0, 0], true, 1),
        ),
        handshake_next(HandshakePhase::ClientInit, shared) == (
            HandshakePhase::Ready,
            exchange(server_init_bytes(), true, 0),
        ),
{
    assert(security_ok_bytes() =~= seq![0u8, 0, 0, 0]);
}

/// The server reads twelve bytes of version, one byte of security type,
/// sixteen bytes of challenge answer and one byte of ClientInit, and nothing
/// once ready; the challenge is the bytes 1 to 16.
pub proof fn lemma_read_sizes()
    ensures
        handshake_start_spec().1.read == 12,
        reply_len(HandshakePhase::VersionReply) == 12,
        reply_len(HandshakePhase::SecurityChoice) == 1,
        reply_len(HandshakePhase::ChallengeResponse) == 16,
        reply_len(HandshakePhase::ClientInit) == 1,
        reply_len(HandshakePhase::Ready) == 0,
        challenge_bytes().len() == 16,
        forall|i: int| 0 <= i < 16 ==> #[trigger] challenge_bytes()[i] == i + 1,
{
}

} // verus!
