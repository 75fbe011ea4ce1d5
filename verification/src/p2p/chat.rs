//! The Noise-secured text chat between two peers.
//!
//! A session runs the three-message `Noise_XX_25519_ChaChaPoly_BLAKE2s`
//! handshake, then switches Noise into transport mode and exchanges chat
//! lines in both directions. The session decides what happens at every step
//! and performs the Noise computations; the caller moves the bytes over the
//! stream: it sends what a write step hands back and feeds in what it reads.

use vstd::prelude::*;
use vstd::slice::slice_to_vec;
use vstd::utf8::{decode_utf8, encode_utf8, valid_utf8};

verus! {

#[verifier::external_type_specification]
#[verifier::external_body]
pub struct ExHandshakeState(snow::HandshakeState);

#[verifier::external_type_specification]
#[verifier::external_body]
pub struct ExNoiseError(snow::Error);

#[verifier::external_type_specification]
#[verifier::external_body]
pub struct ExTransportState(snow::TransportState);

/// The Noise protocol name used by every session.
pub const NOISE_PATTERN: &'static str = "Noise_XX_25519_ChaChaPoly_BLAKE2s";

/// Size of the buffer that outgoing Noise messages are written into; it is
/// also the largest message the Noise protocol allows.
pub const MAX_MESSAGE_LEN: usize = 65535;

/// Length of the authentication tag that Noise adds to every encrypted message.
pub const TAG_LEN: usize = 16;

/// Which side of the conversation a session plays.
#[derive(Clone, Copy, Debug, PartialEq, Eq, Structural)]
pub enum Role {
    /// Connects, sends the first handshake message and then sends chat lines.
    Initiator,
    /// Accepts, answers the handshake and then receives chat lines.
    Responder,
}

/// One step of the handshake as the session performs it.
#[derive(Clone, Copy, Debug, PartialEq, Eq, Structural)]
pub enum HandshakeStep {
    /// Produce a handshake message and send it.
    Write,
    /// Read a handshake message from the peer and process it.
    Read,
}

/// What a session makes of bytes read from the peer after the handshake.
#[derive(Debug)]
pub enum Incoming {
    /// The peer closed the stream (the read returned no bytes).
    Closed,
    /// A chat line from the peer.
    Message(String),
}

/// Errors of a chat session.
#[derive(Debug)]
pub enum ChatError {
    /// The handshake state could not be built.
    Build(snow::Error),
    /// Noise refused to write or read a handshake message.
    Handshake(snow::Error),
    /// Noise refused to encrypt or decrypt a chat message.
    Transport(snow::Error),
    /// A decrypted chat message is not valid UTF-8.
    InvalidUtf8,
}

/// The steps each role performs before chatting, in order.
pub open spec fn handshake_script(role: Role) -> Seq<HandshakeStep> {
    match role {
        Role::Initiator => seq![HandshakeStep::Write, HandshakeStep::Read, HandshakeStep::Write],
        Role::Responder => seq![HandshakeStep::Read, HandshakeStep::Write, HandshakeStep::Read],
    }
}

/// The step that comes after `done` steps of the role's script, if any.
pub open spec fn next_step(role: Role, done: nat) -> Option<HandshakeStep> {
    if done < handshake_script(role).len() {
        Some(handshake_script(role)[done as int])
    } else {
        None
    }
}

/// The two scripts pair up step by step and have the same length: whenever
/// one side writes, the other reads, and both finish together.
pub proof fn law_handshake_steps_pair_up(i: nat)
    requires
        i < handshake_script(Role::Responder).len(),
    ensures
        handshake_script(Role::Responder).len() == handshake_script(Role::Initiator).len(),
        handshake_script(Role::Initiator)[i as int] != handshake_script(Role::Responder)[i as int],
{
}

/// Unicode White_Space, the set that `char::is_whitespace` and `str::trim` use.
pub open spec fn is_white_space(c: char) -> bool {
    let u: u32 = c as u32;
    ||| 0x9 <= u <= 0xD
    ||| u == 0x20
    ||| u == 0x85
    ||| u == 0xA0
    ||| u == 0x1680
    ||| 0x2000 <= u <= 0x200A
    ||| u == 0x2028
    ||| u == 0x2029
    ||| u == 0x202F
    ||| u == 0x205F
    ||| u == 0x3000
}

/// The text without its leading white space.
pub open spec fn trim_start(s: Seq<char>) -> Seq<char>
    decreases s.len(),
{
    if s.len() > 0 && is_white_space(s[0]) {
        trim_start(s.drop_first())
    } else {
        s
    }
}

/// The text without its trailing white space.
pub open spec fn trim_end(s: Seq<char>) -> Seq<char>
    decreases s.len(),
{
    if s.len() > 0 && is_white_space(s.last()) {
        trim_end(s.drop_last())
    } else {
        s
    }
}

/// The text without leading and trailing white space.
pub open spec fn trimmed(s: Seq<char>) -> Seq<char> {
    trim_end(trim_start(s))
}

/// The plaintext that a chat line is sent as: its trimmed text in UTF-8,
/// or nothing where the trimmed text is empty.
pub open spec fn line_payload(line: Seq<char>) -> Option<Seq<u8>> {
    if trimmed(line).len() == 0 {
        None
    } else {
        Some(encode_utf8(trimmed(line)))
    }
}

/// `str::trim`: removes leading and trailing Unicode White_Space.
#[verifier::external_body]
fn trim_str<'a>(s: &'a str) -> (r: &'a str)
    ensures
        r@ == trimmed(s@),
{
    s.trim()
}

/// `String::from_utf8`: succeeds exactly on valid UTF-8 and then holds the
/// decoded characters.
#[verifier::external_body]
fn string_from_utf8(bytes: Vec<u8>) -> (r: Option<String>)
    ensures
        r is Some <==> valid_utf8(bytes@),
        r matches Some(s) ==> s@ == decode_utf8(bytes@),
{
    String::from_utf8(bytes).ok()
}

/// `snow::Builder::new(pattern.parse()?).local_private_key(key)
/// .build_initiator()`. For [`NOISE_PATTERN`] it succeeds: the pattern
/// parses, the crate's resolvers supply 25519, ChaChaPoly and BLAKE2s, XX
/// needs no key beyond the local one, and the key is the curve's 32 bytes
/// (a longer one would index past the crate's key buffer). Sessions speak
/// only that protocol, so no other pattern is handed to the builder.
#[verifier::external_body]
fn noise_initiator(pattern: &str, key: &[u8; 32]) -> (r: Result<snow::HandshakeState, snow::Error>)
    requires
        pattern@ == NOISE_PATTERN@,
    ensures
        pattern@ == NOISE_PATTERN@ ==> r is Ok,
{
    snow::Builder::new(pattern.parse()?).local_private_key(key).build_initiator()
}

/// `snow::Builder::new(pattern.parse()?).local_private_key(key)
/// .build_responder()`. For [`NOISE_PATTERN`] it succeeds, for the same
/// reasons as the initiator's; as there, no other pattern is handed to it.
#[verifier::external_body]
fn noise_responder(pattern: &str, key: &[u8; 32]) -> (r: Result<snow::HandshakeState, snow::Error>)
    requires
        pattern@ == NOISE_PATTERN@,
    ensures
        pattern@ == NOISE_PATTERN@ ==> r is Ok,
{
    snow::Builder::new(pattern.parse()?).local_private_key(key).build_responder()
}

/// `snow::HandshakeState::into_transport_mode`. It fails exactly when the
/// handshake is not finished, which the library cannot observe, so nothing
/// is promised of the outcome.
#[verifier::external_body]
fn into_transport(state: snow::HandshakeState) -> Result<snow::TransportState, snow::Error> {
    state.into_transport_mode()
}

/// `snow::TransportState::write_message` into `message`: on success the
/// message is the payload encrypted, followed by the 16-byte tag, so its
/// length is the payload's plus 16. The crate refuses a payload that, with
/// its tag, would be longer than a Noise message may be or would not fit in
/// `message`. Whether a payload that fits is accepted also depends on the
/// state's send nonce, which lies inside the opaque state and is not stated.
/// The buffer must be a full-size Noise message buffer, so that only the
/// protocol's own limit can refuse a payload for its size.
#[verifier::external_body]
fn transport_write(
    state: &mut snow::TransportState,
    payload: &[u8],
    message: &mut Vec<u8>,
) -> (r: Result<usize, snow::Error>)
    requires
        old(message)@.len() == MAX_MESSAGE_LEN,
    ensures
        final(message)@.len() == old(message)@.len(),
        payload@.len() + TAG_LEN > MAX_MESSAGE_LEN ==> r is Err,
        payload@.len() + TAG_LEN > old(message)@.len() ==> r is Err,
        r matches Ok(n) ==> n == payload@.len() + TAG_LEN && n <= old(message)@.len(),
{
    state.write_message(payload, message.as_mut_slice())
}

/// `snow::TransportState::read_message` into `payload`: a message longer
/// than a Noise message may be, or shorter than the 16-byte tag, is refused;
/// on success the plaintext (the message authenticated and decrypted) is the
/// message's length less 16, and fits in `payload`.
#[verifier::external_body]
fn transport_read(
    state: &mut snow::TransportState,
    message: &[u8],
    payload: &mut Vec<u8>,
) -> (r: Result<usize, snow::Error>)
    ensures
        final(payload)@.len() == old(payload)@.len(),
        message@.len() > MAX_MESSAGE_LEN ==> r is Err,
        message@.len() < TAG_LEN ==> r is Err,
        r matches Ok(n) ==> n + TAG_LEN == message@.len() && n <= old(payload)@.len(),
{
    state.read_message(message, payload.as_mut_slice())
}

/// `snow::HandshakeState::write_message` into `message`. On success the
/// count of bytes written is returned, which fits in `message`; the bytes
/// depend on fresh ephemeral keys, so nothing more is promised. The buffer
/// must be a full-size Noise message buffer: with a shorter one the crate
/// can index past its end.
#[verifier::external_body]
fn noise_write(
    state: &mut snow::HandshakeState,
    payload: &[u8],
    message: &mut Vec<u8>,
) -> (r: Result<usize, snow::Error>)
    requires
        old(message)@.len() == MAX_MESSAGE_LEN,
    ensures
        final(message)@.len() == old(message)@.len(),
        r matches Ok(n) ==> n <= old(message)@.len(),
{
    state.write_message(payload, message.as_mut_slice())
}

/// `snow::HandshakeState::read_message` into `payload`. A message longer
/// than a Noise message may be is refused before anything else. On success
/// the count of plaintext bytes is returned, which fits both in `payload`
/// and in `message` (the crate checks both lengths before copying). The
/// plaintext itself is not stated, nor the shortest message the current step
/// accepts: that depends on the position in the pattern, which lies inside
/// the opaque state.
#[verifier::external_body]
fn noise_read(
    state: &mut snow::HandshakeState,
    message: &[u8],
    payload: &mut Vec<u8>,
) -> (r: Result<usize, snow::Error>)
    ensures
        final(payload)@.len() == old(payload)@.len(),
        message@.len() > MAX_MESSAGE_LEN ==> r is Err,
        r matches Ok(n) ==> n <= old(payload)@.len() && n <= message@.len(),
{
    state.read_message(message, payload.as_mut_slice())
}

/// The plaintext a chat line is sent as: `None` for a line that is blank
/// after trimming (such a line is skipped), else the UTF-8 bytes of the
/// trimmed line.
pub fn outgoing_payload(line: &str) -> (r: Option<Vec<u8>>)
    ensures
        match r {
            None => line_payload(line@) is None,
            Some(bytes) => line_payload(line@) == Some(bytes@),
        },
{
    let text = trim_str(line);
    if text.is_empty() {
        None
    } else {
        let bytes = text.as_bytes();
        Some(slice_to_vec(bytes))
    }
}

/// Turns a decrypted chat message into text: fails exactly when the bytes
/// are not valid UTF-8.
pub fn decode_message(plain: Vec<u8>) -> (r: Result<String, ChatError>)
    ensures
        r is Ok <==> valid_utf8(plain@),
        r matches Ok(s) ==> s@ == decode_utf8(plain@),
        r matches Err(e) ==> e is InvalidUtf8,
{
    match string_from_utf8(plain) {
        Some(s) => Ok(s),
        None => Err(ChatError::InvalidUtf8),
    }
}

/// The first `len` bytes of `buffer`, or all of it where it is shorter.
pub open spec fn prefix(buffer: Seq<u8>, len: nat) -> Seq<u8> {
    if len <= buffer.len() {
        buffer.take(len as int)
    } else {
        buffer
    }
}

/// What sending a line reports once Noise has encrypted into `buffer`: the
/// `n` bytes it wrote for `Ok(n)`, and its own error otherwise.
pub fn sent_message(written: Result<usize, snow::Error>, buffer: Vec<u8>) -> (r: Result<
    Option<Vec<u8>>,
    ChatError,
>)
    ensures
        match written {
            Ok(n) => r matches Ok(Some(m)) && m@ == prefix(buffer@, n as nat),
            Err(e) => r == Err::<Option<Vec<u8>>, ChatError>(ChatError::Transport(e)),
        },
{
    match written {
        Ok(n) => {
            let mut message = buffer;
            message.truncate(n);
            Ok(Some(message))
        },
        Err(e) => Err(ChatError::Transport(e)),
    }
}

/// What receiving a message reports once Noise has authenticated and
/// decrypted it into `buffer`: for `Ok(n)` the `n` plaintext bytes as text,
/// or `InvalidUtf8` where they are not UTF-8; Noise's own error otherwise.
pub fn received_message(read: Result<usize, snow::Error>, buffer: Vec<u8>) -> (r: Result<
    Incoming,
    ChatError,
>)
    ensures
        match read {
            Ok(n) => {
                let plain = prefix(buffer@, n as nat);
                &&& r is Ok <==> valid_utf8(plain)
                &&& r is Ok ==> (r matches Ok(Incoming::Message(s)) && s@ == decode_utf8(plain))
                &&& r matches Err(e) ==> e is InvalidUtf8
            },
            Err(e) => r == Err::<Incoming, ChatError>(ChatError::Transport(e)),
        },
{
    match read {
        Ok(n) => {
            let mut plain = buffer;
            plain.truncate(n);
            match decode_message(plain) {
                Ok(s) => Ok(Incoming::Message(s)),
                Err(e) => Err(e),
            }
        },
        Err(e) => Err(ChatError::Transport(e)),
    }
}

/// A chat session: the Noise state and how far the handshake has come.
/// During the handshake the session holds the handshake state; once the
/// last step has succeeded it holds the transport state instead.
pub struct ChatSession {
    role: Role,
    handshake: Option<snow::HandshakeState>,
    transport: Option<snow::TransportState>,
    steps_done: usize,
}

impl ChatSession {
    /// The role this session plays.
    pub closed spec fn role(&self) -> Role {
        self.role
    }

    /// How many handshake steps have succeeded.
    pub closed spec fn steps_done(&self) -> nat {
        self.steps_done as nat
    }

    /// The session has not gone past its role's script; it holds the
    /// transport state exactly once the whole script has been performed.
    pub closed spec fn wf(&self) -> bool {
        &&& self.steps_done <= handshake_script(self.role).len()
        &&& self.steps_done == handshake_script(self.role).len() <==> self.transport is Some
    }

    /// The handshake broke off: its state was used up by a last step that
    /// could not turn it into transport mode.
    pub closed spec fn spent(&self) -> bool {
        self.steps_done < handshake_script(self.role).len() && self.handshake is None
    }

    /// The step the session performs next, if any.
    pub open spec fn pending_step(&self) -> Option<HandshakeStep> {
        if self.spent() {
            None
        } else {
            next_step(self.role(), self.steps_done())
        }
    }

    /// Every handshake step of the role's script has been performed.
    pub open spec fn handshake_done(&self) -> bool {
        self.steps_done() == handshake_script(self.role()).len()
    }

    /// Starts a session for `role` with the given static private key.
    pub fn new(role: Role, private_key: &[u8; 32]) -> (r: Result<ChatSession, ChatError>)
        ensures
            r matches Ok(s) ==> s.wf() && !s.spent() && s.role() == role && s.steps_done() == 0,
            r is Ok,
    {
        proof {
            reveal_strlit("Noise_XX_25519_ChaChaPoly_BLAKE2s");
        }
        let built = match role {
            Role::Initiator => noise_initiator(NOISE_PATTERN, private_key),
            Role::Responder => noise_responder(NOISE_PATTERN, private_key),
        };
        match built {
            Ok(noise) => Ok(ChatSession { role, handshake: Some(noise), transport: None, steps_done: 0 }),
            Err(e) => Err(ChatError::Build(e)),
        }
    }

    /// The role this session plays.
    pub fn get_role(&self) -> (r: Role)
        ensures
            r == self.role(),
    {
        self.role
    }

    /// Whether the whole handshake has been performed.
    pub fn is_handshake_done(&self) -> (r: bool)
        ensures
            r == self.handshake_done(),
    {
        self.steps_done == 3
    }

    /// The next handshake step, or `None` once the handshake is over (or
    /// has broken off).
    pub fn handshake_step(&self) -> (r: Option<HandshakeStep>)
        requires
            self.wf(),
        ensures
            r == self.pending_step(),
    {
        if self.steps_done < 3 && self.handshake.is_some() {
            let step = match self.role {
                Role::Initiator => if self.steps_done % 2 == 0 {
                    HandshakeStep::Write
                } else {
                    HandshakeStep::Read
                },
                Role::Responder => if self.steps_done % 2 == 0 {
                    HandshakeStep::Read
                } else {
                    HandshakeStep::Write
                },
            };
            Some(step)
        } else {
            None
        }
    }

    /// Counts a handshake step as done; the last one also turns the
    /// handshake state into the transport state, and fails if that cannot be
    /// done (the handshake state is then used up).
    fn finish_step(&mut self) -> (r: Result<(), ChatError>)
        requires
            old(self).steps_done < handshake_script(old(self).role).len(),
            old(self).handshake is Some,
            old(self).transport is None,
        ensures
            final(self).wf(),
            final(self).role == old(self).role,
            match r {
                Ok(()) => final(self).steps_done == old(self).steps_done + 1 && !final(self).spent(),
                Err(e) => final(self).steps_done == old(self).steps_done && e is Handshake,
            },
    {
        if self.steps_done + 1 < 3 {
            self.steps_done = self.steps_done + 1;
            return Ok(());
        }
        let state = self.handshake.take().unwrap();
        match into_transport(state) {
            Ok(t) => {
                self.transport = Some(t);
                self.steps_done = self.steps_done + 1;
                Ok(())
            },
            Err(e) => Err(ChatError::Handshake(e)),
        }
    }

    /// Performs a write step: the handshake message to send to the peer.
    /// The step counts as done only on success; after the last step the
    /// session is in transport mode.
    pub fn write_handshake(&mut self) -> (r: Result<Vec<u8>, ChatError>)
        requires
            old(self).wf(),
            old(self).pending_step() == Some(HandshakeStep::Write),
        ensures
            final(self).wf(),
            final(self).role() == old(self).role(),
            match r {
                Ok(message) => final(self).steps_done() == old(self).steps_done() + 1
                    && !final(self).spent() && message@.len() <= MAX_MESSAGE_LEN,
                Err(e) => final(self).steps_done() == old(self).steps_done() && e is Handshake,
            },
    {
        let mut message: Vec<u8> = vec![0u8; MAX_MESSAGE_LEN];
        let written = noise_write(self.handshake.as_mut().unwrap(), &[], &mut message);
        match written {
            Ok(len) => {
                message.truncate(len);
                match self.finish_step() {
                    Ok(()) => Ok(message),
                    Err(e) => Err(e),
                }
            },
            Err(e) => Err(ChatError::Handshake(e)),
        }
    }

    /// Performs a read step on a handshake message received from the peer.
    /// A message longer than a Noise message may be is refused. The step
    /// counts as done only on success; after the last step the session is in
    /// transport mode.
    pub fn read_handshake(&mut self, message: &[u8]) -> (r: Result<(), ChatError>)
        requires
            old(self).wf(),
            old(self).pending_step() == Some(HandshakeStep::Read),
        ensures
            final(self).wf(),
            final(self).role() == old(self).role(),
            message@.len() > MAX_MESSAGE_LEN ==> r is Err,
            match r {
                Ok(()) => final(self).steps_done() == old(self).steps_done() + 1 && !final(self).spent(),
                Err(e) => final(self).steps_done() == old(self).steps_done() && e is Handshake,
            },
    {
        let mut payload: Vec<u8> = vec![0u8; MAX_MESSAGE_LEN];
        let read = noise_read(self.handshake.as_mut().unwrap(), message, &mut payload);
        match read {
            Ok(_) => self.finish_step(),
            Err(e) => Err(ChatError::Handshake(e)),
        }
    }

    /// Handling of bytes read from the peer after the handshake: no bytes
    /// means the peer closed the stream; otherwise the bytes are one Noise
    /// message, which is authenticated and decrypted into a plaintext 16
    /// bytes shorter, which must be UTF-8. What comes back of the decryption
    /// is reported by [`received_message`].
    pub fn receive(&mut self, data: &[u8]) -> (r: Result<Incoming, ChatError>)
        requires
            old(self).wf(),
            old(self).handshake_done(),
        ensures
            final(self).wf(),
            final(self).role() == old(self).role(),
            final(self).steps_done() == old(self).steps_done(),
            data@.len() == 0 <==> r matches Ok(Incoming::Closed),
            0 < data@.len() < TAG_LEN ==> r is Err,
            data@.len() > MAX_MESSAGE_LEN ==> r is Err,
            r matches Ok(Incoming::Message(s)) ==> encode_utf8(s@).len() + TAG_LEN == data@.len(),
            r matches Ok(Incoming::Message(s)) ==> exists|plain: Seq<u8>|
                plain.len() + TAG_LEN == data@.len() && valid_utf8(plain) && s@ == decode_utf8(plain),
            r matches Err(ChatError::InvalidUtf8) ==> exists|plain: Seq<u8>|
                plain.len() + TAG_LEN == data@.len() && !valid_utf8(plain),
            r matches Err(e) ==> e is Transport || e is InvalidUtf8,
    {
        if data.len() == 0 {
            return Ok(Incoming::Closed);
        }
        let mut plain: Vec<u8> = vec![0u8; data.len()];
        let read = transport_read(self.transport.as_mut().unwrap(), data, &mut plain);
        let ghost buffer = plain@;
        let r = received_message(read, plain);
        proof {
            if read is Ok && r is Ok {
                vstd::utf8::decode_utf8_encode_utf8(prefix(buffer, read->Ok_0 as nat));
            }
        }
        r
    }

    /// Handling of a line typed by the user after the handshake: a line that
    /// is blank after trimming is skipped (`Ok(None)`); any other line is
    /// encrypted, and the message to send is its trimmed UTF-8 text plus the
    /// 16-byte tag. What comes back of the encryption is reported by
    /// [`sent_message`].
    pub fn send_line(&mut self, line: &str) -> (r: Result<Option<Vec<u8>>, ChatError>)
        requires
            old(self).wf(),
            old(self).handshake_done(),
        ensures
            final(self).wf(),
            final(self).role() == old(self).role(),
            final(self).steps_done() == old(self).steps_done(),
            line_payload(line@) is None <==> r matches Ok(None),
            r matches Ok(Some(message)) ==> message@.len() == line_payload(line@)->0.len()
                + TAG_LEN,
            line_payload(line@) matches Some(p) && p.len() + TAG_LEN > MAX_MESSAGE_LEN
                ==> r is Err,
            r matches Err(e) ==> e is Transport,
    {
        match outgoing_payload(line) {
            None => Ok(None),
            Some(payload) => {
                let mut buffer: Vec<u8> = vec![0u8; MAX_MESSAGE_LEN];
                let written = transport_write(
                    self.transport.as_mut().unwrap(),
                    payload.as_slice(),
                    &mut buffer,
                );
                sent_message(written, buffer)
            },
        }
    }
}

} // verus!
