use vstd::bytes::{spec_u32_from_le_bytes, spec_u32_to_le_bytes, u32_from_le_bytes, u32_to_le_bytes};
use vstd::prelude::*;
use vstd::slice::slice_subrange;

verus! {

/// Correlation id placed in every authentication request; the peer echoes
/// it in the response.
pub const RCON_REQUEST_ID: u32 = 12345;
/// Request type code of an authentication request.
pub const SERVERDATA_AUTH: u32 = 3;
/// Response type code the peer answers with when the credential was
/// accepted.
pub const SERVERDATA_AUTH_RESPONSE: u32 = 2;
/// Smallest declared size of a valid authentication response payload.
pub const MIN_AUTH_RESPONSE_SIZE: u32 = 10;
/// Largest credential a request packet can carry: the declared packet size
/// is a signed 32-bit field holding the credential length plus ten.
pub const MAX_CREDENTIAL_LEN: usize = 0x7FFF_FFF5;

/// The authentication request on the wire:
/// `[4-byte LE total size][4-byte LE request id][4-byte LE type][credential][0][0]`,
/// where the total size counts everything after itself, that is the
/// credential length plus ten.
pub open spec fn auth_request_bytes(password: Seq<u8>) -> Seq<u8> {
    spec_u32_to_le_bytes((password.len() + 10) as u32) + spec_u32_to_le_bytes(RCON_REQUEST_ID)
        + spec_u32_to_le_bytes(SERVERDATA_AUTH) + password + seq![0u8, 0u8]
}

/// A declared response size is taken only when it holds at least the
/// minimum payload and is non-negative as a signed 32-bit value.
pub open spec fn size_acceptable(size: u32) -> bool {
    MIN_AUTH_RESPONSE_SIZE <= size && size < 0x8000_0000
}

/// A response payload authenticates exactly when its first four bytes echo
/// the request's correlation id and the next four carry the success type
/// code, both little-endian.
pub open spec fn auth_ok(payload: Seq<u8>) -> bool
    recommends
        payload.len() >= 8,
{
    &&& spec_u32_from_le_bytes(payload.subrange(0, 4)) == RCON_REQUEST_ID
    &&& spec_u32_from_le_bytes(payload.subrange(4, 8)) == SERVERDATA_AUTH_RESPONSE
}

/// Build the authentication request packet for `password`, byte for byte
/// as `auth_request_bytes` lays it out.
pub fn build_auth_request(password: &Vec<u8>) -> (r: Vec<u8>)
    requires
        password@.len() <= MAX_CREDENTIAL_LEN,
    ensures
        r@ == auth_request_bytes(password@),
{
    let size: u32 = password.len() as u32 + 10;
    let mut packet: Vec<u8> = u32_to_le_bytes(size);
    let mut id_bytes: Vec<u8> = u32_to_le_bytes(RCON_REQUEST_ID);
    let mut type_bytes: Vec<u8> = u32_to_le_bytes(SERVERDATA_AUTH);
    packet.append(&mut id_bytes);
    packet.append(&mut type_bytes);
    let ghost header = packet@;
    let mut i: usize = 0;
    while i < password.len()
        invariant
            i <= password@.len(),
            packet@ == header + password@.subrange(0, i as int),
        decreases password@.len() - i,
    {
        packet.push(password[i]);
        proof {
            assert(packet@ =~= header + password@.subrange(0, i + 1));
        }
        i = i + 1;
    }
    packet.push(0);
    packet.push(0);
    proof {
        assert(password@.subrange(0, password@.len() as int) =~= password@);
        assert(packet@ =~= auth_request_bytes(password@));
    }
    packet
}

/// Whether a declared response size is taken or rejected.
pub fn response_size_acceptable(size: u32) -> (r: bool)
    ensures
        r == size_acceptable(size),
{
    MIN_AUTH_RESPONSE_SIZE <= size && size < 0x8000_0000
}

/// Whether a full response payload authenticates: correlation id and type
/// code both match.
pub fn auth_response_ok(payload: &Vec<u8>) -> (r: bool)
    requires
        payload@.len() >= 8,
    ensures
        r == auth_ok(payload@),
{
    let id = u32_from_le_bytes(slice_subrange(payload.as_slice(), 0, 4));
    let type_code = u32_from_le_bytes(slice_subrange(payload.as_slice(), 4, 8));
    id == RCON_REQUEST_ID && type_code == SERVERDATA_AUTH_RESPONSE
}

/// The phase of one remote-console authentication attempt.
#[derive(Clone, Copy, Debug)]
pub enum RconPhase {
    /// Waiting for the connection to open with its timeouts set.
    Connecting,
    /// Waiting for the request packet to be written out in full.
    Sending,
    /// Waiting for the 4-byte little-endian response-size prefix.
    AwaitingSize,
    /// Waiting for the declared number of payload bytes.
    AwaitingPayload { size: u32 },
    /// The attempt is over; `authenticated` says whether the peer accepted
    /// the credential.
    Done { authenticated: bool },
}

/// What the transport is asked to do next.
#[derive(Debug)]
pub enum RconAction {
    /// Write these bytes to the connection.
    Send(Vec<u8>),
    /// Read exactly this many bytes.
    Read(u32),
    /// The attempt is over; `true` means the peer authenticated us.
    Finish(bool),
}

/// What the transport observed.
#[derive(Debug)]
pub enum RconEvent {
    /// The connection is open.
    Connected,
    /// The request packet was written in full.
    Sent,
    /// Exactly the bytes asked for arrived.
    Received(Vec<u8>),
    /// A connect, write or read failed, timed out, or came up short.
    Failed,
}

/// The transition relation of the handshake: where one attempt stands
/// after `ev` arrives in phase `phase`. Any failure, any event out of
/// order, and any rejected response size end the attempt unauthenticated;
/// an undersized declared size is rejected before any payload is read.
pub open spec fn handshake_step(phase: RconPhase, ev: RconEvent) -> RconPhase {
    match ev {
        RconEvent::Failed => RconPhase::Done { authenticated: false },
        RconEvent::Connected => if phase is Connecting {
            RconPhase::Sending
        } else {
            RconPhase::Done { authenticated: false }
        },
        RconEvent::Sent => if phase is Sending {
            RconPhase::AwaitingSize
        } else {
            RconPhase::Done { authenticated: false }
        },
        RconEvent::Received(bytes) => match phase {
            RconPhase::AwaitingSize => if bytes@.len() == 4 && size_acceptable(
                spec_u32_from_le_bytes(bytes@),
            ) {
                RconPhase::AwaitingPayload { size: spec_u32_from_le_bytes(bytes@) }
            } else {
                RconPhase::Done { authenticated: false }
            },
            RconPhase::AwaitingPayload { size } => if bytes@.len() == size {
                RconPhase::Done { authenticated: auth_ok(bytes@) }
            } else {
                RconPhase::Done { authenticated: false }
            },
            _ => RconPhase::Done { authenticated: false },
        },
    }
}

/// One remote-console authentication attempt, driven from outside: the
/// transport performs each returned action and feeds the outcome back in
/// as the next event.
pub struct RconHandshake {
    pub password: Vec<u8>,
    pub phase: RconPhase,
}

impl RconHandshake {
    /// The credential fits the packet's size field, and a payload is only
    /// awaited after its declared size was accepted.
    pub open spec fn wf(self) -> bool {
        &&& self.password@.len() <= MAX_CREDENTIAL_LEN
        &&& (self.phase matches RconPhase::AwaitingPayload { size } ==> size_acceptable(size))
    }

    /// A fresh attempt, waiting for the transport to connect.
    pub fn new(password: Vec<u8>) -> (r: Self)
        requires
            password@.len() <= MAX_CREDENTIAL_LEN,
        ensures
            r.password == password,
            r.phase is Connecting,
            r.wf(),
    {
        RconHandshake { password, phase: RconPhase::Connecting }
    }

    /// Advance the attempt by one observed event. The next phase follows
    /// `handshake_step`, and the returned action fits it: the request
    /// packet to send, the exact number of bytes to read next, or the
    /// attempt's outcome.
    pub fn on_event(&mut self, ev: RconEvent) -> (action: RconAction)
        requires
            old(self).wf(),
            !(old(self).phase is Done),
        ensures
            final(self).wf(),
            final(self).password == old(self).password,
            final(self).phase == handshake_step(old(self).phase, ev),
            final(self).phase is Sending ==> (action matches RconAction::Send(packet)
                && packet@ == auth_request_bytes(old(self).password@)),
            final(self).phase is AwaitingSize ==> action == (RconAction::Read(4)),
            final(self).phase matches RconPhase::AwaitingPayload { size } ==> action == (
            RconAction::Read(size)),
            final(self).phase matches RconPhase::Done { authenticated } ==> action == (
            RconAction::Finish(authenticated)),
    {
        match ev {
            RconEvent::Failed => {
                self.phase = RconPhase::Done { authenticated: false };
                RconAction::Finish(false)
            },
            RconEvent::Connected => {
                match self.phase {
                    RconPhase::Connecting => {
                        let packet = build_auth_request(&self.password);
                        self.phase = RconPhase::Sending;
                        RconAction::Send(packet)
                    },
                    _ => {
                        self.phase = RconPhase::Done { authenticated: false };
                        RconAction::Finish(false)
                    },
                }
            },
            RconEvent::Sent => {
                match self.phase {
                    RconPhase::Sending => {
                        self.phase = RconPhase::AwaitingSize;
                        RconAction::Read(4)
                    },
                    _ => {
                        self.phase = RconPhase::Done { authenticated: false };
                        RconAction::Finish(false)
                    },
                }
            },
            RconEvent::Received(bytes) => {
                match self.phase {
                    RconPhase::AwaitingSize => {
                        if bytes.len() == 4 {
                            let size = u32_from_le_bytes(bytes.as_slice());
                            if response_size_acceptable(size) {
                                self.phase = RconPhase::AwaitingPayload { size };
                                RconAction::Read(size)
                            } else {
                                self.phase = RconPhase::Done { authenticated: false };
                                RconAction::Finish(false)
                            }
                        } else {
                            self.phase = RconPhase::Done { authenticated: false };
                            RconAction::Finish(false)
                        }
                    },
                    RconPhase::AwaitingPayload { size } => {
                        if bytes.len() == size as usize {
                            let accepted = auth_response_ok(&bytes);
                            self.phase = RconPhase::Done { authenticated: accepted };
                            RconAction::Finish(accepted)
                        } else {
                            self.phase = RconPhase::Done { authenticated: false };
                            RconAction::Finish(false)
                        }
                    },
                    _ => {
                        self.phase = RconPhase::Done { authenticated: false };
                        RconAction::Finish(false)
                    },
                }
            },
        }
    }
}

} // verus!
