//! The per-connection protocol state machine: decoding one inbound packet
//! from the stream and dispatching it against the session, the shared player
//! registry and the entity-id allocator.
//!
//! A session is unauthenticated until a successful LOGIN binds a username,
//! and terminates on any framing or protocol error. The caller runs the
//! loop: it feeds inbound bytes to [`PacketSerializer::read_packet`], hands
//! each decoded packet to [`handle_packet`], sends the outbound bytes, and
//! after a successful login send marks the record via [`finish_login`].

use vstd::prelude::*;

use crate::channel::{lossy_of, PacketSerializer};
use crate::chunk::{chunk_payload, map_chunk_bytes, pre_chunk_bytes, spawn_chunk, zlib_deflate_of};
use crate::codec::{
    be_i16_bytes, be_i32_bytes, be_u16_at, be_u16_bytes, be_u32_at, be_u32_bytes, be_u64_at,
    be_u64_bytes,
};
use crate::error::Error;
use crate::packets;
use crate::player::{
    find_player, find_player_index, is_new_player, Player, SPAWN_STANCE_BITS, SPAWN_X_BITS,
    SPAWN_X_INT, SPAWN_Y_BITS, SPAWN_Y_INT, SPAWN_Z_BITS, SPAWN_Z_INT,
};
use crate::registry::EntityIdAllocator;
use vstd::utf8::{decode_utf8, valid_utf8};

verus! {

/// One connection's protocol state: the username bound by a successful
/// LOGIN, `None` while unauthenticated.
pub struct Session {
    pub username: Option<String>,
}

impl Session {
    /// A fresh, unauthenticated session.
    pub fn new() -> (r: Self)
        ensures
            r.username is None,
    {
        Session { username: None }
    }
}

/// One decoded inbound packet. Pose fields hold the IEEE-754 bit patterns
/// they travel as (`u64` for doubles, `u32` for floats).
pub enum Packet {
    KeepAlive,
    Login { version: u32, username: String, password: String, seed: u64, dimension: u8 },
    Handshake { username: String },
    ChatMessage { message: String },
    PlayerOnGround { on_ground: bool },
    PlayerPosition { x: u64, y: u64, stance: u64, z: u64, on_ground: bool },
    PlayerLook { yaw: u32, pitch: u32, on_ground: bool },
    PlayerPositionAndLook {
        x: u64,
        stance: u64,
        y: u64,
        z: u64,
        yaw: u32,
        pitch: u32,
        on_ground: bool,
    },
    Unknown { id: u8 },
}

/// What one decode attempt yields: `NeedMore` when the buffer ends before
/// the packet does, leaving nothing consumed.
pub enum DecodeOutcome {
    NeedMore,
    Decoded { packet: Packet },
}

/// Where the length-prefixed string starting at `i` ends, when the buffer
/// holds all of it.
pub open spec fn str_field_end(b: Seq<u8>, i: int) -> Option<int> {
    if i + 2 <= b.len() {
        if i + 2 + be_u16_at(b, i) as int <= b.len() {
            Some(i + 2 + be_u16_at(b, i) as int)
        } else {
            None
        }
    } else {
        None
    }
}

/// Where the packet starting at `start` ends, when the buffer holds all of
/// it; `None` when the buffer ends before the packet does. A packet with an
/// unknown id has no known payload length and counts its id byte alone.
pub open spec fn packet_end(b: Seq<u8>, start: int) -> Option<int> {
    if start < 0 || start >= b.len() {
        None
    } else {
        let id = b[start];
        if id == packets::KEEP_ALIVE {
            Some(start + 1)
        } else if id == packets::LOGIN {
            if start + 5 <= b.len() {
                match str_field_end(b, start + 5) {
                    Some(e1) => match str_field_end(b, e1) {
                        Some(e2) => if e2 + 9 <= b.len() {
                            Some(e2 + 9)
                        } else {
                            None
                        },
                        None => None,
                    },
                    None => None,
                }
            } else {
                None
            }
        } else if id == packets::HANDSHAKE {
            str_field_end(b, start + 1)
        } else if id == packets::CHAT_MESSAGE {
            str_field_end(b, start + 1)
        } else if id == packets::PLAYER {
            if start + 2 <= b.len() {
                Some(start + 2)
            } else {
                None
            }
        } else if id == packets::PLAYER_POSITION {
            if start + 34 <= b.len() {
                Some(start + 34)
            } else {
                None
            }
        } else if id == packets::PLAYER_LOOK {
            if start + 10 <= b.len() {
                Some(start + 10)
            } else {
                None
            }
        } else if id == packets::PLAYER_POSITION_AND_LOOK {
            if start + 42 <= b.len() {
                Some(start + 42)
            } else {
                None
            }
        } else {
            Some(start + 1)
        }
    }
}

/// True when `s` is the lossy decode of the string whose wire form stands
/// at `i` and ends at `e`.
pub open spec fn string_at(b: Seq<u8>, i: int, e: int, s: Seq<char>) -> bool {
    let payload = b.subrange(i + 2, e);
    &&& i + 2 <= b.len()
    &&& e == i + 2 + be_u16_at(b, i) as int
    &&& e <= b.len()
    &&& s == lossy_of(payload)
    &&& (valid_utf8(payload) ==> s == decode_utf8(payload))
}

/// True when `p` is what the bytes from `start` to `end` decode to.
pub open spec fn packet_matches(b: Seq<u8>, start: int, end: int, p: Packet) -> bool {
    match p {
        Packet::KeepAlive => b[start] == packets::KEEP_ALIVE && end == start + 1,
        Packet::Login { version, username, password, seed, dimension } => {
            &&& b[start] == packets::LOGIN
            &&& start + 5 <= b.len()
            &&& version == be_u32_at(b, start + 1)
            &&& match str_field_end(b, start + 5) {
                Some(e1) => {
                    &&& string_at(b, start + 5, e1, username@)
                    &&& match str_field_end(b, e1) {
                        Some(e2) => {
                            &&& string_at(b, e1, e2, password@)
                            &&& end == e2 + 9
                            &&& end <= b.len()
                            &&& seed == be_u64_at(b, e2)
                            &&& dimension == b[end - 1]
                        },
                        None => false,
                    }
                },
                None => false,
            }
        },
        Packet::Handshake { username } => {
            &&& b[start] == packets::HANDSHAKE
            &&& str_field_end(b, start + 1) == Some(end)
            &&& string_at(b, start + 1, end, username@)
        },
        Packet::ChatMessage { message } => {
            &&& b[start] == packets::CHAT_MESSAGE
            &&& str_field_end(b, start + 1) == Some(end)
            &&& string_at(b, start + 1, end, message@)
        },
        Packet::PlayerOnGround { on_ground } => {
            &&& b[start] == packets::PLAYER
            &&& end == start + 2
            &&& on_ground == (b[start + 1] == 1)
        },
        Packet::PlayerPosition { x, y, stance, z, on_ground } => {
            &&& b[start] == packets::PLAYER_POSITION
            &&& end == start + 34
            &&& x == be_u64_at(b, start + 1)
            &&& y == be_u64_at(b, start + 9)
            &&& stance == be_u64_at(b, start + 17)
            &&& z == be_u64_at(b, start + 25)
            &&& on_ground == (b[start + 33] == 1)
        },
        Packet::PlayerLook { yaw, pitch, on_ground } => {
            &&& b[start] == packets::PLAYER_LOOK
            &&& end == start + 10
            &&& yaw == be_u32_at(b, start + 1)
            &&& pitch == be_u32_at(b, start + 5)
            &&& on_ground == (b[start + 9] == 1)
        },
        Packet::PlayerPositionAndLook { x, stance, y, z, yaw, pitch, on_ground } => {
            &&& b[start] == packets::PLAYER_POSITION_AND_LOOK
            &&& end == start + 42
            &&& x == be_u64_at(b, start + 1)
            &&& stance == be_u64_at(b, start + 9)
            &&& y == be_u64_at(b, start + 17)
            &&& z == be_u64_at(b, start + 25)
            &&& yaw == be_u32_at(b, start + 33)
            &&& pitch == be_u32_at(b, start + 37)
            &&& on_ground == (b[start + 41] == 1)
        },
        Packet::Unknown { id } => {
            &&& id == b[start]
            &&& end == start + 1
            &&& id != packets::KEEP_ALIVE
            &&& id != packets::LOGIN
            &&& id != packets::HANDSHAKE
            &&& id != packets::CHAT_MESSAGE
            &&& id != packets::PLAYER
            &&& id != packets::PLAYER_POSITION
            &&& id != packets::PLAYER_LOOK
            &&& id != packets::PLAYER_POSITION_AND_LOOK
        },
    }
}

impl PacketSerializer {
    /// Decodes the packet at the read position. When the buffer ends before
    /// the packet does, nothing is consumed and the caller may retry with
    /// more input; otherwise the packet's bytes are consumed exactly.
    pub fn read_packet(&mut self) -> (r: DecodeOutcome)
        ensures
            match r {
                DecodeOutcome::NeedMore => *final(self) == *old(self) && packet_end(
                    old(self).input@,
                    old(self).pos as int,
                ) is None,
                DecodeOutcome::Decoded { packet } => {
                    &&& final(self).input == old(self).input
                    &&& final(self).output == old(self).output
                    &&& packet_end(old(self).input@, old(self).pos as int) == Some(
                        final(self).pos as int,
                    )
                    &&& final(self).pos <= old(self).input@.len()
                    &&& packet_matches(
                        old(self).input@,
                        old(self).pos as int,
                        final(self).pos as int,
                        packet,
                    )
                },
            },
    {
        let start = self.pos;
        let id = match self.read_u8() {
            Ok(v) => v,
            Err(_) => {
                return DecodeOutcome::NeedMore;
            },
        };
        if id == packets::KEEP_ALIVE {
            DecodeOutcome::Decoded { packet: Packet::KeepAlive }
        } else if id == packets::LOGIN {
            let version = match self.read_be_u32() {
                Ok(v) => v,
                Err(_) => {
                    self.pos = start;
                    return DecodeOutcome::NeedMore;
                },
            };
            let username = match self.read_string() {
                Ok(v) => v,
                Err(_) => {
                    self.pos = start;
                    return DecodeOutcome::NeedMore;
                },
            };
            let password = match self.read_string() {
                Ok(v) => v,
                Err(_) => {
                    self.pos = start;
                    return DecodeOutcome::NeedMore;
                },
            };
            let seed = match self.read_be_u64() {
                Ok(v) => v,
                Err(_) => {
                    self.pos = start;
                    return DecodeOutcome::NeedMore;
                },
            };
            let dimension = match self.read_u8() {
                Ok(v) => v,
                Err(_) => {
                    self.pos = start;
                    return DecodeOutcome::NeedMore;
                },
            };
            DecodeOutcome::Decoded {
                packet: Packet::Login { version, username, password, seed, dimension },
            }
        } else if id == packets::HANDSHAKE {
            let username = match self.read_string() {
                Ok(v) => v,
                Err(_) => {
                    self.pos = start;
                    return DecodeOutcome::NeedMore;
                },
            };
            DecodeOutcome::Decoded { packet: Packet::Handshake { username } }
        } else if id == packets::CHAT_MESSAGE {
            let message = match self.read_string() {
                Ok(v) => v,
                Err(_) => {
                    self.pos = start;
                    return DecodeOutcome::NeedMore;
                },
            };
            DecodeOutcome::Decoded { packet: Packet::ChatMessage { message } }
        } else if id == packets::PLAYER {
            let flag = match self.read_u8() {
                Ok(v) => v,
                Err(_) => {
                    self.pos = start;
                    return DecodeOutcome::NeedMore;
                },
            };
            DecodeOutcome::Decoded { packet: Packet::PlayerOnGround { on_ground: flag == 1 } }
        } else if id == packets::PLAYER_POSITION {
            let x = match self.read_be_u64() {
                Ok(v) => v,
                Err(_) => {
                    self.pos = start;
                    return DecodeOutcome::NeedMore;
                },
            };
            let y = match self.read_be_u64() {
                Ok(v) => v,
                Err(_) => {
                    self.pos = start;
                    return DecodeOutcome::NeedMore;
                },
            };
            let stance = match self.read_be_u64() {
                Ok(v) => v,
                Err(_) => {
                    self.pos = start;
                    return DecodeOutcome::NeedMore;
                },
            };
            let z = match self.read_be_u64() {
                Ok(v) => v,
                Err(_) => {
                    self.pos = start;
                    return DecodeOutcome::NeedMore;
                },
            };
            let flag = match self.read_u8() {
                Ok(v) => v,
                Err(_) => {
                    self.pos = start;
                    return DecodeOutcome::NeedMore;
                },
            };
            DecodeOutcome::Decoded {
                packet: Packet::PlayerPosition { x, y, stance, z, on_ground: flag == 1 },
            }
        } else if id == packets::PLAYER_LOOK {
            let yaw = match self.read_be_u32() {
                Ok(v) => v,
                Err(_) => {
                    self.pos = start;
                    return DecodeOutcome::NeedMore;
                },
            };
            let pitch = match self.read_be_u32() {
                Ok(v) => v,
                Err(_) => {
                    self.pos = start;
                    return DecodeOutcome::NeedMore;
                },
            };
            let flag = match self.read_u8() {
                Ok(v) => v,
                Err(_) => {
                    self.pos = start;
                    return DecodeOutcome::NeedMore;
                },
            };
            DecodeOutcome::Decoded {
                packet: Packet::PlayerLook { yaw, pitch, on_ground: flag == 1 },
            }
        } else if id == packets::PLAYER_POSITION_AND_LOOK {
            let x = match self.read_be_u64() {
                Ok(v) => v,
                Err(_) => {
                    self.pos = start;
                    return DecodeOutcome::NeedMore;
                },
            };
            let stance = match self.read_be_u64() {
                Ok(v) => v,
                Err(_) => {
                    self.pos = start;
                    return DecodeOutcome::NeedMore;
                },
            };
            let y = match self.read_be_u64() {
                Ok(v) => v,
                Err(_) => {
                    self.pos = start;
                    return DecodeOutcome::NeedMore;
                },
            };
            let z = match self.read_be_u64() {
                Ok(v) => v,
                Err(_) => {
                    self.pos = start;
                    return DecodeOutcome::NeedMore;
                },
            };
            let yaw = match self.read_be_u32() {
                Ok(v) => v,
                Err(_) => {
                    self.pos = start;
                    return DecodeOutcome::NeedMore;
                },
            };
            let pitch = match self.read_be_u32() {
                Ok(v) => v,
                Err(_) => {
                    self.pos = start;
                    return DecodeOutcome::NeedMore;
                },
            };
            let flag = match self.read_u8() {
                Ok(v) => v,
                Err(_) => {
                    self.pos = start;
                    return DecodeOutcome::NeedMore;
                },
            };
            DecodeOutcome::Decoded {
                packet: Packet::PlayerPositionAndLook {
                    x,
                    stance,
                    y,
                    z,
                    yaw,
                    pitch,
                    on_ground: flag == 1,
                },
            }
        } else {
            DecodeOutcome::Decoded { packet: Packet::Unknown { id } }
        }
    }
}

/// The reply to KEEP_ALIVE: a single zero byte.
pub open spec fn keep_alive_reply() -> Seq<u8> {
    seq![0u8]
}

/// The fixed 4-byte acceptance token replied to HANDSHAKE.
pub open spec fn handshake_reply() -> Seq<u8> {
    seq![2u8, 0u8, 1u8, 45u8]
}

/// The login response packet: entity id, two empty reserved strings, the
/// echoed seed and dimension.
pub open spec fn login_response_bytes(entity_id: i32, seed: u64, dimension: u8) -> Seq<u8> {
    seq![packets::LOGIN] + be_i32_bytes(entity_id) + be_u16_bytes(0) + be_u16_bytes(0)
        + be_u64_bytes(seed) + seq![dimension]
}

/// The bytes the synthetic spawn chunk's map-chunk payload compresses:
/// all-zero blocks and data, then both light arrays at full brightness.
pub open spec fn spawn_chunk_payload() -> Seq<u8> {
    Seq::new(32768, |i: int| 0u8) + Seq::new(32768, |i: int| 0u8) + Seq::new(32768, |i: int| 15u8)
        + Seq::new(32768, |i: int| 15u8)
}

/// The map-chunk packet for the synthetic spawn chunk at grid (1, 1).
pub open spec fn spawn_map_chunk_bytes() -> Seq<u8> {
    let comp = zlib_deflate_of(spawn_chunk_payload(), 6);
    seq![packets::MAP_CHUNK] + be_i32_bytes(16) + be_i16_bytes(0) + be_i32_bytes(16)
        + seq![15u8, 127u8, 15u8] + be_i32_bytes(comp.len() as i32) + comp
}

/// The spawn-position packet: the spawn coordinates truncated to integers.
pub open spec fn spawn_position_bytes() -> Seq<u8> {
    seq![packets::SPAWN_POSITION] + be_i32_bytes(SPAWN_X_INT) + be_i32_bytes(SPAWN_Y_INT)
        + be_i32_bytes(SPAWN_Z_INT)
}

/// The position-and-look packet for a player's pose: x, stance, y, z as
/// f64 bit patterns, yaw and pitch as f32 bit patterns, then the ground flag.
pub open spec fn position_look_bytes(p: Player) -> Seq<u8> {
    seq![packets::PLAYER_POSITION_AND_LOOK] + be_u64_bytes(p.x) + be_u64_bytes(p.stance)
        + be_u64_bytes(p.y) + be_u64_bytes(p.z) + be_u32_bytes(p.yaw) + be_u32_bytes(p.pitch)
        + seq![(if p.on_ground { 1u8 } else { 0u8 })]
}

/// `p` with the full pose replaced.
pub open spec fn updated_full(
    p: Player,
    x: u64,
    stance: u64,
    y: u64,
    z: u64,
    yaw: u32,
    pitch: u32,
    on_ground: bool,
) -> Player {
    Player { x, stance, y, z, yaw, pitch, on_ground, ..p }
}

/// `p` with position and stance replaced.
pub open spec fn updated_position(
    p: Player,
    x: u64,
    y: u64,
    stance: u64,
    z: u64,
    on_ground: bool,
) -> Player {
    Player { x, y, stance, z, on_ground, ..p }
}

/// `p` with orientation replaced.
pub open spec fn updated_look(p: Player, yaw: u32, pitch: u32, on_ground: bool) -> Player {
    Player { yaw, pitch, on_ground, ..p }
}

/// `p` with the ground flag replaced.
pub open spec fn updated_ground(p: Player, on_ground: bool) -> Player {
    Player { on_ground, ..p }
}

/// True when `after` is `before` with `upd` applied to the record the
/// session's bound username scans to: the first match. With no bound
/// username or no matching record the update is silently dropped.
pub open spec fn pose_applied(
    before: Seq<Player>,
    after: Seq<Player>,
    sess_name: Option<String>,
    upd: spec_fn(Player) -> Player,
) -> bool {
    match sess_name {
        Some(u) => match find_player(before, u@) {
            Some(i) => after == before.update(i, upd(before[i])),
            None => after == before,
        },
        None => after == before,
    }
}

/// Marks a registry record as logged in: the final step of a login, taken
/// after the login response and world push have been sent.
pub fn finish_login(players: &mut Vec<Player>, player_index: usize)
    requires
        player_index < old(players)@.len(),
    ensures
        final(players)@ == old(players)@.update(
            player_index as int,
            (Player { logged_in: true, ..old(players)@[player_index as int] }),
        ),
{
    players[player_index].logged_in = true;
    assert(players@ =~= old(players)@.update(
        player_index as int,
        (Player { logged_in: true, ..old(players)@[player_index as int] }),
    ));
}

/// Dispatches one decoded packet against the session, the player registry
/// and the entity-id allocator, appending any reply to the serializer's
/// outbound buffer.
///
/// KEEP_ALIVE is answered with a zero byte; HANDSHAKE with the fixed
/// acceptance token. LOGIN with version 3 allocates an entity id, binds the
/// username, appends the player record (not yet logged in), and writes the
/// login response, the chunk push, the spawn position and the initial pose;
/// it returns the new record's index, which the caller passes to
/// [`finish_login`] once the reply bytes are sent. Any other version is
/// rejected with the invalid-protocol-version error and changes nothing.
/// Pose packets apply their subfields to the record matching the bound
/// username; chat is intake only; an unknown id is skipped without
/// terminating the session.
pub fn handle_packet(
    packet: Packet,
    ser: &mut PacketSerializer,
    sess: &mut Session,
    players: &mut Vec<Player>,
    alloc: &mut EntityIdAllocator,
) -> (r: Result<Option<usize>, Error>)
    requires
        packet is Login ==> old(alloc).next < 0x7fffffff,
    ensures
        final(ser).input == old(ser).input,
        final(ser).pos == old(ser).pos,
        match packet {
            Packet::KeepAlive => {
                &&& r matches Ok(None)
                &&& final(ser).output@ == old(ser).output@ + keep_alive_reply()
                &&& *final(sess) == *old(sess)
                &&& final(players)@ == old(players)@
                &&& *final(alloc) == *old(alloc)
            },
            Packet::Handshake { username } => {
                &&& r matches Ok(None)
                &&& final(ser).output@ == old(ser).output@ + handshake_reply()
                &&& *final(sess) == *old(sess)
                &&& final(players)@ == old(players)@
                &&& *final(alloc) == *old(alloc)
            },
            Packet::ChatMessage { message } => {
                &&& r matches Ok(None)
                &&& final(ser).output@ == old(ser).output@
                &&& *final(sess) == *old(sess)
                &&& final(players)@ == old(players)@
                &&& *final(alloc) == *old(alloc)
            },
            Packet::Unknown { id } => {
                &&& r matches Ok(None)
                &&& final(ser).output@ == old(ser).output@
                &&& *final(sess) == *old(sess)
                &&& final(players)@ == old(players)@
                &&& *final(alloc) == *old(alloc)
            },
            Packet::Login { version, username, password, seed, dimension } => {
                if version != 3 {
                    &&& r matches Err(e) && e == Error::InvalidProtocolVersion
                    &&& final(ser).output@ == old(ser).output@
                    &&& *final(sess) == *old(sess)
                    &&& final(players)@ == old(players)@
                    &&& *final(alloc) == *old(alloc)
                } else {
                    let eid = old(alloc).next;
                    let newp = final(players)@.last();
                    &&& final(alloc).next == eid + 1
                    &&& final(sess).username matches Some(u) && u@ == username@
                    &&& final(players)@.len() == old(players)@.len() + 1
                    &&& final(players)@.subrange(0, old(players)@.len() as int) == old(players)@
                    &&& is_new_player(newp, username@)
                    &&& if zlib_deflate_of(spawn_chunk_payload(), 6).len() <= 0x7fffffff {
                        &&& r matches Ok(Some(idx)) && idx == old(players)@.len()
                        &&& final(ser).output@ == old(ser).output@ + login_response_bytes(
                            eid,
                            seed,
                            dimension,
                        ) + pre_chunk_bytes(1, 1) + spawn_map_chunk_bytes()
                            + spawn_position_bytes() + position_look_bytes(newp)
                    } else {
                        &&& r matches Err(e) && e is BitsError
                        &&& final(ser).output@ == old(ser).output@ + login_response_bytes(
                            eid,
                            seed,
                            dimension,
                        ) + pre_chunk_bytes(1, 1)
                    }
                }
            },
            Packet::PlayerPositionAndLook { x, stance, y, z, yaw, pitch, on_ground } => {
                &&& r matches Ok(None)
                &&& final(ser).output@ == old(ser).output@
                &&& *final(sess) == *old(sess)
                &&& *final(alloc) == *old(alloc)
                &&& pose_applied(
                    old(players)@,
                    final(players)@,
                    old(sess).username,
                    |p: Player| updated_full(p, x, stance, y, z, yaw, pitch, on_ground),
                )
            },
            Packet::PlayerPosition { x, y, stance, z, on_ground } => {
                &&& r matches Ok(None)
                &&& final(ser).output@ == old(ser).output@
                &&& *final(sess) == *old(sess)
                &&& *final(alloc) == *old(alloc)
                &&& pose_applied(
                    old(players)@,
                    final(players)@,
                    old(sess).username,
                    |p: Player| updated_position(p, x, y, stance, z, on_ground),
                )
            },
            Packet::PlayerLook { yaw, pitch, on_ground } => {
                &&& r matches Ok(None)
                &&& final(ser).output@ == old(ser).output@
                &&& *final(sess) == *old(sess)
                &&& *final(alloc) == *old(alloc)
                &&& pose_applied(
                    old(players)@,
                    final(players)@,
                    old(sess).username,
                    |p: Player| updated_look(p, yaw, pitch, on_ground),
                )
            },
            Packet::PlayerOnGround { on_ground } => {
                &&& r matches Ok(None)
                &&& final(ser).output@ == old(ser).output@
                &&& *final(sess) == *old(sess)
                &&& *final(alloc) == *old(alloc)
                &&& pose_applied(
                    old(players)@,
                    final(players)@,
                    old(sess).username,
                    |p: Player| updated_ground(p, on_ground),
                )
            },
        },
{
    match packet {
        Packet::KeepAlive => {
            ser.write_u8(0);
            assert(ser.output@ =~= old(ser).output@ + keep_alive_reply());
            Ok(None)
        },
        Packet::Handshake { username: _ } => {
            ser.write_u8(2);
            ser.write_u8(0);
            ser.write_u8(1);
            ser.write_u8(45);
            assert(ser.output@ =~= old(ser).output@ + handshake_reply());
            Ok(None)
        },
        Packet::ChatMessage { message: _ } => Ok(None),
        Packet::Unknown { id: _ } => Ok(None),
        Packet::Login { version, username, password: _, seed, dimension } => {
            if version != 3 {
                return Err(Error::InvalidProtocolVersion);
            }
            let entity_id = alloc.allocate();
            sess.username = Some(username.clone());

            ser.write_u8(packets::LOGIN);
            ser.write_be_i32(entity_id);
            ser.write_be_u16(0);
            ser.write_be_u16(0);
            ser.write_be_u64(seed);
            ser.write_u8(dimension);
            assert(ser.output@ =~= old(ser).output@ + login_response_bytes(
                entity_id,
                seed,
                dimension,
            ));

            let player = Player {
                username,
                logged_in: false,
                x: SPAWN_X_BITS,
                y: SPAWN_Y_BITS,
                z: SPAWN_Z_BITS,
                yaw: 0,
                pitch: 0,
                stance: SPAWN_STANCE_BITS,
                on_ground: true,
            };
            let player_index = players.len();
            players.push(player);
            assert(players@.subrange(0, old(players)@.len() as int) =~= old(players)@);

            let initial_chunk = spawn_chunk();
            assert(initial_chunk.blocks@ =~= Seq::new(32768, |i: int| 0u8));
            assert(initial_chunk.data@ =~= Seq::new(32768, |i: int| 0u8));
            assert(initial_chunk.block_light@ =~= Seq::new(32768, |i: int| 15u8));
            assert(initial_chunk.sky_light@ =~= Seq::new(32768, |i: int| 15u8));
            assert(chunk_payload(initial_chunk) == spawn_chunk_payload());
            assert(map_chunk_bytes(initial_chunk) == spawn_map_chunk_bytes());

            match ser.write_chunk(initial_chunk) {
                Ok(()) => {},
                Err(e) => {
                    assert(ser.output@ =~= old(ser).output@ + login_response_bytes(
                        entity_id,
                        seed,
                        dimension,
                    ) + pre_chunk_bytes(1, 1));
                    return Err(e);
                },
            }

            ser.write_u8(packets::SPAWN_POSITION);
            ser.write_be_i32(SPAWN_X_INT);
            ser.write_be_i32(SPAWN_Y_INT);
            ser.write_be_i32(SPAWN_Z_INT);

            ser.write_u8(packets::PLAYER_POSITION_AND_LOOK);
            ser.write_be_u64(SPAWN_X_BITS);
            ser.write_be_u64(SPAWN_STANCE_BITS);
            ser.write_be_u64(SPAWN_Y_BITS);
            ser.write_be_u64(SPAWN_Z_BITS);
            ser.write_be_u32(0);
            ser.write_be_u32(0);
            ser.write_u8(1);

            assert(ser.output@ =~= old(ser).output@ + login_response_bytes(
                entity_id,
                seed,
                dimension,
            ) + pre_chunk_bytes(1, 1) + spawn_map_chunk_bytes() + spawn_position_bytes()
                + position_look_bytes(players@.last()));
            Ok(Some(player_index))
        },
        Packet::PlayerPositionAndLook { x, stance, y, z, yaw, pitch, on_ground } => {
            match &sess.username {
                Some(name) => {
                    match find_player_index(players, name) {
                        Some(i) => {
                            proof {
                                crate::player::lemma_find_player_first(players@, name@);
                            }
                            players[i].x = x;
                            players[i].stance = stance;
                            players[i].y = y;
                            players[i].z = z;
                            players[i].yaw = yaw;
                            players[i].pitch = pitch;
                            players[i].on_ground = on_ground;
                            assert(players@ =~= old(players)@.update(
                                i as int,
                                updated_full(
                                    old(players)@[i as int],
                                    x,
                                    stance,
                                    y,
                                    z,
                                    yaw,
                                    pitch,
                                    on_ground,
                                ),
                            ));
                        },
                        None => {},
                    }
                },
                None => {},
            }
            Ok(None)
        },
        Packet::PlayerPosition { x, y, stance, z, on_ground } => {
            match &sess.username {
                Some(name) => {
                    match find_player_index(players, name) {
                        Some(i) => {
                            proof {
                                crate::player::lemma_find_player_first(players@, name@);
                            }
                            players[i].x = x;
                            players[i].y = y;
                            players[i].stance = stance;
                            players[i].z = z;
                            players[i].on_ground = on_ground;
                            assert(players@ =~= old(players)@.update(
                                i as int,
                                updated_position(old(players)@[i as int], x, y, stance, z, on_ground),
                            ));
                        },
                        None => {},
                    }
                },
                None => {},
            }
            Ok(None)
        },
        Packet::PlayerLook { yaw, pitch, on_ground } => {
            match &sess.username {
                Some(name) => {
                    match find_player_index(players, name) {
                        Some(i) => {
                            proof {
                                crate::player::lemma_find_player_first(players@, name@);
                            }
                            players[i].yaw = yaw;
                            players[i].pitch = pitch;
                            players[i].on_ground = on_ground;
                            assert(players@ =~= old(players)@.update(
                                i as int,
                                updated_look(old(players)@[i as int], yaw, pitch, on_ground),
                            ));
                        },
                        None => {},
                    }
                },
                None => {},
            }
            Ok(None)
        },
        Packet::PlayerOnGround { on_ground } => {
            match &sess.username {
                Some(name) => {
                    match find_player_index(players, name) {
                        Some(i) => {
                            proof {
                                crate::player::lemma_find_player_first(players@, name@);
                            }
                            players[i].on_ground = on_ground;
                            assert(players@ =~= old(players)@.update(
                                i as int,
                                updated_ground(old(players)@[i as int], on_ground),
                            ));
                        },
                        None => {},
                    }
                },
                None => {},
            }
            Ok(None)
        },
    }
}

} // verus!
