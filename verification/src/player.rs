//! Player records. A record is created on successful login and mutated only
//! via pose packets from the session bound to its username.
//!
//! Pose fields travel on the wire as IEEE-754 values; the registry stores
//! them as their big-endian bit patterns (`u64` for doubles, `u32` for
//! floats) and never computes on them, so a record holds exactly what was
//! framed.

use vstd::prelude::*;

verus! {

/// The f64 bit pattern of the spawn x coordinate, 0.0.
pub const SPAWN_X_BITS: u64 = 0x0;

/// The f64 bit pattern of the spawn y coordinate, 80.0.
pub const SPAWN_Y_BITS: u64 = 0x4054000000000000;

/// The f64 bit pattern of the spawn z coordinate, 0.0.
pub const SPAWN_Z_BITS: u64 = 0x0;

/// The f64 bit pattern of the spawn stance (eye height), 81.6.
pub const SPAWN_STANCE_BITS: u64 = 0x4054666666666666;

/// The spawn position as integers: the spawn coordinates (0.0, 80.0, 0.0)
/// truncated to i32, as the spawn-position packet carries them.
pub const SPAWN_X_INT: i32 = 0;

pub const SPAWN_Y_INT: i32 = 80;

pub const SPAWN_Z_INT: i32 = 0;

/// One player's record: the session-scoped identity key, whether login has
/// completed, and the pose. `x`, `y`, `z` and `stance` hold f64 bit
/// patterns; `yaw` and `pitch` hold f32 bit patterns; `stance` is the
/// eye-height offset, distinct from `y`.
#[derive(Debug, Clone, PartialEq)]
pub struct Player {
    pub username: String,
    pub logged_in: bool,
    pub x: u64,
    pub y: u64,
    pub z: u64,
    pub yaw: u32,
    pub pitch: u32,
    pub stance: u64,
    pub on_ground: bool,
}

/// True when `p` is the record a fresh login inserts for `username`:
/// position (0, 80, 0), stance 81.6, orientation (0, 0), on the ground,
/// not yet marked logged in.
pub open spec fn is_new_player(p: Player, username: Seq<char>) -> bool {
    &&& p.username@ == username
    &&& p.logged_in == false
    &&& p.x == SPAWN_X_BITS
    &&& p.y == SPAWN_Y_BITS
    &&& p.z == SPAWN_Z_BITS
    &&& p.yaw == 0u32
    &&& p.pitch == 0u32
    &&& p.stance == SPAWN_STANCE_BITS
    &&& p.on_ground == true
}

/// The index of the first record in `players` whose username is `name`, as
/// the linear scan finds it; `None` when no record matches.
pub open spec fn find_player(players: Seq<Player>, name: Seq<char>) -> Option<int>
    decreases players.len(),
{
    if players.len() == 0 {
        None
    } else if players[0].username@ == name {
        Some(0)
    } else {
        match find_player(players.subrange(1, players.len() as int), name) {
            Some(i) => Some(i + 1),
            None => None,
        }
    }
}

/// What `find_player` returns is a matching index, the first one.
pub proof fn lemma_find_player_first(players: Seq<Player>, name: Seq<char>)
    ensures
        match find_player(players, name) {
            Some(i) => 0 <= i < players.len() && players[i].username@ == name && forall|j: int|
                0 <= j < i ==> players[j].username@ != name,
            None => forall|j: int| 0 <= j < players.len() ==> players[j].username@ != name,
        },
    decreases players.len(),
{
    if players.len() > 0 && players[0].username@ != name {
        let tail = players.subrange(1, players.len() as int);
        lemma_find_player_first(tail, name);
        assert(forall|j: int| 0 <= j < tail.len() ==> #[trigger] tail[j] == players[j + 1]);
        match find_player(tail, name) {
            Some(i) => {
                assert(find_player(players, name) == Some(i + 1));
                assert(players[i + 1].username@ == name);
                assert forall|j: int| 1 <= j < i + 1 implies players[j].username@ != name by {
                    assert(tail[j - 1] == players[j]);
                    assert(tail[j - 1].username@ != name);
                }
            },
            None => {
                assert forall|j: int| 1 <= j < players.len() implies players[j].username@
                    != name by {
                    assert(tail[j - 1] == players[j]);
                    assert(tail[j - 1].username@ != name);
                }
            },
        }
    }
}

/// Finds the first record with the given username by linear scan.
pub fn find_player_index(players: &Vec<Player>, name: &String) -> (r: Option<usize>)
    ensures
        match r {
            Some(i) => find_player(players@, name@) == Some(i as int),
            None => find_player(players@, name@) is None,
        },
{
    proof {
        lemma_find_player_first(players@, name@);
    }
    let mut i: usize = 0;
    while i < players.len()
        invariant
            i <= players@.len(),
            forall|j: int| 0 <= j < i ==> players@[j].username@ != name@,
            match find_player(players@, name@) {
                Some(k) => 0 <= k < players@.len() && players@[k].username@ == name@ && forall|
                    j: int,
                |
                    0 <= j < k ==> players@[j].username@ != name@,
                None => forall|j: int| 0 <= j < players@.len() ==> players@[j].username@ != name@,
            },
        decreases players@.len() - i,
    {
        if players[i].username.eq(name) {
            return Some(i);
        }
        i = i + 1;
    }
    None
}

} // verus!
