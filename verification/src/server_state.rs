//! The game server's shared state: login sessions, loaded characters, the
//! locations that run, and the messages between connections and locations.
use vstd::prelude::*;
use std::collections::HashMap;
use crate::protocol::{
    Coords, CoordsView, ItemDesc, ItemDescView, CharacterSlot, CharacterSlotView, CharacterInfo,
    CharacterInfoView, Packet,
};
use crate::rqode_binrw::{
    BodyParam, F32, InvSlot, RBool, RString, RVec, U8, U16, U32, U64,
};
use crate::server_db::{
    CharacterBundle, CharacterBundleView, Database, DbError, MockDatabase, mock_character,
    mock_account,
};
use crate::server_shard::{MobBundle, MobBundleView, PlayerBundle, PlayerBundleView};

verus! {

broadcast use vstd::std_specs::hash::group_hash_axioms;

#[verifier::external_type_specification]
#[verifier::external_body]
pub struct ExInstant(std::time::Instant);

/// An entity spawned in a location.
#[derive(Clone, Debug)]
pub enum EntityBundle {
    Player(PlayerBundle),
    Mob(MobBundle),
}

/// A message from a location to a player's connection.
#[derive(Clone, Debug)]
pub struct MessageFromShard {
    pub shard_id: u32,
    pub kind: MessageFromShardKind,
}

/// What a location tells a player's connection.
#[derive(Clone, Debug)]
pub enum MessageFromShardKind {
    /// An entity moved.
    EntityMove { id: u32, pos: Coords },
    /// An entity appeared.
    EntitySpawn { bundle: EntityBundle },
    /// The player's own entity is in the location.
    PlayerLoaded { bundle: PlayerBundle },
}

/// Mathematical form of [`EntityBundle`].
pub enum EntityBundleView {
    Player(PlayerBundleView),
    Mob(MobBundleView),
}

impl View for EntityBundle {
    type V = EntityBundleView;

    open spec fn view(&self) -> EntityBundleView {
        match self {
            EntityBundle::Player(b) => EntityBundleView::Player(b@),
            EntityBundle::Mob(b) => EntityBundleView::Mob(b@),
        }
    }
}

/// Mathematical form of [`MessageFromShardKind`].
pub enum MessageFromShardKindView {
    EntityMove { id: u32, pos: CoordsView },
    EntitySpawn { bundle: EntityBundleView },
    PlayerLoaded { bundle: PlayerBundleView },
}

/// Mathematical form of [`MessageFromShard`].
pub struct MessageFromShardView {
    pub shard_id: u32,
    pub kind: MessageFromShardKindView,
}

impl View for MessageFromShard {
    type V = MessageFromShardView;

    open spec fn view(&self) -> MessageFromShardView {
        MessageFromShardView {
            shard_id: self.shard_id,
            kind: match self.kind {
                MessageFromShardKind::EntityMove { id, pos } => MessageFromShardKindView::EntityMove { id, pos: pos@ },
                MessageFromShardKind::EntitySpawn { bundle } => MessageFromShardKindView::EntitySpawn { bundle: bundle@ },
                MessageFromShardKind::PlayerLoaded { bundle } => MessageFromShardKindView::PlayerLoaded { bundle: bundle@ },
            },
        }
    }
}

/// A message from a connection to a location.
#[derive(Clone, Debug)]
pub enum MessageForShard {
    /// A player enters.
    PlayerEnter { id: u32 },
    /// A player moved.
    PlayerMove { id: u32, pos: Coords },
    /// A player asks for a mob.
    MobSpawn { player_id: u32, level: u16, mob_id: u16, hp: u32 },
}

/// A message addressed to the location with id `shard`.
#[derive(Clone, Debug)]
pub struct ShardMessage {
    pub shard: u32,
    pub msg: MessageForShard,
}

/// What a connection knows of its player.
#[derive(Clone, Copy, Debug, PartialEq, Eq, Structural)]
pub struct ConnectionInfo {
    pub session: Option<u64>,
    pub character_id: Option<u32>,
    pub shard_id: Option<u32>,
}

/// Errors of the server's request handling.
#[derive(Clone, Debug)]
pub enum StateError {
    /// The connection has no location yet.
    NoShardId,
    /// No location runs with this id.
    NoSuchShard(u32),
    /// The connection has no character yet.
    NoCharId,
    /// The connection has not logged in.
    NoSessionYet,
    /// No login with this session key.
    NoSession(u64),
    /// No account with this name.
    NoUser(String),
    /// No stored character with this id.
    NoSuchCharacter(u32),
    /// A character was chosen before it was loaded.
    CharacterNotLoaded(u32),
    /// The character store failed.
    Db(DbError),
}

/// Milliseconds since the Unix epoch, from the system clock.
///
/// Trusted: reads `chrono::Utc::now`; nothing is stated of the time.
#[verifier::external_body]
fn unix_millis() -> (r: u64) {
    chrono::Utc::now().timestamp_millis() as u64
}

/// Seconds since the Unix epoch, from the system clock.
///
/// Trusted: reads `chrono::Utc::now`; nothing is stated of the time.
#[verifier::external_body]
pub(crate) fn unix_time() -> (r: u64) {
    chrono::Utc::now().timestamp() as u64
}

/// The monotonic clock's current instant.
///
/// Trusted: `std::time::Instant::now`; nothing is stated of it.
#[verifier::external_body]
fn instant_now() -> (r: std::time::Instant) {
    std::time::Instant::now()
}

/// Milliseconds since `start`, truncated to 32 bits.
///
/// Trusted: `Instant::elapsed` and `Duration::as_millis`; nothing is
/// stated of the time.
#[verifier::external_body]
fn millis_since(start: &std::time::Instant) -> (r: u32) {
    start.elapsed().as_millis() as u32
}

/// A random session key.
///
/// Trusted: `rand::random`; nothing is stated of the value.
#[verifier::external_body]
pub(crate) fn random_session_key() -> (r: u64) {
    rand::random::<u64>()
}

/// The shared state of the game server.
pub struct State {
    /// Logged-in sessions: session key to account name.
    pub sessions: HashMap<u64, String>,
    /// Characters loaded from the store, by id.
    pub chardata: HashMap<u32, CharacterBundle>,
    /// The character store.
    pub db: MockDatabase,
    /// Ids of the locations that run.
    pub shards: Vec<u32>,
    /// Ids of the characters that have a message channel.
    pub players: Vec<u32>,
    /// Messages for locations, oldest first, waiting to be delivered.
    pub outbox: Vec<ShardMessage>,
    /// When the server started.
    pub starttime: std::time::Instant,
}

/// The views of a session table: session key to account name.
pub open spec fn sessions_view(m: Map<u64, String>) -> Map<u64, Seq<char>> {
    Map::new(|k: u64| m.dom().contains(k), |k: u64| m[k]@)
}

/// The views of the loaded characters.
pub open spec fn chardata_view(m: Map<u32, CharacterBundle>) -> Map<u32, CharacterBundleView> {
    Map::new(|k: u32| m.dom().contains(k), |k: u32| m[k]@)
}

pub(crate) fn seq_has(v: &Vec<u32>, x: u32) -> (r: bool)
    ensures
        r == v@.contains(x),
{
    let mut k: usize = 0;
    while k < v.len()
        invariant
            k <= v@.len(),
            forall|m: int| 0 <= m < k ==> v@[m] != x,
        decreases v@.len() - k,
    {
        if v[k] == x {
            return true;
        }
        k = k + 1;
    }
    false
}

/// What passing a client packet to the player's location does: a
/// character move is queued as a player move for the connection's location;
/// the connection must have a running location and a character.
pub open spec fn shard_packet_outcome(s0: State, s1: State, i0: ConnectionInfo, i1: ConnectionInfo, packet: Packet, r: Result<(), StateError>) -> bool {
    &&& i1 == i0
    &&& s1.sessions@ == s0.sessions@
    &&& s1.chardata@ == s0.chardata@
    &&& s1.shards@ == s0.shards@
    &&& s1.players@ == s0.players@
    &&& match i0.shard_id {
        None => r matches Err(StateError::NoShardId) && s1.outbox@ == s0.outbox@,
        Some(s) => if !s0.shards@.contains(s) {
            r matches Err(StateError::NoSuchShard(x)) && x == s
                && s1.outbox@ == s0.outbox@
        } else {
            match i0.character_id {
                None => r matches Err(StateError::NoCharId) && s1.outbox@ == s0.outbox@,
                Some(c) => r is Ok && match packet {
                    Packet::CharacterMove(m) => {
                        &&& s1.outbox@.drop_last() == s0.outbox@
                        &&& s1.outbox@.len() == s0.outbox@.len() + 1
                        &&& s1.outbox@.last().shard == s
                        &&& s1.outbox@.last().msg matches MessageForShard::PlayerMove { id, pos }
                        &&& id == c && pos@ == m.coords@
                    },
                    _ => s1.outbox@ == s0.outbox@,
                },
            }
        },
    }
}

impl State {
    /// An empty state: no sessions, characters, locations or messages.
    pub fn new() -> (r: Self)
        ensures
            r.sessions@ == Map::<u64, String>::empty(),
            r.chardata@ == Map::<u32, CharacterBundle>::empty(),
            r.shards@ == Seq::<u32>::empty(),
            r.players@ == Seq::<u32>::empty(),
            r.outbox@.len() == 0,
    {
        State {
            sessions: HashMap::new(),
            chardata: HashMap::new(),
            db: MockDatabase,
            shards: Vec::new(),
            players: Vec::new(),
            outbox: Vec::new(),
            starttime: instant_now(),
        }
    }

    /// Milliseconds since the Unix epoch.
    pub fn timestamp(&self) -> (r: u64) {
        unix_millis()
    }

    /// Milliseconds since the server started (32 bits).
    pub fn uptime(&self) -> (r: u32) {
        millis_since(&self.starttime)
    }

    /// Loads a stored character into memory.
    pub fn load_char_from_db(&mut self, id: u32) -> (r: Result<(), StateError>)
        ensures
            final(self).sessions@ == old(self).sessions@,
            final(self).shards@ == old(self).shards@,
            final(self).players@ == old(self).players@,
            final(self).outbox@ == old(self).outbox@,
            match mock_character(id) {
                Some(c) => r is Ok && chardata_view(final(self).chardata@) == chardata_view(
                    old(self).chardata@,
                ).insert(id, c),
                None => r matches Err(StateError::NoSuchCharacter(x)) && x == id
                    && final(self).chardata@ == old(self).chardata@,
            },
    {
        let found = match self.db.read_character(id) {
            Ok(f) => f,
            Err(e) => {
                return Err(StateError::Db(e));
            },
        };
        match found {
            Some(bundle) => {
                self.chardata.insert(id, bundle);
                assert(chardata_view(self.chardata@) =~= chardata_view(old(self).chardata@).insert(
                    id,
                    mock_character(id).unwrap(),
                ));
                Ok(())
            },
            None => Err(StateError::NoSuchCharacter(id)),
        }
    }

    /// Queues a message for a running location.
    pub fn send_msg_to_shard(&mut self, info: &mut ConnectionInfo, shard_id: u32, msg: MessageForShard) -> (r: Result<(), StateError>)
        ensures
            *final(info) == *old(info),
            final(self).sessions@ == old(self).sessions@,
            final(self).chardata@ == old(self).chardata@,
            final(self).shards@ == old(self).shards@,
            final(self).players@ == old(self).players@,
            if old(self).shards@.contains(shard_id) {
                r is Ok && final(self).outbox@.len() == old(self).outbox@.len() + 1
                    && final(self).outbox@.drop_last() == old(self).outbox@
                    && final(self).outbox@.last().shard == shard_id
                    && final(self).outbox@.last().msg == msg
            } else {
                r matches Err(StateError::NoSuchShard(x)) && x == shard_id
                    && final(self).outbox@ == old(self).outbox@
            },
    {
        if !seq_has(&self.shards, shard_id) {
            return Err(StateError::NoSuchShard(shard_id));
        }
        self.outbox.push(ShardMessage { shard: shard_id, msg });
        assert(self.outbox@.drop_last() =~= old(self).outbox@);
        Ok(())
    }

    /// Passes a client packet on to the player's location: a character move
    /// becomes a player move; other packets are not handled there.
    pub fn send_packet_to_shard(&mut self, info: &mut ConnectionInfo, packet: Packet) -> (r: Result<(), StateError>)
        ensures
            shard_packet_outcome(*old(self), *final(self), *old(info), *final(info), packet, r),

    {
        let shard = match info.shard_id {
            Some(s) => s,
            None => {
                return Err(StateError::NoShardId);
            },
        };
        if !seq_has(&self.shards, shard) {
            return Err(StateError::NoSuchShard(shard));
        }
        let charid = match info.character_id {
            Some(c) => c,
            None => {
                return Err(StateError::NoCharId);
            },
        };
        match packet {
            Packet::CharacterMove(p) => {
                self.outbox.push(
                    ShardMessage { shard, msg: MessageForShard::PlayerMove { id: charid, pos: p.coords } },
                );
                assert(self.outbox@.drop_last() =~= old(self).outbox@);
            },
            _ => {},
        }
        Ok(())
    }
}

} // verus!
