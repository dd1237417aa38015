//! A running location ("shard"): its entities, the messages that change
//! them, and the messages each update sends to the players there.
use vstd::prelude::*;
use crate::protocol::{Coords, CoordsView};
use crate::rqode_binrw::F32;
use crate::server_db::{CharacterBundle, CharacterBundleView};
use crate::server_shard::{
    Energy, Health, Id, Level, MobBundle, MobBundleView, Name, Player, PlayerBundle,
    PlayerBundleView, Position, Vector, player_of, still,
};
use crate::server_state::{
    EntityBundle, EntityBundleView, MessageForShard, MessageFromShard, MessageFromShardKind,
    MessageFromShardKindView, MessageFromShardView, State, chardata_view,
};

verus! {

broadcast use vstd::std_specs::hash::group_hash_axioms;

/// An entity of a location, with whether it appeared and whether it moved
/// since the last update.
pub struct ShardEntity {
    pub bundle: EntityBundle,
    pub spawned: bool,
    pub moved: bool,
}

/// Mathematical form of [`ShardEntity`].
pub struct ShardEntityView {
    pub bundle: EntityBundleView,
    pub spawned: bool,
    pub moved: bool,
}

impl View for ShardEntity {
    type V = ShardEntityView;

    open spec fn view(&self) -> ShardEntityView {
        ShardEntityView { bundle: self.bundle@, spawned: self.spawned, moved: self.moved }
    }
}

/// The id of an entity.
pub open spec fn entity_id(e: EntityBundleView) -> u32 {
    match e {
        EntityBundleView::Player(p) => p.id,
        EntityBundleView::Mob(m) => m.id,
    }
}

/// The position of an entity.
pub open spec fn entity_pos(e: EntityBundleView) -> CoordsView {
    match e {
        EntityBundleView::Player(p) => p.pos,
        EntityBundleView::Mob(m) => m.pos,
    }
}

/// A player entity as it is sent: standing still.
pub open spec fn sent_player(p: PlayerBundleView) -> PlayerBundleView {
    PlayerBundleView { vel: still(), ..p }
}

/// A message from location `loc` to the player `to`.
pub struct Outgoing {
    pub to: u32,
    pub msg: MessageFromShard,
}

/// Mathematical form of [`Outgoing`].
pub struct OutgoingView {
    pub to: u32,
    pub msg: MessageFromShardView,
}

impl View for Outgoing {
    type V = OutgoingView;

    open spec fn view(&self) -> OutgoingView {
        OutgoingView { to: self.to, msg: self.msg@ }
    }
}

/// The message telling `to` that the player `p` is there.
pub open spec fn spawn_note(loc: u32, to: u32, p: PlayerBundleView) -> OutgoingView {
    OutgoingView {
        to,
        msg: MessageFromShardView {
            shard_id: loc,
            kind: MessageFromShardKindView::EntitySpawn { bundle: EntityBundleView::Player(sent_player(p)) },
        },
    }
}

/// For player `p`: a note about each other player among the first `k`
/// entities.
pub open spec fn others_for(loc: u32, p: PlayerBundleView, ents: Seq<ShardEntityView>, k: int) -> Seq<OutgoingView>
    decreases k,
{
    if k <= 0 {
        Seq::empty()
    } else {
        others_for(loc, p, ents, k - 1) + match ents[k - 1].bundle {
            EntityBundleView::Player(q) => if q.id != p.id {
                seq![spawn_note(loc, p.id, q)]
            } else {
                Seq::empty()
            },
            EntityBundleView::Mob(_) => Seq::empty(),
        }
    }
}

/// First part of an update, for each newly spawned player among the first
/// `k` entities that has a channel: its own data, then the other players.
pub open spec fn spawn_part(loc: u32, ents: Seq<ShardEntityView>, chans: Seq<u32>, k: int) -> Seq<OutgoingView>
    decreases k,
{
    if k <= 0 {
        Seq::empty()
    } else {
        spawn_part(loc, ents, chans, k - 1) + match ents[k - 1].bundle {
            EntityBundleView::Player(p) => if ents[k - 1].spawned && chans.contains(p.id) {
                seq![
                    OutgoingView {
                        to: p.id,
                        msg: MessageFromShardView {
                            shard_id: loc,
                            kind: MessageFromShardKindView::PlayerLoaded { bundle: sent_player(p) },
                        },
                    },
                ] + others_for(loc, p, ents, ents.len() as int)
            } else {
                Seq::empty()
            },
            EntityBundleView::Mob(_) => Seq::empty(),
        }
    }
}

/// For player `to`: a note about each newly spawned other player among the
/// first `k` entities.
pub open spec fn spawned_for(loc: u32, to: u32, ents: Seq<ShardEntityView>, k: int) -> Seq<OutgoingView>
    decreases k,
{
    if k <= 0 {
        Seq::empty()
    } else {
        spawned_for(loc, to, ents, k - 1) + match ents[k - 1].bundle {
            EntityBundleView::Player(q) => if ents[k - 1].spawned && q.id != to {
                seq![spawn_note(loc, to, q)]
            } else {
                Seq::empty()
            },
            EntityBundleView::Mob(_) => Seq::empty(),
        }
    }
}

/// Second part of an update: each player among the first `k` entities that
/// has a channel hears of the newly spawned other players.
pub open spec fn notify_part(loc: u32, ents: Seq<ShardEntityView>, chans: Seq<u32>, k: int) -> Seq<OutgoingView>
    decreases k,
{
    if k <= 0 {
        Seq::empty()
    } else {
        notify_part(loc, ents, chans, k - 1) + match ents[k - 1].bundle {
            EntityBundleView::Player(q) => if chans.contains(q.id) {
                spawned_for(loc, q.id, ents, ents.len() as int)
            } else {
                Seq::empty()
            },
            EntityBundleView::Mob(_) => Seq::empty(),
        }
    }
}

/// For player `to`: a move note about each other entity among the first
/// `k` that moved.
pub open spec fn moves_for(loc: u32, to: u32, ents: Seq<ShardEntityView>, k: int) -> Seq<OutgoingView>
    decreases k,
{
    if k <= 0 {
        Seq::empty()
    } else {
        moves_for(loc, to, ents, k - 1) + if ents[k - 1].moved && entity_id(ents[k - 1].bundle) != to {
            seq![
                OutgoingView {
                    to,
                    msg: MessageFromShardView {
                        shard_id: loc,
                        kind: MessageFromShardKindView::EntityMove {
                            id: entity_id(ents[k - 1].bundle),
                            pos: entity_pos(ents[k - 1].bundle),
                        },
                    },
                },
            ]
        } else {
            Seq::empty()
        }
    }
}

/// Third part of an update: each player among the first `k` entities that
/// has a channel hears of the other entities that moved.
pub open spec fn move_part(loc: u32, ents: Seq<ShardEntityView>, chans: Seq<u32>, k: int) -> Seq<OutgoingView>
    decreases k,
{
    if k <= 0 {
        Seq::empty()
    } else {
        move_part(loc, ents, chans, k - 1) + match ents[k - 1].bundle {
            EntityBundleView::Player(q) => if chans.contains(q.id) {
                moves_for(loc, q.id, ents, ents.len() as int)
            } else {
                Seq::empty()
            },
            EntityBundleView::Mob(_) => Seq::empty(),
        }
    }
}

/// The messages of one update of a location: spawned players get their own
/// data and the other players; the players there hear of spawned players;
/// then the players hear of every entity that moved (an entity that
/// appeared counts as moved).
pub open spec fn update_messages(loc: u32, ents: Seq<ShardEntityView>, chans: Seq<u32>) -> Seq<OutgoingView> {
    spawn_part(loc, ents, chans, ents.len() as int) + notify_part(loc, ents, chans, ents.len() as int)
        + move_part(loc, ents, chans, ents.len() as int)
}

/// The views of a list of outgoing messages.
pub open spec fn outgoing_view(v: Seq<Outgoing>) -> Seq<OutgoingView> {
    v.map_values(|o: Outgoing| o@)
}

/// The views of a list of entities.
pub open spec fn entities_view(v: Seq<ShardEntity>) -> Seq<ShardEntityView> {
    v.map_values(|e: ShardEntity| e@)
}

fn sent_copy(b: &PlayerBundle) -> (r: PlayerBundle)
    ensures
        r@ == sent_player(b@),
{
    PlayerBundle {
        player: b.player,
        id: b.id,
        name: Name { name: String::from_str(b.name.name.as_str()) },
        pos: Position(Coords { x: b.pos.0.x, y: b.pos.0.y }),
        vel: Vector { x: F32(0), y: F32(0), rot: F32(0) },
        health: b.health,
        energy: b.energy,
        level: b.level,
    }
}

fn spawn_note_exec(loc: u32, to: u32, p: &PlayerBundle) -> (r: Outgoing)
    ensures
        r@ == spawn_note(loc, to, p@),
{
    Outgoing {
        to,
        msg: MessageFromShard {
            shard_id: loc,
            kind: MessageFromShardKind::EntitySpawn { bundle: EntityBundle::Player(sent_copy(p)) },
        },
    }
}

fn has_channel(chans: &Vec<u32>, id: u32) -> (r: bool)
    ensures
        r == chans@.contains(id),
{
    crate::server_state::seq_has(chans, id)
}

fn push_out(out: &mut Vec<Outgoing>, o: Outgoing)
    ensures
        outgoing_view(final(out)@) == outgoing_view(old(out)@).push(o@),
{
    out.push(o);
    assert(outgoing_view(out@) =~= outgoing_view(old(out)@).push(o@));
}

fn others_into(loc: u32, p: &PlayerBundle, ents: &Vec<ShardEntity>, out: &mut Vec<Outgoing>)
    ensures
        outgoing_view(final(out)@) == outgoing_view(old(out)@) + others_for(
            loc,
            p@,
            entities_view(ents@),
            ents@.len() as int,
        ),
{
    let ghost ev = entities_view(ents@);
    let mut k: usize = 0;
    while k < ents.len()
        invariant
            k <= ents@.len(),
            ev == entities_view(ents@),
            outgoing_view(out@) == outgoing_view(old(out)@) + others_for(loc, p@, ev, k as int),
        decreases ents@.len() - k,
    {
        let ghost before = outgoing_view(out@);
        assert(ev[k as int] == ents@[k as int]@);
        match &ents[k].bundle {
            EntityBundle::Player(q) => {
                if q.id.0 != p.id.0 {
                    push_out(out, spawn_note_exec(loc, p.id.0, q));
                }
            },
            EntityBundle::Mob(_) => {},
        }
        assert(outgoing_view(out@) =~= outgoing_view(old(out)@) + others_for(loc, p@, ev, k + 1));
        k = k + 1;
    }
}

fn spawned_into(loc: u32, to: u32, ents: &Vec<ShardEntity>, out: &mut Vec<Outgoing>)
    ensures
        outgoing_view(final(out)@) == outgoing_view(old(out)@) + spawned_for(
            loc,
            to,
            entities_view(ents@),
            ents@.len() as int,
        ),
{
    let ghost ev = entities_view(ents@);
    let mut k: usize = 0;
    while k < ents.len()
        invariant
            k <= ents@.len(),
            ev == entities_view(ents@),
            outgoing_view(out@) == outgoing_view(old(out)@) + spawned_for(loc, to, ev, k as int),
        decreases ents@.len() - k,
    {
        assert(ev[k as int] == ents@[k as int]@);
        let e = &ents[k];
        match &e.bundle {
            EntityBundle::Player(q) => {
                if e.spawned && q.id.0 != to {
                    push_out(out, spawn_note_exec(loc, to, q));
                }
            },
            EntityBundle::Mob(_) => {},
        }
        assert(outgoing_view(out@) =~= outgoing_view(old(out)@) + spawned_for(loc, to, ev, k + 1));
        k = k + 1;
    }
}

fn moves_into(loc: u32, to: u32, ents: &Vec<ShardEntity>, out: &mut Vec<Outgoing>)
    ensures
        outgoing_view(final(out)@) == outgoing_view(old(out)@) + moves_for(
            loc,
            to,
            entities_view(ents@),
            ents@.len() as int,
        ),
{
    let ghost ev = entities_view(ents@);
    let mut k: usize = 0;
    while k < ents.len()
        invariant
            k <= ents@.len(),
            ev == entities_view(ents@),
            outgoing_view(out@) == outgoing_view(old(out)@) + moves_for(loc, to, ev, k as int),
        decreases ents@.len() - k,
    {
        assert(ev[k as int] == ents@[k as int]@);
        let e = &ents[k];
        let (id, pos) = match &e.bundle {
            EntityBundle::Player(q) => (q.id.0, Coords { x: q.pos.0.x, y: q.pos.0.y }),
            EntityBundle::Mob(m) => (m.id.0, Coords { x: m.pos.0.x, y: m.pos.0.y }),
        };
        if e.moved && id != to {
            push_out(
                out,
                Outgoing {
                    to,
                    msg: MessageFromShard { shard_id: loc, kind: MessageFromShardKind::EntityMove { id, pos } },
                },
            );
        }
        assert(outgoing_view(out@) =~= outgoing_view(old(out)@) + moves_for(loc, to, ev, k + 1));
        k = k + 1;
    }
}

/// An entity moved to `pos`.
pub open spec fn with_pos(e: EntityBundleView, pos: CoordsView) -> EntityBundleView {
    match e {
        EntityBundleView::Player(p) => EntityBundleView::Player(PlayerBundleView { pos, ..p }),
        EntityBundleView::Mob(m) => EntityBundleView::Mob(MobBundleView { pos, ..m }),
    }
}

/// The entity after a move of the entities with id `id` to `pos`.
pub open spec fn moved_to(e: ShardEntityView, id: u32, pos: CoordsView) -> ShardEntityView {
    if entity_id(e.bundle) == id {
        ShardEntityView { bundle: with_pos(e.bundle, pos), moved: true, ..e }
    } else {
        e
    }
}

fn copy_character(c: &CharacterBundle) -> (r: CharacterBundle)
    ensures
        r@ == c@,
{
    CharacterBundle {
        char: crate::server_db::Character {
            id: c.char.id,
            sex: c.char.sex,
            body: c.char.body,
            class: c.char.class,
            name: String::from_str(c.char.name.as_str()),
            level: c.char.level,
            pos: Coords { x: c.char.pos.x, y: c.char.pos.y },
            location: c.char.location,
        },
        stats: c.stats,
    }
}

/// A running location: its id and its entities.
pub struct ShardState {
    pub location: u32,
    pub entities: Vec<ShardEntity>,
}

impl ShardState {
    /// Starts a location: it is registered as running, with no entities.
    pub fn new(location: u32, state: &mut State) -> (r: Self)
        ensures
            r.location == location,
            r.entities@.len() == 0,
            final(state).shards@.to_set() == old(state).shards@.to_set().insert(location),
            final(state).sessions@ == old(state).sessions@,
            final(state).chardata@ == old(state).chardata@,
            final(state).players@ == old(state).players@,
            final(state).outbox@ == old(state).outbox@,
    {
        if !crate::server_state::seq_has(&state.shards, location) {
            state.shards.push(location);
            assert forall|x: u32| #[trigger] state.shards@.contains(x) <==> old(state).shards@.contains(x) || x == location by {
                if state.shards@.contains(x) {
                    let j = choose|j: int| 0 <= j < state.shards@.len() && state.shards@[j] == x;
                    if j < old(state).shards@.len() {
                        assert(old(state).shards@[j] == x);
                    }
                }
                if old(state).shards@.contains(x) {
                    let j = choose|j: int| 0 <= j < old(state).shards@.len() && old(state).shards@[j] == x;
                    assert(state.shards@[j] == x);
                }
                if x == location {
                    assert(state.shards@[state.shards@.len() - 1] == location);
                }
            }
        }
        assert(state.shards@.to_set() =~= old(state).shards@.to_set().insert(location));
        ShardState { location, entities: Vec::new() }
    }

    /// The messages of an update: players that appeared get their own data
    /// and the other players, the players there hear of them, and every
    /// player hears of the other entities that moved. Afterwards nothing
    /// counts as newly appeared or moved.
    pub fn tick(&mut self, state: &State) -> (r: Vec<Outgoing>)
        ensures
            outgoing_view(r@) == update_messages(old(self).location, entities_view(old(self).entities@), state.players@),
            final(self).location == old(self).location,
            final(self).entities@.len() == old(self).entities@.len(),
            forall|k: int|
                0 <= k < old(self).entities@.len() ==> (#[trigger] final(self).entities@[k])@ == (ShardEntityView {
                    spawned: false,
                    moved: false,
                    ..old(self).entities@[k]@
                }),
    {
        let loc = self.location;
        let ghost ev = entities_view(self.entities@);
        let n = self.entities.len();
        let mut out: Vec<Outgoing> = Vec::new();
        let mut k: usize = 0;
        while k < n
            invariant
                k <= n,
                n == self.entities@.len(),
                ev == entities_view(self.entities@),
                loc == self.location,
                outgoing_view(out@) == spawn_part(loc, ev, state.players@, k as int),
            decreases n - k,
        {
            assert(ev[k as int] == self.entities@[k as int]@);
            let e = &self.entities[k];
            let ghost before = outgoing_view(out@);
            match &e.bundle {
                EntityBundle::Player(p) => {
                    if e.spawned && has_channel(&state.players, p.id.0) {
                        push_out(
                            &mut out,
                            Outgoing {
                                to: p.id.0,
                                msg: MessageFromShard {
                                    shard_id: loc,
                                    kind: MessageFromShardKind::PlayerLoaded { bundle: sent_copy(p) },
                                },
                            },
                        );
                        others_into(loc, p, &self.entities, &mut out);
                    }
                },
                EntityBundle::Mob(_) => {},
            }
            assert(outgoing_view(out@) =~= spawn_part(loc, ev, state.players@, k + 1));
            k = k + 1;
        }
        let ghost part1 = outgoing_view(out@);
        let mut k: usize = 0;
        while k < n
            invariant
                k <= n,
                n == self.entities@.len(),
                ev == entities_view(self.entities@),
                loc == self.location,
                outgoing_view(out@) == part1 + notify_part(loc, ev, state.players@, k as int),
            decreases n - k,
        {
            assert(ev[k as int] == self.entities@[k as int]@);
            let e = &self.entities[k];
            match &e.bundle {
                EntityBundle::Player(q) => {
                    if has_channel(&state.players, q.id.0) {
                        spawned_into(loc, q.id.0, &self.entities, &mut out);
                    }
                },
                EntityBundle::Mob(_) => {},
            }
            assert(outgoing_view(out@) =~= part1 + notify_part(loc, ev, state.players@, k + 1));
            k = k + 1;
        }
        let ghost part2 = outgoing_view(out@);
        let mut k: usize = 0;
        while k < n
            invariant
                k <= n,
                n == self.entities@.len(),
                ev == entities_view(self.entities@),
                loc == self.location,
                outgoing_view(out@) == part2 + move_part(loc, ev, state.players@, k as int),
            decreases n - k,
        {
            assert(ev[k as int] == self.entities@[k as int]@);
            let e = &self.entities[k];
            match &e.bundle {
                EntityBundle::Player(q) => {
                    if has_channel(&state.players, q.id.0) {
                        moves_into(loc, q.id.0, &self.entities, &mut out);
                    }
                },
                EntityBundle::Mob(_) => {},
            }
            assert(outgoing_view(out@) =~= part2 + move_part(loc, ev, state.players@, k + 1));
            k = k + 1;
        }
        assert(outgoing_view(out@) =~= update_messages(loc, ev, state.players@));
        let mut k: usize = 0;
        while k < n
            invariant
                k <= n,
                n == self.entities@.len(),
                loc == self.location,
                loc == old(self).location,
                forall|m: int|
                    0 <= m < k ==> (#[trigger] self.entities@[m])@ == (ShardEntityView {
                        spawned: false,
                        moved: false,
                        ..old(self).entities@[m]@
                    }),
                forall|m: int| k <= m < n ==> (#[trigger] self.entities@[m]) == old(self).entities@[m],
            decreases n - k,
        {
            let mut e = self.entities.remove(k);
            e.spawned = false;
            e.moved = false;
            self.entities.insert(k, e);
            k = k + 1;
        }
        out
    }
}

impl ShardState {
    /// Applies a message to the location: an entering player whose
    /// character is loaded appears (as newly appeared and moved); a player
    /// move moves every entity with that id; a mob request changes nothing.
    pub fn on_msg(&mut self, state: &State, msg: MessageForShard)
        ensures
            final(self).location == old(self).location,
            match msg {
                MessageForShard::PlayerEnter { id } => match chardata_view(state.chardata@).get(id) {
                    Some(c) => entities_view(final(self).entities@) == entities_view(old(self).entities@).push(
                        ShardEntityView { bundle: EntityBundleView::Player(player_of(c)), spawned: true, moved: true },
                    ),
                    None => entities_view(final(self).entities@) == entities_view(old(self).entities@),
                },
                MessageForShard::PlayerMove { id, pos } => entities_view(final(self).entities@)
                    == entities_view(old(self).entities@).map_values(|e: ShardEntityView| moved_to(e, id, pos@)),
                MessageForShard::MobSpawn { .. } => entities_view(final(self).entities@) == entities_view(
                    old(self).entities@,
                ),
            },
    {
        match msg {
            MessageForShard::PlayerEnter { id } => {
                match state.chardata.get(&id) {
                    Some(c) => {
                        let bundle = PlayerBundle::from(copy_character(c));
                        assert(bundle@ == player_of(chardata_view(state.chardata@)[id]));
                        self.entities.push(ShardEntity { bundle: EntityBundle::Player(bundle), spawned: true, moved: true });
                        assert(entities_view(self.entities@) =~= entities_view(old(self).entities@).push(
                            ShardEntityView {
                                bundle: EntityBundleView::Player(player_of(chardata_view(state.chardata@)[id])),
                                spawned: true,
                                moved: true,
                            },
                        ));
                    },
                    None => {
                        assert(!chardata_view(state.chardata@).dom().contains(id));
                    },
                }
            },
            MessageForShard::PlayerMove { id, pos } => {
                let ghost pv = pos@;
                let n = self.entities.len();
                let mut k: usize = 0;
                while k < n
                    invariant
                        k <= n,
                        n == self.entities@.len(),
                        self.location == old(self).location,
                        n == old(self).entities@.len(),
                        pv == pos@,
                        forall|m: int|
                            0 <= m < k ==> (#[trigger] self.entities@[m])@ == moved_to(old(self).entities@[m]@, id, pv),
                        forall|m: int| k <= m < n ==> (#[trigger] self.entities@[m]) == old(self).entities@[m],
                    decreases n - k,
                {
                    let mut e = self.entities.remove(k);
                    let hit = match &e.bundle {
                        EntityBundle::Player(p) => p.id.0 == id,
                        EntityBundle::Mob(m) => m.id.0 == id,
                    };
                    if hit {
                        let moved_bundle = match e.bundle {
                            EntityBundle::Player(mut p) => {
                                p.pos = Position(Coords { x: pos.x, y: pos.y });
                                EntityBundle::Player(p)
                            },
                            EntityBundle::Mob(mut m) => {
                                m.pos = Position(Coords { x: pos.x, y: pos.y });
                                EntityBundle::Mob(m)
                            },
                        };
                        e = ShardEntity { bundle: moved_bundle, spawned: e.spawned, moved: true };
                    }
                    self.entities.insert(k, e);
                    k = k + 1;
                }
                assert(entities_view(self.entities@) =~= entities_view(old(self).entities@).map_values(
                    |e: ShardEntityView| moved_to(e, id, pv),
                ));
            },
            MessageForShard::MobSpawn { .. } => {},
        }
    }
}

} // verus!
