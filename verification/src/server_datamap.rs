//! Turning what a location tells a player's connection into packets for
//! the game client.
use vstd::prelude::*;
use crate::protocol::{
    Coords, CoordsView, Entity, EntityKind, EntityKindView, EntityMove, EntityMoveView,
    EntityView, MobEntity, MobEntityView, Packet, PacketModel, PlayerData, PlayerDataView,
    PosCamera, PosCameraView, SwitchLocation, SwitchLocationView,
};
use crate::rqode_binrw::{CurrencyData, F32, Op13, RBool, RString, RVec, RZlib, U8, U16, U32, U64};
use crate::server_shard::{MobBundle, MobBundleView, PlayerBundle, PlayerBundleView};
use crate::server_state::{EntityBundle, MessageFromShard, MessageFromShardKind, State};

verus! {

/// `n` float zeros.
pub open spec fn zero_floats(n: nat) -> Seq<F32> {
    Seq::new(n, |i: int| F32(0))
}

fn zero_f32s(n: usize) -> (r: Vec<F32>)
    ensures
        r@ == zero_floats(n as nat),
{
    let mut v: Vec<F32> = Vec::new();
    let mut k: usize = 0;
    while k < n
        invariant
            k <= n,
            v@ == zero_floats(k as nat),
        decreases n - k,
    {
        v.push(F32(0));
        k = k + 1;
        assert(v@ =~= zero_floats(k as nat));
    }
    v
}

/// An entity shown as a mob (tag 9) with the given kind, level, name,
/// hit points and position, at half speed and normal scale.
pub open spec fn mob_entity(id: u32, mob_id: u16, level: u16, name: Seq<char>, hp: u32, max_hp: u32, pos: CoordsView) -> EntityView {
    EntityView {
        tag: U8(9),
        kind: EntityKindView::Mob(
            MobEntityView {
                id: U32(id),
                mob_id: U16(mob_id),
                level: U16(level),
                custom_name: name,
                hp: U32(hp),
                coords: pos,
                unk2: U8(0),
                unk3: F32(0x3F00_0000),
                scale: F32(0x3F80_0000),
                unk5: U32(3),
                unk6: U32(0),
                max_hp: U32(max_hp),
                unk8: F32(0x40C0_0000),
                unk9: U16(0),
                unk10: U32(0),
                unk11: RBool(0),
                unk12: U32(0),
                unk13: U32(0),
            },
        ),
    }
}

pub(crate) fn build_mob_entity(id: u32, mob_id: u16, level: u16, name: RString, hp: u32, max_hp: u32, pos: Coords) -> (r: Entity)
    ensures
        r@ == mob_entity(id, mob_id, level, name@, hp, max_hp, pos@),
{
    Entity {
        tag: U8(9),
        kind: EntityKind::Mob(
            MobEntity {
                id: U32(id),
                mob_id: U16(mob_id),
                level: U16(level),
                custom_name: name,
                hp: U32(hp),
                coords: pos,
                unk2: U8(0),
                unk3: F32(0x3F00_0000),
                scale: F32(0x3F80_0000),
                unk5: U32(3),
                unk6: U32(0),
                max_hp: U32(max_hp),
                unk8: F32(0x40C0_0000),
                unk9: U16(0),
                unk10: U32(0),
                unk11: RBool(0),
                unk12: U32(0),
                unk13: U32(0),
            },
        ),
    }
}

/// The entity shown for a spawned entity: another player is shown as mob
/// kind 467 with its name; a mob as its kind without a name.
pub open spec fn spawned_entity(e: EntityBundle) -> EntityView {
    match e {
        EntityBundle::Player(b) => mob_entity(
            b@.id,
            467,
            b@.level,
            b@.name.push('\0'),
            b@.health.value,
            b@.health.max,
            b@.pos,
        ),
        EntityBundle::Mob(b) => mob_entity(
            b@.id,
            b@.mob,
            b@.level,
            seq!['\0'],
            b@.health.value,
            b@.health.max,
            b@.pos,
        ),
    }
}

/// The player's own data as sent when it enters a location.
pub open spec fn player_data_of(bv: PlayerBundleView, shard: u32) -> PlayerDataView {
    PlayerDataView {
        unk0: U8(8),
        id: U32(bv.id),
        class: U16(bv.player.class),
        level: U16(bv.level),
        unk4: U8(1),
        unk5: U8(0),
        unk6: U8(0),
        name: bv.name.push('\0'),
        hp: U32(bv.health.value),
        mp: U32(bv.energy.value),
        location_id: U32(shard),
        coords: bv.pos,
        unk13: U8(0),
        rot: F32(0),
        unk15: RBool(0),
        alive: RBool(1),
        unk17: RBool(0),
        unk18: RBool(0),
        unk19: RBool(0),
        body: bv.player.body,
        hp2: U32(bv.health.max),
        mp2: U32(bv.energy.max),
        movspeed: F32(0x40A0_0000),
        unk24: U32(3183328701),
        unk25: U32(0),
        unk26: U32(0),
        unk27: U32(5),
        unk28: U32(0),
        unk29: U8(1),
        unk30: U32(0),
        unk31: U32(0),
        unk32: seq!['\0'],
        unk33: U64(0),
        unk34: U16(0),
        unk35: U16(0),
        unk36: RBool(0),
        unk37: seq!['\0'],
        unk38: U32(4),
        effects: Seq::empty(),
        unk39: seq![36u16, 36u16, 36u16, 36u16],
        current_exp: U32(64),
        unk41: U32(0),
        unk42: U16(0),
        stats: zero_floats(159),
        stats2: zero_floats(159),
        unk45: U64(0),
        talents: Seq::empty(),
        unk47: Seq::empty(),
        unk48: U64(0),
        unk49: F32(0),
        unk50: F32(0x41F0_0000),
        unk51: U16(0),
        unk52: U16(0),
        unk53: U32(0),
        unk54: U32(0),
        unk55: U32(0),
        unk56: seq![U16(36), U16(36), U16(36), U16(36)],
        unk57: U16(27),
        unk58: seq![U16(20), U16(20), U16(20), U16(20)],
        unk59: U16(100),
        unk60: Seq::new(36, |i: int| 0u16),
        unk61: U8(0),
        ach_data: Seq::empty(),
    }
}

fn build_player_data(b: &PlayerBundle, shard: u32) -> (r: PlayerData)
    ensures
        r@ == player_data_of(b@, shard),
{
    let ghost bv = b@;
    let r = PlayerData {
        unk0: U8(8),
        id: U32(b.id.0),
        class: U16(b.player.class),
        level: U16(b.level.level),
        unk4: U8(1),
        unk5: U8(0),
        unk6: U8(0),
        name: RString::from_text(b.name.name.as_str()),
        hp: U32(b.health.value),
        mp: U32(b.energy.value),
        location_id: U32(shard),
        coords: Coords { x: b.pos.0.x, y: b.pos.0.y },
        unk13: U8(0),
        rot: F32(0),
        unk15: RBool(0),
        alive: RBool(1),
        unk17: RBool(0),
        unk18: RBool(0),
        unk19: RBool(0),
        body: b.player.body,
        hp2: U32(b.health.max),
        mp2: U32(b.energy.max),
        movspeed: F32(0x40A0_0000),
        unk24: U32(3183328701),
        unk25: U32(0),
        unk26: U32(0),
        unk27: U32(5),
        unk28: U32(0),
        unk29: U8(1),
        unk30: U32(0),
        unk31: U32(0),
        unk32: RString::empty(),
        unk33: U64(0),
        unk34: U16(0),
        unk35: U16(0),
        unk36: RBool(0),
        unk37: RString::empty(),
        unk38: U32(4),
        effects: RVec { data: Vec::new() },
        unk39: Op13([36, 36, 36, 36]),
        current_exp: U32(64),
        unk41: U32(0),
        unk42: U16(0),
        stats: RVec { data: zero_f32s(159) },
        stats2: zero_f32s(159),
        unk45: U64(0),
        talents: RVec { data: Vec::new() },
        unk47: RVec { data: Vec::new() },
        unk48: U64(0),
        unk49: F32(0),
        unk50: F32(0x41F0_0000),
        unk51: U16(0),
        unk52: U16(0),
        unk53: U32(0),
        unk54: U32(0),
        unk55: U32(0),
        unk56: [U16(36), U16(36), U16(36), U16(36)],
        unk57: U16(27),
        unk58: [U16(20), U16(20), U16(20), U16(20)],
        unk59: U16(100),
        unk60: CurrencyData { data: [0u16; 36] },
        unk61: U8(0),
        ach_data: RZlib::empty(),
    };
    let ghost m = player_data_of(bv, shard);
    assert(r@.name =~= m.name);
    assert(r@.unk32 =~= m.unk32);
    assert(r@.unk37 =~= m.unk37);
    assert(r@.effects =~= m.effects);
    assert(r@.unk39 =~= m.unk39);
    assert(r@.stats =~= m.stats);
    assert(r@.stats2 =~= m.stats2);
    assert(r@.talents =~= m.talents);
    assert(r@.unk47 =~= m.unk47);
    assert(r@.unk56 =~= m.unk56);
    assert(r@.unk58 =~= m.unk58);
    assert(r@.unk60 =~= m.unk60);
    assert(r@.ach_data =~= m.ach_data);
    r
}

/// The packets for a message from a location: a spawned entity; a one-entry
/// move list; or, for the player's own entity, its data, the location
/// switch and the camera at its position.
pub open spec fn packets_from_shard(msg: MessageFromShard) -> Seq<PacketModel> {
    match msg.kind {
        MessageFromShardKind::EntitySpawn { bundle } => seq![PacketModel::Entity(spawned_entity(bundle))],
        MessageFromShardKind::EntityMove { id, pos } => seq![
            PacketModel::EntityMove(
                seq![
                    EntityMoveView {
                        id: U32(id),
                        coords: pos@,
                        unk12: U16(0),
                        flags: U16(0),
                        direction: U16(0),
                    },
                ],
            ),
        ],
        MessageFromShardKind::PlayerLoaded { bundle } => seq![
            PacketModel::PlayerData(player_data_of(bundle@, msg.shard_id)),
            PacketModel::SwitchLocation(SwitchLocationView { location_id: U32(msg.shard_id), unk1: U32(0) }),
            PacketModel::PosCamera(
                PosCameraView {
                    unk0: U32(0),
                    coords: bundle@.pos,
                    rot: F32(0),
                    unk4: U8(0),
                    movspeed: F32(0x40A0_0000),
                    effects: Seq::empty(),
                },
            ),
        ],
    }
}

impl State {
    /// The packets for the game client of a message that a location sent
    /// to its player.
    pub fn recv_from_shard(&self, msg: MessageFromShard) -> (r: Vec<Packet>)
        ensures
            r@.map_values(|p: Packet| p@) == packets_from_shard(msg),
    {
        let ghost m = msg;
        let mut out: Vec<Packet> = Vec::new();
        let shard = msg.shard_id;
        match msg.kind {
            MessageFromShardKind::EntitySpawn { bundle } => {
                let e = match bundle {
                    EntityBundle::Player(b) => build_mob_entity(
                        b.id.0,
                        467,
                        b.level.level,
                        RString::from_text(b.name.name.as_str()),
                        b.health.value,
                        b.health.max,
                        Coords { x: b.pos.0.x, y: b.pos.0.y },
                    ),
                    EntityBundle::Mob(b) => build_mob_entity(
                        b.id.0,
                        b.mob.id,
                        b.level.level,
                        RString::empty(),
                        b.health.value,
                        b.health.max,
                        Coords { x: b.pos.0.x, y: b.pos.0.y },
                    ),
                };
                out.push(Packet::Entity(e));
            },
            MessageFromShardKind::EntityMove { id, pos } => {
                let mut moves: Vec<EntityMove> = Vec::new();
                moves.push(
                    EntityMove {
                        id: U32(id),
                        coords: Coords { x: pos.x, y: pos.y },
                        unk12: U16(0),
                        flags: U16(0),
                        direction: U16(0),
                    },
                );
                let ghost mv = moves@;
                out.push(Packet::EntityMove(moves));
                proof {
                    assert(mv.map_values(|x: EntityMove| x@) =~= seq![
                        EntityMoveView { id: U32(id), coords: pos@, unk12: U16(0), flags: U16(0), direction: U16(0) },
                    ]);
                }
            },
            MessageFromShardKind::PlayerLoaded { bundle } => {
                out.push(Packet::PlayerData(build_player_data(&bundle, shard)));
                out.push(Packet::SwitchLocation(SwitchLocation { location_id: U32(shard), unk1: U32(0) }));
                let effects: RVec<crate::protocol::CameraEffect> = RVec { data: Vec::new() };
                assert(effects@ =~= Seq::<crate::protocol::CameraEffectView>::empty());
                out.push(
                    Packet::PosCamera(
                        PosCamera {
                            unk0: U32(0),
                            coords: Coords { x: bundle.pos.0.x, y: bundle.pos.0.y },
                            rot: F32(0),
                            unk4: U8(0),
                            movspeed: F32(0x40A0_0000),
                            effects,
                        },
                    ),
                );
            },
        }
        assert(out@.map_values(|p: Packet| p@) =~= packets_from_shard(m));
        out
    }
}

} // verus!
