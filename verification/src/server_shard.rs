//! The entities of a game location ("shard"): players and mobs with their
//! positions and stats.
use vstd::prelude::*;
use crate::protocol::{Coords, CoordsView};
use crate::rqode_binrw::{BodyParam, F32};
use crate::server_db::{CharacterBundle, CharacterBundleView};

verus! {

/// Position of an entity.
#[derive(Clone, Debug)]
pub struct Position(pub Coords);

/// A mob's kind.
#[derive(Clone, Copy, Debug, PartialEq, Eq, Structural)]
pub struct Mob {
    pub id: u16,
}

/// Velocity and rotation (floats, by their bits).
#[derive(Clone, Copy, Debug, PartialEq, Eq, Structural)]
pub struct Vector {
    pub x: F32,
    pub y: F32,
    pub rot: F32,
}

/// Hit points.
#[derive(Clone, Copy, Debug, PartialEq, Eq, Structural)]
pub struct Health {
    pub value: u32,
    pub max: u32,
}

/// Energy points.
#[derive(Clone, Copy, Debug, PartialEq, Eq, Structural)]
pub struct Energy {
    pub value: u32,
    pub max: u32,
}

/// What makes an entity a player.
#[derive(Clone, Copy, Debug, PartialEq, Eq, Structural)]
pub struct Player {
    pub body: BodyParam,
    pub sex: bool,
    pub class: u16,
}

/// Entity id.
#[derive(Clone, Copy, Debug, PartialEq, Eq, Structural)]
pub struct Id(pub u32);

/// Display name.
#[derive(Clone, Debug)]
pub struct Name {
    pub name: String,
}

/// Level.
#[derive(Clone, Copy, Debug, PartialEq, Eq, Structural)]
pub struct Level {
    pub level: u16,
}

/// A player entity.
#[derive(Clone, Debug)]
pub struct PlayerBundle {
    pub player: Player,
    pub id: Id,
    pub name: Name,
    pub pos: Position,
    pub vel: Vector,
    pub health: Health,
    pub energy: Energy,
    pub level: Level,
}

/// Mathematical form of [`PlayerBundle`].
pub struct PlayerBundleView {
    pub player: Player,
    pub id: u32,
    pub name: Seq<char>,
    pub pos: CoordsView,
    pub vel: Vector,
    pub health: Health,
    pub energy: Energy,
    pub level: u16,
}

impl View for PlayerBundle {
    type V = PlayerBundleView;

    open spec fn view(&self) -> PlayerBundleView {
        PlayerBundleView {
            player: self.player,
            id: self.id.0,
            name: self.name.name@,
            pos: self.pos.0@,
            vel: self.vel,
            health: self.health,
            energy: self.energy,
            level: self.level.level,
        }
    }
}

/// A mob entity.
#[derive(Clone, Debug)]
pub struct MobBundle {
    pub mob: Mob,
    pub id: Id,
    pub pos: Position,
    pub vel: Vector,
    pub health: Health,
    pub level: Level,
}

/// Mathematical form of [`MobBundle`].
pub struct MobBundleView {
    pub mob: u16,
    pub id: u32,
    pub pos: CoordsView,
    pub vel: Vector,
    pub health: Health,
    pub level: u16,
}

impl View for MobBundle {
    type V = MobBundleView;

    open spec fn view(&self) -> MobBundleView {
        MobBundleView {
            mob: self.mob.id,
            id: self.id.0,
            pos: self.pos.0@,
            vel: self.vel,
            health: self.health,
            level: self.level.level,
        }
    }
}

/// Zero velocity and rotation.
pub open spec fn still() -> Vector {
    Vector { x: F32(0), y: F32(0), rot: F32(0) }
}

/// The player entity of a stored character: its appearance, id, name,
/// position, stats and level, standing still.
pub open spec fn player_of(c: CharacterBundleView) -> PlayerBundleView {
    PlayerBundleView {
        player: Player { body: c.char.body, sex: c.char.sex, class: c.char.class },
        id: c.char.id,
        name: c.char.name,
        pos: c.char.pos,
        vel: still(),
        health: Health { value: c.stats.current_hp, max: c.stats.max_hp },
        energy: Energy { value: c.stats.current_energy, max: c.stats.max_energy },
        level: c.char.level,
    }
}

impl From<CharacterBundle> for PlayerBundle {
    fn from(value: CharacterBundle) -> (r: PlayerBundle) {
        PlayerBundle {
            player: Player { body: value.char.body, sex: value.char.sex, class: value.char.class },
            id: Id(value.char.id),
            name: Name { name: value.char.name },
            pos: Position(value.char.pos),
            vel: Vector { x: F32(0), y: F32(0), rot: F32(0) },
            health: Health { value: value.stats.current_hp, max: value.stats.max_hp },
            energy: Energy { value: value.stats.current_energy, max: value.stats.max_energy },
            level: Level { level: value.char.level },
        }
    }
}

impl vstd::std_specs::convert::FromSpecImpl<CharacterBundle> for PlayerBundle {
    open spec fn obeys_from_spec() -> bool {
        true
    }

    open spec fn from_spec(value: CharacterBundle) -> PlayerBundle {
        PlayerBundle {
            player: Player { body: value.char.body, sex: value.char.sex, class: value.char.class },
            id: Id(value.char.id),
            name: Name { name: value.char.name },
            pos: Position(value.char.pos),
            vel: Vector { x: F32(0), y: F32(0), rot: F32(0) },
            health: Health { value: value.stats.current_hp, max: value.stats.max_hp },
            energy: Energy { value: value.stats.current_energy, max: value.stats.max_energy },
            level: Level { level: value.char.level },
        }
    }
}

} // verus!
