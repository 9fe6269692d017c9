//! Gameplay modifiers as the session understands them, and their reading
//! from the integers and flags of a `PlaySong` packet.

use vstd::prelude::*;
use crate::proto::GameplayModifiers;

verus! {

/// How the player's energy is kept.
#[derive(Clone, Copy, Debug, PartialEq, Eq, Structural)]
pub enum EnergyType {
    Bar,
    Battery,
}

/// Which obstacles a level shows.
#[derive(Clone, Copy, Debug, PartialEq, Eq, Structural)]
pub enum EnabledObstacleType {
    All,
    FullHeightOnly,
    NoObstacles,
}

/// The playback speed of a level.
#[derive(Clone, Copy, Debug, PartialEq, Eq, Structural)]
pub enum SongSpeed {
    Normal,
    Faster,
    Slower,
    SuperFast,
}

/// The modifiers handed to the session when a level starts.
#[derive(Clone, Copy, Debug, PartialEq, Eq, Structural)]
pub struct Modifiers {
    pub energy_type: EnergyType,
    pub no_fail_on_0_energy: bool,
    pub insta_fail: bool,
    pub fail_on_saber_clash: bool,
    pub enabled_obstacle_type: EnabledObstacleType,
    pub no_bombs: bool,
    pub fast_notes: bool,
    pub strict_angles: bool,
    pub disappearing_arrows: bool,
    pub song_speed: SongSpeed,
    pub no_arrows: bool,
    pub ghost_notes: bool,
    pub pro_mode: bool,
    pub zen_mode: bool,
    pub small_cubes: bool,
}

/// Energy kind of a wire value; unknown values mean the bar.
pub open spec fn energy_type_spec(value: i32) -> EnergyType {
    if value == 1 {
        EnergyType::Battery
    } else {
        EnergyType::Bar
    }
}

/// Obstacle kind of a wire value; unknown values mean all obstacles.
pub open spec fn obstacle_type_spec(value: i32) -> EnabledObstacleType {
    if value == 1 {
        EnabledObstacleType::FullHeightOnly
    } else if value == 2 {
        EnabledObstacleType::NoObstacles
    } else {
        EnabledObstacleType::All
    }
}

/// Speed of a wire value; unknown values mean normal speed.
pub open spec fn song_speed_spec(value: i32) -> SongSpeed {
    if value == 1 {
        SongSpeed::Faster
    } else if value == 2 {
        SongSpeed::Slower
    } else if value == 3 {
        SongSpeed::SuperFast
    } else {
        SongSpeed::Normal
    }
}

/// The modifiers that a packet's modifiers stand for. The packet has no
/// fast-notes flag (it stays off), and its no-bombs flag also turns arrows off.
pub open spec fn modifiers_spec(m: GameplayModifiers) -> Modifiers {
    Modifiers {
        energy_type: energy_type_spec(m.energy_type),
        no_fail_on_0_energy: m.no_fail_on_0_energy,
        insta_fail: m.insta_fail,
        fail_on_saber_clash: m.fail_on_saber_clash,
        enabled_obstacle_type: obstacle_type_spec(m.enabled_obstacle_type),
        no_bombs: m.no_bombs,
        fast_notes: false,
        strict_angles: m.strict_angles,
        disappearing_arrows: m.disappearing_arrows,
        song_speed: song_speed_spec(m.song_speed),
        no_arrows: m.no_bombs,
        ghost_notes: m.ghost_notes,
        pro_mode: m.pro_mode,
        zen_mode: m.zen_mode,
        small_cubes: m.small_cubes,
    }
}

/// The energy kind of a wire value: 1 is the battery, anything else the bar.
pub fn energy_type_from_i32(value: i32) -> (r: EnergyType)
    ensures
        r == energy_type_spec(value),
{
    match value {
        0 => EnergyType::Bar,
        1 => EnergyType::Battery,
        _ => EnergyType::Bar,
    }
}

/// The obstacle kind of a wire value: 1 full-height only, 2 none, anything
/// else all.
pub fn obstacle_type_from_i32(value: i32) -> (r: EnabledObstacleType)
    ensures
        r == obstacle_type_spec(value),
{
    match value {
        0 => EnabledObstacleType::All,
        1 => EnabledObstacleType::FullHeightOnly,
        2 => EnabledObstacleType::NoObstacles,
        _ => EnabledObstacleType::All,
    }
}

/// The speed of a wire value: 1 faster, 2 slower, 3 super fast, anything
/// else normal.
pub fn song_speed_from_i32(value: i32) -> (r: SongSpeed)
    ensures
        r == song_speed_spec(value),
{
    match value {
        0 => SongSpeed::Normal,
        1 => SongSpeed::Faster,
        2 => SongSpeed::Slower,
        3 => SongSpeed::SuperFast,
        _ => SongSpeed::Normal,
    }
}

} // verus!
