//! Packet kinds and the bodies of the packets that travel inside frames.

use vstd::prelude::*;

verus! {

/// The kind of a packet, as carried in a frame's type field.
#[derive(Clone, Copy, Debug, PartialEq, Eq, Structural)]
pub enum PacketType {
    SongList,
    Command,
    NowPlaying,
    NowPlayingUpdate,
    PlaySong,
    PreviewSong,
    DownloadSong,
    AllSongs,
}

/// The kind of a command, carried inside a `Command` packet.
#[derive(Clone, Copy, Debug, PartialEq, Eq, Structural)]
pub enum CommandType {
    Unspecified,
    Heartbeat,
    ReturnToMenu,
}

/// Wire value of each packet kind.
pub open spec fn packet_type_value(t: PacketType) -> i32 {
    match t {
        PacketType::SongList => 0,
        PacketType::Command => 1,
        PacketType::NowPlaying => 2,
        PacketType::NowPlayingUpdate => 3,
        PacketType::PlaySong => 4,
        PacketType::PreviewSong => 5,
        PacketType::DownloadSong => 6,
        PacketType::AllSongs => 7,
    }
}

/// The packet kind whose wire value is `v`, if any.
pub open spec fn packet_type_of(v: i32) -> Option<PacketType> {
    if v == 0 {
        Some(PacketType::SongList)
    } else if v == 1 {
        Some(PacketType::Command)
    } else if v == 2 {
        Some(PacketType::NowPlaying)
    } else if v == 3 {
        Some(PacketType::NowPlayingUpdate)
    } else if v == 4 {
        Some(PacketType::PlaySong)
    } else if v == 5 {
        Some(PacketType::PreviewSong)
    } else if v == 6 {
        Some(PacketType::DownloadSong)
    } else if v == 7 {
        Some(PacketType::AllSongs)
    } else {
        None
    }
}

/// Wire value of each command kind.
pub open spec fn command_type_value(t: CommandType) -> i32 {
    match t {
        CommandType::Unspecified => 0,
        CommandType::Heartbeat => 1,
        CommandType::ReturnToMenu => 2,
    }
}

impl PacketType {
    /// The packet kind with wire value `value`; `None` outside the enumeration.
    pub fn from_i32(value: i32) -> (r: Option<PacketType>)
        ensures
            r == packet_type_of(value),
            r matches Some(t) ==> packet_type_value(t) == value,
            (0 <= value <= 7) == (r is Some),
    {
        match value {
            0 => Some(PacketType::SongList),
            1 => Some(PacketType::Command),
            2 => Some(PacketType::NowPlaying),
            3 => Some(PacketType::NowPlayingUpdate),
            4 => Some(PacketType::PlaySong),
            5 => Some(PacketType::PreviewSong),
            6 => Some(PacketType::DownloadSong),
            7 => Some(PacketType::AllSongs),
            _ => None,
        }
    }

    /// The wire value of this packet kind.
    pub fn to_i32(self) -> (r: i32)
        ensures
            r == packet_type_value(self),
            packet_type_of(r) == Some(self),
    {
        match self {
            PacketType::SongList => 0,
            PacketType::Command => 1,
            PacketType::NowPlaying => 2,
            PacketType::NowPlayingUpdate => 3,
            PacketType::PlaySong => 4,
            PacketType::PreviewSong => 5,
            PacketType::DownloadSong => 6,
            PacketType::AllSongs => 7,
        }
    }
}

impl CommandType {
    /// The command kind with wire value `value`; `None` outside the enumeration.
    pub fn from_i32(value: i32) -> (r: Option<CommandType>)
        ensures
            r matches Some(t) ==> command_type_value(t) == value,
            (0 <= value <= 2) == (r is Some),
    {
        match value {
            0 => Some(CommandType::Unspecified),
            1 => Some(CommandType::Heartbeat),
            2 => Some(CommandType::ReturnToMenu),
            _ => None,
        }
    }

    /// The wire value of this command kind.
    pub fn to_i32(self) -> (r: i32)
        ensures
            r == command_type_value(self),
    {
        match self {
            CommandType::Unspecified => 0,
            CommandType::Heartbeat => 1,
            CommandType::ReturnToMenu => 2,
        }
    }
}

/// One characteristic of a level (a play style such as one-saber) and the
/// labels of the difficulties that it offers.
#[derive(Clone, Debug, PartialEq, Eq)]
pub struct Characteristic {
    pub name: String,
    pub diffs: Vec<String>,
}

/// The gameplay modifiers that a `PlaySong` packet asks for, as carried on the
/// wire: the three kinds are integers, the rest flags.
#[derive(Clone, Copy, Debug, PartialEq, Eq, Structural)]
pub struct GameplayModifiers {
    pub energy_type: i32,
    pub no_fail_on_0_energy: bool,
    pub insta_fail: bool,
    pub fail_on_saber_clash: bool,
    pub enabled_obstacle_type: i32,
    pub no_bombs: bool,
    pub strict_angles: bool,
    pub disappearing_arrows: bool,
    pub song_speed: i32,
    pub ghost_notes: bool,
    pub pro_mode: bool,
    pub zen_mode: bool,
    pub small_cubes: bool,
}

/// One catalog entry: a level's identifier, its display metadata, whether the
/// player owns it, and its characteristics with their difficulty labels.
/// The tempo is held as the bit pattern of its single-precision value.
#[derive(Clone, Debug, PartialEq, Eq)]
pub struct PreviewBeatmapLevel {
    pub level_id: String,
    pub name: String,
    pub sub_name: String,
    pub author: String,
    pub mapper: String,
    pub bpm_bits: u32,
    pub duration: String,
    pub favorited: bool,
    pub owned: bool,
    pub owned_justification: String,
    pub chars: Vec<Characteristic>,
}

/// The whole song catalog.
#[derive(Clone, Debug, PartialEq, Eq)]
pub struct SongList {
    pub levels: Vec<PreviewBeatmapLevel>,
}

/// A command for the session; `command_type` is a `CommandType` wire value.
#[derive(Clone, Copy, Debug, PartialEq, Eq, Structural)]
pub struct Command {
    pub command_type: i32,
}

/// What is playing now; no handler reads its fields yet.
#[derive(Clone, Copy, Debug, PartialEq, Eq, Structural)]
pub struct NowPlaying {}

/// A point-in-time snapshot of the running level. The accuracy is held as
/// the bit pattern of its single-precision value.
#[derive(Clone, Copy, Debug, PartialEq, Eq, Structural)]
pub struct NowPlayingUpdate {
    pub score: i32,
    pub accuracy_bits: u32,
    pub elapsed: i32,
    pub total_time: i32,
}

/// A request to start a level of the catalog.
#[derive(Clone, Debug, PartialEq, Eq)]
pub struct PlaySong {
    pub level_id: String,
    pub characteristic: Option<Characteristic>,
    pub difficulty: String,
    pub gameplay_modifiers: Option<GameplayModifiers>,
}

/// A request to preview a level; no handler reads its fields yet.
#[derive(Clone, Copy, Debug, PartialEq, Eq, Structural)]
pub struct PreviewSong {}

/// A request to download a level by its key.
#[derive(Clone, Debug, PartialEq, Eq)]
pub struct DownloadSong {
    pub song_key: String,
}

/// A request for the whole catalog; no handler reads its fields yet.
#[derive(Clone, Copy, Debug, PartialEq, Eq, Structural)]
pub struct AllSongs {}

/// A packet body that declares its own kind, so that it can be framed.
pub trait PartyPacket {
    spec fn packet_type(&self) -> PacketType;

    fn get_type(&self) -> (r: PacketType)
        ensures
            r == self.packet_type(),
    ;
}

impl PartyPacket for SongList {
    open spec fn packet_type(&self) -> PacketType {
        PacketType::SongList
    }

    fn get_type(&self) -> (r: PacketType) {
        PacketType::SongList
    }
}

impl PartyPacket for Command {
    open spec fn packet_type(&self) -> PacketType {
        PacketType::Command
    }

    fn get_type(&self) -> (r: PacketType) {
        PacketType::Command
    }
}

impl PartyPacket for NowPlaying {
    open spec fn packet_type(&self) -> PacketType {
        PacketType::NowPlaying
    }

    fn get_type(&self) -> (r: PacketType) {
        PacketType::NowPlaying
    }
}

impl PartyPacket for NowPlayingUpdate {
    open spec fn packet_type(&self) -> PacketType {
        PacketType::NowPlayingUpdate
    }

    fn get_type(&self) -> (r: PacketType) {
        PacketType::NowPlayingUpdate
    }
}

impl PartyPacket for PlaySong {
    open spec fn packet_type(&self) -> PacketType {
        PacketType::PlaySong
    }

    fn get_type(&self) -> (r: PacketType) {
        PacketType::PlaySong
    }
}

impl PartyPacket for PreviewSong {
    open spec fn packet_type(&self) -> PacketType {
        PacketType::PreviewSong
    }

    fn get_type(&self) -> (r: PacketType) {
        PacketType::PreviewSong
    }
}

impl PartyPacket for DownloadSong {
    open spec fn packet_type(&self) -> PacketType {
        PacketType::DownloadSong
    }

    fn get_type(&self) -> (r: PacketType) {
        PacketType::DownloadSong
    }
}

impl PartyPacket for AllSongs {
    open spec fn packet_type(&self) -> PacketType {
        PacketType::AllSongs
    }

    fn get_type(&self) -> (r: PacketType) {
        PacketType::AllSongs
    }
}

} // verus!
