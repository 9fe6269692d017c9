//! The session context: the song catalog, the two query slots, the active
//! flow and the heartbeat, and the routing of received packets onto them.

use vstd::prelude::*;
use crate::catalog::{
    Difficulty, LevelInfo, SongId, difficulty_from_name, difficulty_label, group_characteristics,
    is_run_grouping, join_names, joined, present_keys, texts, unowned_justification,
};
use crate::codec::{
    FrameError, FrameHeader, encode_frame, frame_bytes, lemma_bad_magic_is_fatal, magic,
    parse_frame_spec, parse_header_spec,
};
use crate::heartbeat::HeartbeatScheduler;
use crate::modifiers::{
    Modifiers, energy_type_from_i32, modifiers_spec, obstacle_type_from_i32, song_speed_from_i32,
};
use crate::proto::{
    AllSongs, Characteristic, Command, CommandType, DownloadSong, NowPlaying, NowPlayingUpdate,
    GameplayModifiers, PacketType, PartyPacket, PlaySong, PreviewBeatmapLevel, PreviewSong, SongList,
    command_type_value, packet_type_of, packet_type_value,
};
use crate::slot::{Slot, Ticket};

verus! {

/// One catalog entry under its identifier.
#[derive(Clone, Debug, PartialEq, Eq)]
pub struct SongData {
    pub hash: SongId,
    pub level: PreviewBeatmapLevel,
}

/// A received packet, decoded according to its kind.
#[derive(Clone, Debug, PartialEq, Eq)]
pub enum Packet {
    SongList(SongList),
    Command(Command),
    NowPlaying(NowPlaying),
    NowPlayingUpdate(NowPlayingUpdate),
    PlaySong(PlaySong),
    PreviewSong(PreviewSong),
    DownloadSong(DownloadSong),
    AllSongs(AllSongs),
}

/// Why a packet's action was dropped. All are recoverable: the read loop
/// goes on.
#[derive(Clone, Copy, Debug, PartialEq, Eq, Structural)]
pub enum RouteError {
    /// A `SongList` names one song twice.
    DuplicateSongId,
    /// No catalog entry has the requested song's identifier.
    SongNotFound,
    /// A `PlaySong` names no characteristic.
    MissingCharacteristic,
    /// The requested song does not offer the named characteristic.
    CharacteristicNotFound,
    /// The difficulty label is none of the known ones.
    UnknownDifficulty,
    /// A `PlaySong` carries no modifiers.
    MissingModifiers,
}

/// A level to start: the catalog entry's index, the characteristic, the
/// difficulty and the modifiers, under a new level query.
#[derive(Clone, Debug, PartialEq, Eq)]
pub struct LevelRequest {
    pub song: usize,
    pub characteristic: String,
    pub difficulty: Difficulty,
    pub modifiers: Modifiers,
    pub ticket: Ticket,
}

/// What the session bridge is asked to do for a packet.
#[derive(Clone, Debug, PartialEq, Eq)]
pub enum Action {
    /// Nothing to do.
    Ignore,
    /// Return to the menu, once.
    ReturnToMenu,
    /// Start a level; the request's ticket replaces any earlier level query,
    /// which is to be cancelled.
    StartLevel(LevelRequest),
    /// Downloads are not implemented: the packet is handed back unhandled.
    DownloadNotImplemented(DownloadSong),
}

/// What the read loop does with the header it just read.
#[derive(Clone, Copy, Debug, PartialEq, Eq, Structural)]
pub enum LoopStep {
    /// A framing error: the connection ends.
    Stop(FrameError),
    /// A kind outside the enumeration: the payload is skipped.
    Skip(i32),
    /// The payload is decoded as a packet of this kind and routed.
    Decode(PacketType),
}

/// What is to be cancelled or aborted when the connection closes.
#[derive(Clone, Copy, Debug, PartialEq, Eq, Structural)]
pub struct Teardown {
    pub status_query: Option<u64>,
    pub level_query: Option<u64>,
    pub heartbeat: Option<u64>,
}

/// The session context, owned by the connection and handed down to the read
/// loop, the router and the heartbeat.
#[derive(Debug)]
pub struct WebContext {
    pub songs: Vec<SongData>,
    pub level_query: Slot,
    pub status_query: Slot,
    pub flow: Option<u64>,
    pub heartbeat: HeartbeatScheduler,
}

/// No two levels share an identifier.
pub open spec fn ids_unique(levels: Seq<PreviewBeatmapLevel>) -> bool {
    forall|i: int, j: int|
        0 <= i < j < levels.len() ==> #[trigger] levels[i].level_id@ != #[trigger] levels[j].level_id@
}

/// A level as a catalog entry.
pub open spec fn song_of(l: PreviewBeatmapLevel) -> SongData {
    SongData { hash: SongId(l.level_id), level: l }
}

/// The catalog entries of `levels`, in order.
pub open spec fn songs_of(levels: Seq<PreviewBeatmapLevel>) -> Seq<SongData> {
    levels.map_values(|l: PreviewBeatmapLevel| song_of(l))
}

/// Whether a label names a difficulty.
pub open spec fn is_difficulty_label(label: Seq<char>) -> bool {
    exists|d: Difficulty| difficulty_label(d) == label
}

/// What the read loop does after reading a header.
pub open spec fn read_step_spec(header: Result<FrameHeader, FrameError>) -> LoopStep {
    match header {
        Err(e) => LoopStep::Stop(e),
        Ok(h) => match packet_type_of(h.packet_type) {
            Some(t) => LoopStep::Decode(t),
            None => LoopStep::Skip(h.packet_type),
        },
    }
}

impl WebContext {
    /// Each entry sits under its level's identifier, identifiers are unique,
    /// and the slots are well formed.
    pub open spec fn wf(self) -> bool {
        &&& forall|i: int|
            0 <= i < self.songs@.len() ==> #[trigger] self.songs@[i].hash@
                == self.songs@[i].level.level_id@
        &&& ids_unique(self.catalog())
        &&& self.level_query.wf()
        &&& self.status_query.wf()
        &&& self.heartbeat.wf()
    }

    /// The catalog's levels, in order.
    pub open spec fn catalog(self) -> Seq<PreviewBeatmapLevel> {
        self.songs@.map_values(|s: SongData| s.level)
    }

    /// Whether the catalog has an entry for `id`.
    pub open spec fn has_song(self, id: Seq<char>) -> bool {
        exists|i: int| 0 <= i < self.songs@.len() && #[trigger] self.songs@[i].hash@ == id
    }

    /// Whether the catalog's entry for `id` offers the characteristic `name`.
    pub open spec fn offers(self, id: Seq<char>, name: Seq<char>) -> bool {
        exists|i: int, k: int|
            0 <= i < self.songs@.len() && #[trigger] self.songs@[i].hash@ == id && 0 <= k
                < self.songs@[i].level.chars@.len() && #[trigger] self.songs@[i].level.chars@[k].name@
                == name
    }

    /// The same context with another catalog.
    pub open spec fn same_but_songs(self, other: WebContext) -> bool {
        &&& self.level_query == other.level_query
        &&& self.status_query == other.status_query
        &&& self.flow == other.flow
        &&& self.heartbeat == other.heartbeat
    }

    /// What replacing the catalog with `levels` does: the whole catalog is
    /// replaced, unless two levels share an identifier, which changes nothing.
    pub open spec fn replace_post(
        self,
        after: WebContext,
        levels: Seq<PreviewBeatmapLevel>,
        r: Result<(), RouteError>,
    ) -> bool {
        if ids_unique(levels) {
            &&& r is Ok
            &&& after.songs@ == songs_of(levels)
            &&& after.same_but_songs(self)
        } else {
            &&& r == Err::<(), RouteError>(RouteError::DuplicateSongId)
            &&& after == self
        }
    }

    /// The error that a `PlaySong` request meets, if any, in the order in
    /// which the request is resolved.
    pub open spec fn play_song_error(self, p: PlaySong) -> Option<RouteError> {
        if !self.has_song(p.level_id@) {
            Some(RouteError::SongNotFound)
        } else {
            match p.characteristic {
                None => Some(RouteError::MissingCharacteristic),
                Some(c) => if !self.offers(p.level_id@, c.name@) {
                    Some(RouteError::CharacteristicNotFound)
                } else if !is_difficulty_label(p.difficulty@) {
                    Some(RouteError::UnknownDifficulty)
                } else if p.gameplay_modifiers is None {
                    Some(RouteError::MissingModifiers)
                } else {
                    None
                },
            }
        }
    }

    /// What routing a `PlaySong` does: a resolved request starts a new level
    /// query (the previous one is handed back) and asks for the level; a
    /// request that cannot be resolved changes nothing.
    pub open spec fn play_song_post(
        self,
        after: WebContext,
        p: PlaySong,
        r: Result<Action, RouteError>,
    ) -> bool {
        match self.play_song_error(p) {
            Some(e) => r == Err::<Action, RouteError>(e) && after == self,
            None => {
                &&& r matches Ok(Action::StartLevel(req)) && {
                    &&& req.song < self.songs@.len()
                    &&& self.songs@[req.song as int].hash@ == p.level_id@
                    &&& req.characteristic@ == p.characteristic->0.name@
                    &&& difficulty_label(req.difficulty) == p.difficulty@
                    &&& req.modifiers == modifiers_spec(p.gameplay_modifiers->0)
                    &&& req.ticket.id == self.level_query.next
                    &&& req.ticket.replaced == self.level_query.current
                }
                &&& after.level_query == self.level_query.installed()
                &&& after.songs == self.songs
                &&& after.status_query == self.status_query
                &&& after.flow == self.flow
                &&& after.heartbeat == self.heartbeat
            },
        }
    }

    /// What routing a packet does.
    pub open spec fn parse_packet_post(
        self,
        after: WebContext,
        packet: Packet,
        r: Result<Action, RouteError>,
    ) -> bool {
        match packet {
            Packet::SongList(l) => {
                &&& self.replace_post(
                    after,
                    l.levels@,
                    match r {
                        Ok(_) => Ok(()),
                        Err(e) => Err(e),
                    },
                )
                &&& r is Ok ==> r == Ok::<Action, RouteError>(Action::Ignore)
            },
            Packet::Command(c) => {
                &&& after == self
                &&& r == Ok::<Action, RouteError>(
                    if c.command_type == command_type_value(CommandType::ReturnToMenu) {
                        Action::ReturnToMenu
                    } else {
                        Action::Ignore
                    },
                )
            },
            Packet::PlaySong(p) => self.play_song_post(after, p, r),
            Packet::DownloadSong(d) => {
                &&& after == self
                &&& r == Ok::<Action, RouteError>(Action::DownloadNotImplemented(d))
            },
            _ => after == self && r == Ok::<Action, RouteError>(Action::Ignore),
        }
    }

    /// What completing status query `id` with `levels` does: a superseded
    /// query changes nothing; the live one ends, and its levels replace the
    /// catalog as a `SongList` would.
    pub open spec fn finish_update_post(
        self,
        after: WebContext,
        id: u64,
        levels: Seq<PreviewBeatmapLevel>,
        r: Result<bool, RouteError>,
    ) -> bool {
        if self.status_query.current == Some(id) {
            let mid = WebContext { status_query: self.status_query.cleared(), ..self };
            mid.replace_post(
                after,
                levels,
                match r {
                    Ok(_) => Ok(()),
                    Err(e) => Err(e),
                },
            ) && (r is Ok ==> r == Ok::<bool, RouteError>(true))
        } else {
            r == Ok::<bool, RouteError>(false) && after == self
        }
    }

    /// A context with an empty catalog, no query, no flow and no heartbeat.
    pub fn new() -> (r: WebContext)
        ensures
            r.wf(),
            r.songs@.len() == 0,
            r.level_query.current is None,
            r.status_query.current is None,
            r.flow is None,
            r.heartbeat.task.current is None,
    {
        WebContext {
            songs: Vec::new(),
            level_query: Slot::new(),
            status_query: Slot::new(),
            flow: None,
            heartbeat: HeartbeatScheduler::new(),
        }
    }

    /// Whether the levels' identifiers are pairwise distinct.
    fn check_unique_ids(levels: &Vec<PreviewBeatmapLevel>) -> (r: bool)
        ensures
            r == ids_unique(levels@),
    {
        let n = levels.len();
        let mut i: usize = 0;
        while i < n
            invariant
                n == levels@.len(),
                i <= n,
                forall|a: int, b: int|
                    0 <= a < b < n && a < i ==> #[trigger] levels@[a].level_id@
                        != #[trigger] levels@[b].level_id@,
            decreases n - i,
        {
            let mut j: usize = i + 1;
            while j < n
                invariant
                    n == levels@.len(),
                    i < n,
                    i + 1 <= j <= n,
                    forall|a: int, b: int|
                        0 <= a < b < n && a < i ==> #[trigger] levels@[a].level_id@
                            != #[trigger] levels@[b].level_id@,
                    forall|b: int| i < b < j ==> levels@[i as int].level_id@ != #[trigger] levels@[b].level_id@,
                decreases n - j,
            {
                if levels[i].level_id == levels[j].level_id {
                    assert(!ids_unique(levels@)) by {
                        assert(levels@[i as int].level_id@ == levels@[j as int].level_id@);
                    }
                    return false;
                }
                j = j + 1;
            }
            i = i + 1;
        }
        true
    }

    /// Replaces the whole catalog with `levels`: entries that `levels` does
    /// not list are gone. Levels that share an identifier are refused, and
    /// then nothing changes.
    pub fn replace_catalog(&mut self, levels: Vec<PreviewBeatmapLevel>) -> (r: Result<(), RouteError>)
        requires
            old(self).wf(),
        ensures
            old(self).replace_post(*final(self), levels@, r),
            final(self).wf(),
    {
        if !Self::check_unique_ids(&levels) {
            return Err(RouteError::DuplicateSongId);
        }
        let ghost all = levels@;
        let mut rest = levels;
        let mut reversed: Vec<PreviewBeatmapLevel> = Vec::new();
        while rest.len() > 0
            invariant
                rest@ + reversed@.reverse() == all,
            decreases rest@.len(),
        {
            let l = rest.pop().unwrap();
            let ghost r0 = reversed@;
            reversed.push(l);
            assert(reversed@.reverse() =~= seq![l] + r0.reverse());
            assert(rest@ + reversed@.reverse() =~= all);
        }
        assert(reversed@.reverse() =~= all);
        let mut songs: Vec<SongData> = Vec::new();
        while reversed.len() > 0
            invariant
                songs@ + songs_of(reversed@.reverse()) == songs_of(all),
            decreases reversed@.len(),
        {
            let l = reversed.pop().unwrap();
            let ghost r0 = reversed@;
            let hash = SongId(l.level_id.clone());
            let s = SongData { hash, level: l };
            assert(s == song_of(l));
            let ghost before = songs@;
            songs.push(s);
            assert(r0.push(l).reverse() =~= seq![l] + r0.reverse());
            assert(songs_of(seq![l] + r0.reverse()) =~= seq![song_of(l)] + songs_of(r0.reverse()));
            assert(songs@ + songs_of(r0.reverse()) =~= songs_of(all));
        }
        assert(songs@ =~= songs_of(all));
        self.songs = songs;
        assert(self.catalog() =~= all);
        Ok(())
    }

    /// The index of the catalog entry for `id`, if any.
    pub fn find_song(&self, id: &String) -> (r: Option<usize>)
        ensures
            r matches Some(i) ==> i < self.songs@.len() && self.songs@[i as int].hash@ == id@,
            r is None ==> !self.has_song(id@),
    {
        let mut i: usize = 0;
        while i < self.songs.len()
            invariant
                i <= self.songs@.len(),
                forall|k: int| 0 <= k < i ==> #[trigger] self.songs@[k].hash@ != id@,
            decreases self.songs@.len() - i,
        {
            if self.songs[i].hash.0 == *id {
                return Some(i);
            }
            i = i + 1;
        }
        None
    }

    proof fn lemma_entry_unique(self, i: int, j: int)
        requires
            self.wf(),
            0 <= i < self.songs@.len(),
            0 <= j < self.songs@.len(),
            self.songs@[i].hash@ == self.songs@[j].hash@,
        ensures
            i == j,
    {
        let c = self.catalog();
        assert(c[i] == self.songs@[i].level);
        assert(c[j] == self.songs@[j].level);
        if i < j {
            assert(c[i].level_id@ != c[j].level_id@);
        } else if j < i {
            assert(c[j].level_id@ != c[i].level_id@);
        }
    }

    /// The modifiers that a `PlaySong` packet asks for.
    pub fn convert_modifiers(mods: &GameplayModifiers) -> (r: Modifiers)
        ensures
            r == modifiers_spec(*mods),
    {
        Modifiers {
            energy_type: energy_type_from_i32(mods.energy_type),
            no_fail_on_0_energy: mods.no_fail_on_0_energy,
            insta_fail: mods.insta_fail,
            fail_on_saber_clash: mods.fail_on_saber_clash,
            enabled_obstacle_type: obstacle_type_from_i32(mods.enabled_obstacle_type),
            no_bombs: mods.no_bombs,
            fast_notes: false,
            strict_angles: mods.strict_angles,
            disappearing_arrows: mods.disappearing_arrows,
            song_speed: song_speed_from_i32(mods.song_speed),
            no_arrows: mods.no_bombs,
            ghost_notes: mods.ghost_notes,
            pro_mode: mods.pro_mode,
            zen_mode: mods.zen_mode,
            small_cubes: mods.small_cubes,
        }
    }

    /// Resolves a `PlaySong` request against the catalog: the song by its
    /// identifier, the characteristic among those the song offers, and the
    /// difficulty by its label. A resolved request starts a new level query.
    pub fn play_song(&mut self, packet: PlaySong) -> (r: Result<Action, RouteError>)
        requires
            old(self).wf(),
        ensures
            old(self).play_song_post(*final(self), packet, r),
            final(self).wf(),
    {
        let ghost p = packet;
        let PlaySong { level_id, characteristic, difficulty, gameplay_modifiers } = packet;
        let idx = match self.find_song(&level_id) {
            Some(i) => i,
            None => {
                return Err(RouteError::SongNotFound);
            },
        };
        let c = match characteristic {
            Some(c) => c,
            None => {
                return Err(RouteError::MissingCharacteristic);
            },
        };
        let listed = Self::lists_characteristic(&self.songs[idx].level.chars, &c.name);
        proof {
            if self.offers(level_id@, c.name@) {
                let (i, k) = choose|i: int, k: int|
                    0 <= i < self.songs@.len() && #[trigger] self.songs@[i].hash@ == level_id@ && 0
                        <= k < self.songs@[i].level.chars@.len()
                        && #[trigger] self.songs@[i].level.chars@[k].name@ == c.name@;
                self.lemma_entry_unique(i, idx as int);
            }
            if listed {
                let k = choose|k: int|
                    0 <= k < self.songs@[idx as int].level.chars@.len()
                        && #[trigger] self.songs@[idx as int].level.chars@[k].name@ == c.name@;
                assert(self.songs@[idx as int].level.chars@[k].name@ == c.name@);
            }
        }
        if !listed {
            return Err(RouteError::CharacteristicNotFound);
        }
        let d = match difficulty_from_name(difficulty.as_str()) {
            Some(d) => d,
            None => {
                return Err(RouteError::UnknownDifficulty);
            },
        };
        let m = match gameplay_modifiers {
            Some(m) => m,
            None => {
                return Err(RouteError::MissingModifiers);
            },
        };
        let modifiers = Self::convert_modifiers(&m);
        let ticket = self.level_query.install();
        Ok(
            Action::StartLevel(
                LevelRequest { song: idx, characteristic: c.name, difficulty: d, modifiers, ticket },
            ),
        )
    }

    /// Routes a decoded packet: a `SongList` replaces the catalog, a
    /// return-to-menu command asks for the menu, a `PlaySong` asks for a
    /// level, a `DownloadSong` is handed back unhandled, and every other
    /// packet is decoded only to be dropped.
    pub fn parse_packet(&mut self, packet: Packet) -> (r: Result<Action, RouteError>)
        requires
            old(self).wf(),
        ensures
            old(self).parse_packet_post(*final(self), packet, r),
            final(self).wf(),
    {
        match packet {
            Packet::SongList(l) => match self.replace_catalog(l.levels) {
                Ok(()) => Ok(Action::Ignore),
                Err(e) => Err(e),
            },
            Packet::Command(c) => match CommandType::from_i32(c.command_type) {
                Some(CommandType::ReturnToMenu) => Ok(Action::ReturnToMenu),
                _ => Ok(Action::Ignore),
            },
            Packet::PlaySong(p) => self.play_song(p),
            Packet::DownloadSong(d) => Ok(Action::DownloadNotImplemented(d)),
            _ => Ok(Action::Ignore),
        }
    }

    /// Starts a status query; the query it replaces, if any, is handed back
    /// to be cancelled.
    pub fn update(&mut self) -> (t: Ticket)
        requires
            old(self).wf(),
        ensures
            t.id == old(self).status_query.next,
            t.replaced == old(self).status_query.current,
            *final(self) == (WebContext { status_query: old(self).status_query.installed(), ..*old(self) }),
            final(self).wf(),
    {
        self.status_query.install()
    }

    /// Completes status query `id` with the levels it found. A superseded
    /// query is dropped and changes nothing; the live one replaces the
    /// catalog.
    pub fn finish_update(&mut self, id: u64, levels: Vec<PreviewBeatmapLevel>) -> (r: Result<bool, RouteError>)
        requires
            old(self).wf(),
        ensures
            old(self).finish_update_post(*final(self), id, levels@, r),
            final(self).wf(),
    {
        if !self.status_query.complete(id) {
            return Ok(false);
        }
        match self.replace_catalog(levels) {
            Ok(()) => Ok(true),
            Err(e) => Err(e),
        }
    }

    /// Completes level query `id`: true when it is the live one, whose
    /// level may start; false when a later request superseded it.
    pub fn level_loaded(&mut self, id: u64) -> (r: bool)
        requires
            old(self).wf(),
        ensures
            r == (old(self).level_query.current == Some(id)),
            r ==> *final(self) == (WebContext { level_query: old(self).level_query.cleared(), ..*old(self) }),
            !r ==> *final(self) == *old(self),
            final(self).wf(),
    {
        self.level_query.complete(id)
    }

    /// What the read loop does after reading a header: a framing error ends
    /// it, a kind outside the enumeration is skipped, any other is decoded.
    pub fn read_step(header: &Result<FrameHeader, FrameError>) -> (r: LoopStep)
        ensures
            r == read_step_spec(*header),
    {
        match header {
            Err(e) => LoopStep::Stop(*e),
            Ok(h) => match PacketType::from_i32(h.packet_type) {
                Some(t) => LoopStep::Decode(t),
                None => LoopStep::Skip(h.packet_type),
            },
        }
    }

    /// The session started under `flow`: the heartbeat task in place, if
    /// any, is to be aborted before the new one is spawned.
    pub fn session_started(&mut self, flow: u64) -> (t: Ticket)
        requires
            old(self).wf(),
        ensures
            t == old(self).heartbeat.start_ticket(),
            final(self).heartbeat.task == old(self).heartbeat.task.installed(),
            final(self).flow == Some(flow),
            final(self).songs == old(self).songs,
            final(self).level_query == old(self).level_query,
            final(self).status_query == old(self).status_query,
            final(self).wf(),
    {
        self.flow = Some(flow);
        self.heartbeat.start()
    }

    /// The session ended: the heartbeat task handed back, if any, is to be
    /// aborted, and no flow is active.
    pub fn session_ended(&mut self) -> (r: Option<u64>)
        requires
            old(self).wf(),
        ensures
            r == old(self).heartbeat.task.current,
            final(self).heartbeat.task == old(self).heartbeat.task.cleared(),
            final(self).flow is None,
            final(self).songs == old(self).songs,
            final(self).level_query == old(self).level_query,
            final(self).status_query == old(self).status_query,
            final(self).wf(),
    {
        self.flow = None;
        self.heartbeat.stop()
    }

    /// The connection closed: both queries are to be cancelled and the
    /// heartbeat aborted; the context keeps no live handle.
    pub fn close(&mut self) -> (r: Teardown)
        requires
            old(self).wf(),
        ensures
            r.status_query == old(self).status_query.current,
            r.level_query == old(self).level_query.current,
            r.heartbeat == old(self).heartbeat.task.current,
            final(self).status_query == old(self).status_query.cleared(),
            final(self).level_query == old(self).level_query.cleared(),
            final(self).heartbeat.task == old(self).heartbeat.task.cleared(),
            final(self).flow is None,
            final(self).songs == old(self).songs,
            final(self).wf(),
    {
        let status_query = self.status_query.take();
        let level_query = self.level_query.take();
        let heartbeat = self.heartbeat.stop();
        self.flow = None;
        Teardown { status_query, level_query, heartbeat }
    }

    /// The bytes of one frame that carries `packet`'s serialized `payload`
    /// under the kind that the packet declares, to be written at once.
    pub fn write_packet<P: PartyPacket>(packet: &P, payload: &[u8]) -> (r: Vec<u8>)
        ensures
            r@ == frame_bytes(packet_type_value(packet.packet_type()), payload@),
    {
        let t = packet.get_type();
        encode_frame(t.to_i32(), payload)
    }

    /// The catalog entry for a level: its metadata, the mappers joined by
    /// commas, whether the player owns it (with a justification when not),
    /// and its characteristics grouped from its keys.
    pub fn convert_to_packet_type(info: LevelInfo, owned: bool) -> (r: PreviewBeatmapLevel)
        ensures
            r.level_id == info.level_id,
            r.name == info.name,
            r.sub_name == info.sub_name,
            r.author == info.author,
            r.mapper@ == joined(texts(info.mappers@), ","@),
            r.bpm_bits == info.bpm_bits,
            r.duration == info.duration,
            r.favorited == info.favorited,
            r.owned == owned,
            r.owned_justification@ == (if owned {
                Seq::<char>::empty()
            } else {
                unowned_justification()
            }),
            is_run_grouping(r.chars@, present_keys(info.keys@)),
    {
        let mapper = join_names(&info.mappers, ",");
        let chars = group_characteristics(&info.keys);
        let owned_justification = if owned {
            String::new()
        } else {
            "Unowned DLC Level".to_owned()
        };
        PreviewBeatmapLevel {
            level_id: info.level_id,
            name: info.name,
            sub_name: info.sub_name,
            author: info.author,
            mapper,
            bpm_bits: info.bpm_bits,
            duration: info.duration,
            favorited: info.favorited,
            owned,
            owned_justification,
            chars,
        }
    }

    fn lists_characteristic(chars: &Vec<Characteristic>, name: &String) -> (r: bool)
        ensures
            r == exists|k: int| 0 <= k < chars@.len() && #[trigger] chars@[k].name@ == name@,
    {
        let mut k: usize = 0;
        while k < chars.len()
            invariant
                k <= chars@.len(),
                forall|m: int| 0 <= m < k ==> #[trigger] chars@[m].name@ != name@,
            decreases chars@.len() - k,
        {
            if chars[k].name == *name {
                return true;
            }
            k = k + 1;
        }
        false
    }
}

/// Bytes that do not start with `moon` end the read loop with a bad-magic
/// error before any packet is routed, so the context is left as it was.
pub proof fn lemma_bad_magic_stops_read_loop(b: Seq<u8>)
    requires
        b.len() >= 4,
        b.subrange(0, 4) != magic(),
    ensures
        read_step_spec(parse_header_spec(b)) == LoopStep::Stop(FrameError::BadMagic),
        parse_frame_spec(b) == Err::<(i32, Seq<u8>), FrameError>(FrameError::BadMagic),
{
    lemma_bad_magic_is_fatal(b);
}

/// A header of a kind outside the enumeration is skipped, and the read loop
/// goes on to the next frame.
pub proof fn lemma_unknown_kind_is_skipped(h: FrameHeader)
    requires
        !(0 <= h.packet_type <= 7),
    ensures
        read_step_spec(Ok(h)) == LoopStep::Skip(h.packet_type),
{
}

/// After a `SongList` and then a second one whose identifiers are distinct,
/// the catalog is exactly the second list: entries of the first that the
/// second does not list are gone.
pub proof fn lemma_song_list_replaces_catalog(
    c0: WebContext,
    c1: WebContext,
    c2: WebContext,
    first: SongList,
    second: SongList,
    r1: Result<Action, RouteError>,
    r2: Result<Action, RouteError>,
)
    requires
        c0.parse_packet_post(c1, Packet::SongList(first), r1),
        c1.parse_packet_post(c2, Packet::SongList(second), r2),
        ids_unique(second.levels@),
    ensures
        r2 == Ok::<Action, RouteError>(Action::Ignore),
        c2.catalog() == second.levels@,
        forall|id: Seq<char>|
            c2.has_song(id) <==> exists|k: int|
                0 <= k < second.levels@.len() && #[trigger] second.levels@[k].level_id@ == id,
{
    let l = second.levels@;
    assert(c2.catalog() =~= l);
    assert forall|id: Seq<char>|
        c2.has_song(id) <==> exists|k: int|
            0 <= k < l.len() && #[trigger] l[k].level_id@ == id by {
        if c2.has_song(id) {
            let i = choose|i: int| 0 <= i < c2.songs@.len() && #[trigger] c2.songs@[i].hash@ == id;
            assert(c2.songs@[i] == song_of(l[i]));
            assert(l[i].level_id@ == id);
        }
        if exists|k: int| 0 <= k < l.len() && #[trigger] l[k].level_id@ == id {
            let k = choose|k: int| 0 <= k < l.len() && #[trigger] l[k].level_id@ == id;
            assert(c2.songs@[k] == song_of(l[k]));
            assert(c2.songs@[k].hash@ == id);
        }
    }
}

/// Once a second status query starts while the first is outstanding, the
/// first is handed back for cancelling, and its result, when it comes, is
/// dropped and leaves the context unchanged.
pub proof fn lemma_second_status_query_supersedes_first(
    c0: WebContext,
    c3: WebContext,
    levels: Seq<PreviewBeatmapLevel>,
    r: Result<bool, RouteError>,
)
    requires
        c0.wf(),
        ({
            let c1 = WebContext { status_query: c0.status_query.installed(), ..c0 };
            let c2 = WebContext { status_query: c1.status_query.installed(), ..c1 };
            c2.finish_update_post(c3, c0.status_query.next, levels, r)
        }),
    ensures
        ({
            let c1 = WebContext { status_query: c0.status_query.installed(), ..c0 };
            let c2 = WebContext { status_query: c1.status_query.installed(), ..c1 };
            &&& c1.status_query.current == Some(c0.status_query.next)
            &&& c2.status_query.current != Some(c0.status_query.next)
            &&& r == Ok::<bool, RouteError>(false)
            &&& c3 == c2
        }),
{
}

} // verus!
