use party_panel::catalog::{
    difficulty_from_name, difficulty_name, BeatmapKey, Difficulty, LevelInfo, SongId,
};
use party_panel::codec::{decode_frame, encode_frame, parse_header, Frame, FrameError, FrameHeader};
use party_panel::config::Config;
use party_panel::heartbeat::HeartbeatScheduler;
use party_panel::modifiers::{
    energy_type_from_i32, obstacle_type_from_i32, song_speed_from_i32, EnabledObstacleType,
    EnergyType, SongSpeed,
};
use party_panel::proto::{
    AllSongs, Characteristic, Command, CommandType, DownloadSong, GameplayModifiers, NowPlaying,
    NowPlayingUpdate, PacketType, PartyPacket, PlaySong, PreviewBeatmapLevel, PreviewSong, SongList,
};
use party_panel::web_context::{Action, LoopStep, Packet, RouteError, WebContext};

fn level(id: &str, chars: &[(&str, &[&str])]) -> PreviewBeatmapLevel {
    PreviewBeatmapLevel {
        level_id: id.to_string(),
        name: format!("{id} name"),
        sub_name: String::new(),
        author: "author".to_string(),
        mapper: "mapper".to_string(),
        bpm_bits: 120.0f32.to_bits(),
        duration: "3:05".to_string(),
        favorited: false,
        owned: true,
        owned_justification: String::new(),
        chars: chars
            .iter()
            .map(|(name, diffs)| Characteristic {
                name: name.to_string(),
                diffs: diffs.iter().map(|d| d.to_string()).collect(),
            })
            .collect(),
    }
}

fn ids(ctx: &WebContext) -> Vec<String> {
    ctx.songs.iter().map(|s| s.hash.0.clone()).collect()
}

fn modifiers() -> GameplayModifiers {
    GameplayModifiers {
        energy_type: 1,
        no_fail_on_0_energy: true,
        insta_fail: false,
        fail_on_saber_clash: false,
        enabled_obstacle_type: 2,
        no_bombs: true,
        strict_angles: false,
        disappearing_arrows: true,
        song_speed: 3,
        ghost_notes: false,
        pro_mode: true,
        zen_mode: false,
        small_cubes: true,
    }
}

fn play(id: &str, characteristic: Option<&str>, difficulty: &str) -> PlaySong {
    PlaySong {
        level_id: id.to_string(),
        characteristic: characteristic.map(|c| Characteristic { name: c.to_string(), diffs: vec![] }),
        difficulty: difficulty.to_string(),
        gameplay_modifiers: Some(modifiers()),
    }
}

fn catalog_ctx() -> WebContext {
    let mut ctx = WebContext::new();
    let list = SongList {
        levels: vec![
            level("a", &[("Standard", &["Easy", "Hard"])]),
            level("b", &[("OneSaber", &["Expert"]), ("Standard", &["Normal"])]),
        ],
    };
    assert_eq!(ctx.parse_packet(Packet::SongList(list)), Ok(Action::Ignore));
    ctx
}

#[test]
fn frame_layout_is_magic_kind_length_payload() {
    let bytes = encode_frame(4, &[9, 8, 7]);
    assert_eq!(
        bytes,
        vec![b'm', b'o', b'o', b'n', 0, 0, 0, 4, 0, 0, 0, 0, 0, 0, 0, 3, 9, 8, 7]
    );
    let negative = encode_frame(-2, &[]);
    assert_eq!(&negative[4..8], &[0xff, 0xff, 0xff, 0xfe]);
    assert_eq!(negative.len(), 16);
}

#[test]
fn frame_round_trip_for_every_packet_type() {
    let kinds = [
        PacketType::SongList,
        PacketType::Command,
        PacketType::NowPlaying,
        PacketType::NowPlayingUpdate,
        PacketType::PlaySong,
        PacketType::PreviewSong,
        PacketType::DownloadSong,
        PacketType::AllSongs,
    ];
    for (n, kind) in kinds.iter().enumerate() {
        let payload: Vec<u8> = (0..(n as u8 * 37)).collect();
        let mut bytes = encode_frame(kind.to_i32(), &payload);
        bytes.extend_from_slice(b"next");
        let (frame, used) = decode_frame(&bytes).unwrap();
        assert_eq!(frame, Frame { packet_type: kind.to_i32(), payload: payload.clone() });
        assert_eq!(used, 16 + payload.len());
        assert_eq!(PacketType::from_i32(frame.packet_type), Some(*kind));
    }
}

#[test]
fn packet_bodies_declare_their_kind() {
    assert_eq!(SongList { levels: vec![] }.get_type(), PacketType::SongList);
    assert_eq!(Command { command_type: 1 }.get_type(), PacketType::Command);
    assert_eq!(NowPlaying {}.get_type(), PacketType::NowPlaying);
    let update = NowPlayingUpdate { score: 1, accuracy_bits: 0, elapsed: 2, total_time: 3 };
    assert_eq!(update.get_type(), PacketType::NowPlayingUpdate);
    assert_eq!(play("a", None, "Easy").get_type(), PacketType::PlaySong);
    assert_eq!(PreviewSong {}.get_type(), PacketType::PreviewSong);
    assert_eq!(DownloadSong { song_key: "k".into() }.get_type(), PacketType::DownloadSong);
    assert_eq!(AllSongs {}.get_type(), PacketType::AllSongs);
    let bytes = WebContext::write_packet(&update, &[1, 2]);
    assert_eq!(bytes, encode_frame(3, &[1, 2]));
}

#[test]
fn packet_and_command_values() {
    for v in 0..8 {
        assert_eq!(PacketType::from_i32(v).unwrap().to_i32(), v);
    }
    assert_eq!(PacketType::from_i32(8), None);
    assert_eq!(PacketType::from_i32(-1), None);
    assert_eq!(CommandType::from_i32(0), Some(CommandType::Unspecified));
    assert_eq!(CommandType::from_i32(1), Some(CommandType::Heartbeat));
    assert_eq!(CommandType::from_i32(2), Some(CommandType::ReturnToMenu));
    assert_eq!(CommandType::from_i32(3), None);
    assert_eq!(CommandType::ReturnToMenu.to_i32(), 2);
}

#[test]
fn bad_magic_is_fatal_and_leaves_state() {
    let mut bytes = encode_frame(0, &[1, 2, 3]);
    bytes[3] = b'N';
    assert_eq!(decode_frame(&bytes), Err(FrameError::BadMagic));
    let header = parse_header(&bytes[..16]);
    assert_eq!(header, Err(FrameError::BadMagic));
    let ctx = catalog_ctx();
    assert_eq!(WebContext::read_step(&header), LoopStep::Stop(FrameError::BadMagic));
    assert_eq!(ids(&ctx), vec!["a", "b"]);
    assert_eq!(decode_frame(b"xy"), Err(FrameError::Truncated));
}

#[test]
fn short_payload_is_truncated() {
    let mut bytes = encode_frame(1, &[0; 10]);
    bytes.truncate(16 + 3);
    assert_eq!(decode_frame(&bytes), Err(FrameError::Truncated));
    assert_eq!(decode_frame(&bytes[..10]), Err(FrameError::Truncated));
    assert_eq!(parse_header(&bytes[..16]), Ok(FrameHeader { packet_type: 1, length: 10 }));
    let step = WebContext::read_step(&decode_frame(&bytes).map(|_| FrameHeader { packet_type: 0, length: 0 }));
    assert_eq!(step, LoopStep::Stop(FrameError::Truncated));
}

#[test]
fn song_list_replaces_whole_catalog() {
    let mut ctx = WebContext::new();
    let first = SongList { levels: vec![level("A", &[]), level("B", &[])] };
    let second = SongList { levels: vec![level("B", &[]), level("C", &[])] };
    assert_eq!(ctx.parse_packet(Packet::SongList(first)), Ok(Action::Ignore));
    assert_eq!(ids(&ctx), vec!["A", "B"]);
    assert_eq!(ctx.parse_packet(Packet::SongList(second)), Ok(Action::Ignore));
    assert_eq!(ids(&ctx), vec!["B", "C"]);
    assert_eq!(ctx.find_song(&"A".to_string()), None);
    assert_eq!(ctx.find_song(&"C".to_string()), Some(1));
    assert_eq!(ctx.songs[0].hash, SongId("B".to_string()));
}

#[test]
fn song_list_with_repeated_id_is_refused() {
    let mut ctx = catalog_ctx();
    let list = SongList { levels: vec![level("x", &[]), level("y", &[]), level("x", &[])] };
    assert_eq!(ctx.parse_packet(Packet::SongList(list)), Err(RouteError::DuplicateSongId));
    assert_eq!(ids(&ctx), vec!["a", "b"]);
    let empty = SongList { levels: vec![] };
    assert_eq!(ctx.parse_packet(Packet::SongList(empty)), Ok(Action::Ignore));
    assert!(ctx.songs.is_empty());
}

#[test]
fn second_status_query_supersedes_first() {
    let mut ctx = catalog_ctx();
    let first = ctx.update();
    assert_eq!(first.replaced, None);
    let second = ctx.update();
    assert_eq!(second.replaced, Some(first.id));
    assert_ne!(second.id, first.id);
    assert_eq!(ctx.finish_update(first.id, vec![level("late", &[])]), Ok(false));
    assert_eq!(ids(&ctx), vec!["a", "b"]);
    assert_eq!(ctx.finish_update(second.id, vec![level("fresh", &[])]), Ok(true));
    assert_eq!(ids(&ctx), vec!["fresh"]);
    assert_eq!(ctx.finish_update(second.id, vec![level("again", &[])]), Ok(false));
    assert_eq!(ids(&ctx), vec!["fresh"]);
}

#[test]
fn return_to_menu_once_per_packet() {
    let mut ctx = catalog_ctx();
    let r = ctx.parse_packet(Packet::Command(Command { command_type: 2 }));
    assert_eq!(r, Ok(Action::ReturnToMenu));
    let r = ctx.parse_packet(Packet::Command(Command { command_type: 2 }));
    assert_eq!(r, Ok(Action::ReturnToMenu));
    for other in [0, 1, 3, -5] {
        let r = ctx.parse_packet(Packet::Command(Command { command_type: other }));
        assert_eq!(r, Ok(Action::Ignore));
    }
    assert_eq!(ids(&ctx), vec!["a", "b"]);
}

#[test]
fn unknown_packet_type_is_skipped() {
    let mut bytes = encode_frame(99, &[5, 5]);
    bytes.extend(encode_frame(1, &[7]));
    let (frame, used) = decode_frame(&bytes).unwrap();
    let header = Ok(FrameHeader { packet_type: frame.packet_type, length: 2 });
    assert_eq!(WebContext::read_step(&header), LoopStep::Skip(99));
    let (next, _) = decode_frame(&bytes[used..]).unwrap();
    assert_eq!(next, Frame { packet_type: 1, payload: vec![7] });
    let header = parse_header(&bytes[used..]);
    assert_eq!(WebContext::read_step(&header), LoopStep::Decode(PacketType::Command));
}

#[test]
fn session_start_then_end_leaves_no_heartbeat() {
    let mut ctx = WebContext::new();
    let started = ctx.session_started(7);
    assert_eq!(started.replaced, None);
    assert!(ctx.heartbeat.is_running());
    assert_eq!(ctx.flow, Some(7));
    assert_eq!(ctx.session_ended(), Some(started.id));
    assert!(!ctx.heartbeat.is_running());
    assert_eq!(ctx.flow, None);
    assert_eq!(ctx.session_ended(), None);
}

#[test]
fn restarting_heartbeat_aborts_the_running_task() {
    let mut h = HeartbeatScheduler::new();
    let a = h.start();
    let b = h.start();
    assert_eq!(b.replaced, Some(a.id));
    assert!(!h.keep_ticking(a.id, true));
    assert!(h.keep_ticking(b.id, false));
    assert_eq!(h.stop(), Some(b.id));
    assert!(!h.keep_ticking(b.id, true));
}

#[test]
fn play_song_resolves_against_catalog() {
    let mut ctx = catalog_ctx();
    let r = ctx.parse_packet(Packet::PlaySong(play("b", Some("Standard"), "Normal")));
    let Ok(Action::StartLevel(req)) = r else { panic!("expected a level start: {r:?}") };
    assert_eq!(req.song, 1);
    assert_eq!(req.characteristic, "Standard");
    assert_eq!(req.difficulty, Difficulty::Normal);
    assert_eq!(req.modifiers.energy_type, EnergyType::Battery);
    assert_eq!(req.modifiers.enabled_obstacle_type, EnabledObstacleType::NoObstacles);
    assert_eq!(req.modifiers.song_speed, SongSpeed::SuperFast);
    assert!(req.modifiers.no_arrows);
    assert!(!req.modifiers.fast_notes);
    assert_eq!(req.ticket.replaced, None);
    let r = ctx.play_song(play("a", Some("Standard"), "Hard"));
    let Ok(Action::StartLevel(next)) = r else { panic!("expected a level start: {r:?}") };
    assert_eq!(next.ticket.replaced, Some(req.ticket.id));
    assert!(!ctx.level_loaded(req.ticket.id));
    assert!(ctx.level_loaded(next.ticket.id));
}

#[test]
fn play_song_errors() {
    let mut ctx = catalog_ctx();
    let cases = [
        (play("zzz", Some("Standard"), "Easy"), RouteError::SongNotFound),
        (play("a", None, "Easy"), RouteError::MissingCharacteristic),
        (play("a", Some("OneSaber"), "Easy"), RouteError::CharacteristicNotFound),
        (play("a", Some("Standard"), "Impossible"), RouteError::UnknownDifficulty),
    ];
    for (packet, err) in cases {
        assert_eq!(ctx.parse_packet(Packet::PlaySong(packet)), Err(err));
    }
    let mut no_mods = play("a", Some("Standard"), "Easy");
    no_mods.gameplay_modifiers = None;
    assert_eq!(ctx.play_song(no_mods), Err(RouteError::MissingModifiers));
    assert_eq!(ctx.level_query.current, None);
}

#[test]
fn other_packets_are_dropped() {
    let mut ctx = catalog_ctx();
    let update = NowPlayingUpdate { score: 1, accuracy_bits: 0, elapsed: 2, total_time: 3 };
    assert_eq!(ctx.parse_packet(Packet::NowPlayingUpdate(update)), Ok(Action::Ignore));
    assert_eq!(ctx.parse_packet(Packet::NowPlaying(NowPlaying {})), Ok(Action::Ignore));
    assert_eq!(ctx.parse_packet(Packet::PreviewSong(PreviewSong {})), Ok(Action::Ignore));
    assert_eq!(ctx.parse_packet(Packet::AllSongs(AllSongs {})), Ok(Action::Ignore));
    let download = DownloadSong { song_key: "1a2b".into() };
    assert_eq!(
        ctx.parse_packet(Packet::DownloadSong(download.clone())),
        Ok(Action::DownloadNotImplemented(download))
    );
    assert_eq!(ids(&ctx), vec!["a", "b"]);
}

#[test]
fn close_hands_back_every_live_handle() {
    let mut ctx = catalog_ctx();
    let status = ctx.update();
    let started = ctx.session_started(3);
    let teardown = ctx.close();
    assert_eq!(teardown.status_query, Some(status.id));
    assert_eq!(teardown.level_query, None);
    assert_eq!(teardown.heartbeat, Some(started.id));
    assert_eq!(ctx.flow, None);
    assert_eq!(ctx.close().heartbeat, None);
    assert_eq!(ids(&ctx), vec!["a", "b"]);
}

#[test]
fn catalog_entry_from_level_info() {
    let key = |c: Option<&str>, d: i32| BeatmapKey { characteristic: c.map(|s| s.to_string()), difficulty: d };
    let info = LevelInfo {
        level_id: "custom_level_1".into(),
        name: "Song".into(),
        sub_name: "Sub".into(),
        author: "Artist".into(),
        mappers: vec!["Ann".into(), "Bob".into(), "Cy".into()],
        bpm_bits: 128.5f32.to_bits(),
        duration: "2:07".into(),
        favorited: true,
        keys: vec![
            key(Some("Standard"), 0),
            key(Some("Standard"), 2),
            key(None, 0),
            key(Some("OneSaber"), 1),
            key(Some("Standard"), 9),
        ],
    };
    let entry = WebContext::convert_to_packet_type(info, false);
    assert_eq!(entry.level_id, "custom_level_1");
    assert_eq!(entry.mapper, "Ann,Bob,Cy");
    assert!(!entry.owned);
    assert_eq!(entry.owned_justification, "Unowned DLC Level");
    assert_eq!(f32::from_bits(entry.bpm_bits), 128.5);
    let chars: Vec<(String, Vec<String>)> =
        entry.chars.iter().map(|c| (c.name.clone(), c.diffs.clone())).collect();
    assert_eq!(
        chars,
        vec![
            ("Standard".to_string(), vec!["Easy".to_string(), "Hard".to_string()]),
            ("OneSaber".to_string(), vec!["Normal".to_string()]),
            ("Standard".to_string(), vec!["Unknown".to_string()]),
        ]
    );
}

#[test]
fn owned_level_has_no_justification_and_single_mapper() {
    let info = LevelInfo {
        level_id: "x".into(),
        name: String::new(),
        sub_name: String::new(),
        author: String::new(),
        mappers: vec!["Solo".into()],
        bpm_bits: 0,
        duration: String::new(),
        favorited: false,
        keys: vec![],
    };
    let entry = WebContext::convert_to_packet_type(info, true);
    assert!(entry.owned);
    assert_eq!(entry.owned_justification, "");
    assert_eq!(entry.mapper, "Solo");
    assert!(entry.chars.is_empty());
}

#[test]
fn difficulty_labels() {
    let names: Vec<String> = (0..6).map(difficulty_name).collect();
    assert_eq!(names, vec!["Easy", "Normal", "Hard", "Expert", "ExpertPlus", "Unknown"]);
    assert_eq!(difficulty_name(-1), "Unknown");
    assert_eq!(difficulty_from_name("ExpertPlus"), Some(Difficulty::ExpertPlus));
    assert_eq!(difficulty_from_name("Hard"), Some(Difficulty::Hard));
    assert_eq!(difficulty_from_name("hard"), None);
    assert_eq!(difficulty_from_name(""), None);
    assert_eq!(Difficulty::from_i32(3), Some(Difficulty::Expert));
    assert_eq!(Difficulty::Expert.to_i32(), 3);
}

#[test]
fn modifier_kinds_fall_back_to_defaults() {
    assert_eq!(energy_type_from_i32(0), EnergyType::Bar);
    assert_eq!(energy_type_from_i32(1), EnergyType::Battery);
    assert_eq!(energy_type_from_i32(5), EnergyType::Bar);
    assert_eq!(obstacle_type_from_i32(1), EnabledObstacleType::FullHeightOnly);
    assert_eq!(obstacle_type_from_i32(-3), EnabledObstacleType::All);
    assert_eq!(song_speed_from_i32(1), SongSpeed::Faster);
    assert_eq!(song_speed_from_i32(2), SongSpeed::Slower);
    assert_eq!(song_speed_from_i32(4), SongSpeed::Normal);
    let m = WebContext::convert_modifiers(&modifiers());
    assert!(m.no_fail_on_0_energy && m.disappearing_arrows && m.pro_mode && m.small_cubes);
    assert!(!m.insta_fail && !m.ghost_notes && !m.zen_mode && !m.strict_angles);
}

#[test]
fn default_config_is_loopback() {
    assert_eq!(Config::default().addr, "127.0.0.1:8080");
}
