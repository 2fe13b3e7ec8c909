use war_and_trade::game::common::GameSpeed as ModelSpeed;
use war_and_trade::game::data::GameData;
use war_and_trade::game::date::GameDate;
use war_and_trade::game::game_data::GameData as SettingsGameData;
use war_and_trade::protocol::cmd::Cmd;
use war_and_trade::protocol::common::GameSpeed;
use war_and_trade::protocol::gui_to_server::{
    GuiToServerLabel, GuiToServerMsg, NewGamePld, HEADER_SIZE, PACKET_SIZE, STR_LEN,
};
use war_and_trade::protocol::net_interface::{decode_header, decode_packet, CommandBatch, MAX_PACKETS};

fn name_bytes(name: &str) -> Vec<u8> {
    let mut out = name.as_bytes().to_vec();
    out.resize(STR_LEN, 0);
    out
}

fn padded_name(name: &str) -> String {
    let mut out = String::from(name);
    while out.len() < STR_LEN {
        out.push('\0');
    }
    out
}

#[test]
fn packet_sizes() {
    assert_eq!(HEADER_SIZE, 1);
    assert_eq!(STR_LEN, 32);
    assert_eq!(PACKET_SIZE, HEADER_SIZE + STR_LEN);
}

#[test]
fn label_bytes() {
    assert_eq!(GuiToServerLabel::from_byte(1), Some(GuiToServerLabel::NewGame));
    assert_eq!(GuiToServerLabel::from_byte(2), Some(GuiToServerLabel::SaveGame));
    assert_eq!(GuiToServerLabel::from_byte(3), Some(GuiToServerLabel::LoadGame));
    assert_eq!(GuiToServerLabel::from_byte(4), Some(GuiToServerLabel::SetSpeed));
    assert_eq!(GuiToServerLabel::from_byte(0), None);
    assert_eq!(GuiToServerLabel::from_byte(5), None);
}

#[test]
fn speed_bytes() {
    assert_eq!(GameSpeed::from_byte(0), Some(GameSpeed::Paused));
    assert_eq!(GameSpeed::from_byte(1), Some(GameSpeed::Speed1X));
    assert_eq!(GameSpeed::from_byte(2), Some(GameSpeed::Speed2X));
    assert_eq!(GameSpeed::from_byte(3), Some(GameSpeed::Speed4X));
    assert_eq!(GameSpeed::from_byte(4), Some(GameSpeed::Speed10X));
    assert_eq!(GameSpeed::from_byte(5), Some(GameSpeed::Speed40X));
    assert_eq!(GameSpeed::from_byte(6), None);
    assert_eq!(GameSpeed::Speed10X.to_game_speed(), ModelSpeed::Speed10X);
    assert_eq!(GameSpeed::Paused.to_game_speed(), ModelSpeed::Paused);
}

#[test]
fn header_needs_a_known_label() {
    assert!(decode_header(&[]).is_none());
    assert!(decode_header(&[7]).is_none());
    assert_eq!(decode_header(&[3, 9]).unwrap().label, GuiToServerLabel::LoadGame);
}

#[test]
fn decode_new_game() {
    let mut bytes = vec![1u8];
    bytes.extend_from_slice(b"Rome");
    match decode_packet(&bytes) {
        Some(GuiToServerMsg::NewGame(p)) => assert_eq!(p.civ_name.to_vec(), name_bytes("Rome")),
        other => panic!("unexpected {:?}", other),
    }
}

#[test]
fn decode_save_and_load_game() {
    let mut save = vec![2u8];
    save.extend_from_slice(b"first");
    match decode_packet(&save) {
        Some(GuiToServerMsg::SaveGame(p)) => assert_eq!(p.name.to_vec(), name_bytes("first")),
        other => panic!("unexpected {:?}", other),
    }
    let mut load = vec![3u8];
    load.extend_from_slice(b"second");
    match decode_packet(&load) {
        Some(GuiToServerMsg::LoadGame(p)) => assert_eq!(p.name.to_vec(), name_bytes("second")),
        other => panic!("unexpected {:?}", other),
    }
}

#[test]
fn decode_cuts_names_at_the_buffer_size() {
    let mut bytes = vec![1u8];
    bytes.extend((0..40u8).map(|i| b'a' + (i % 26)));
    match decode_packet(&bytes) {
        Some(GuiToServerMsg::NewGame(p)) => assert_eq!(p.civ_name.to_vec(), bytes[1..33].to_vec()),
        other => panic!("unexpected {:?}", other),
    }
}

#[test]
fn decode_set_speed() {
    match decode_packet(&[4, 3]) {
        Some(GuiToServerMsg::SetSpeed(p)) => assert_eq!(p.speed, GameSpeed::Speed4X),
        other => panic!("unexpected {:?}", other),
    }
    match decode_packet(&[4]) {
        Some(GuiToServerMsg::SetSpeed(p)) => assert_eq!(p.speed, GameSpeed::Paused),
        other => panic!("unexpected {:?}", other),
    }
    assert!(decode_packet(&[4, 6]).is_none());
}

#[test]
fn decode_rejects_short_and_unknown() {
    assert!(decode_packet(&[]).is_none());
    assert!(decode_packet(&[0, 1, 2]).is_none());
    assert!(decode_packet(&[5]).is_none());
}

#[test]
fn batch_skips_empty_datagrams_and_counts_others() {
    let mut batch = CommandBatch::new();
    assert_eq!(batch.processed, 0);
    batch.accept_datagram(&[]);
    assert_eq!(batch.processed, 0);
    assert!(batch.commands.is_empty());
    batch.accept_datagram(&[9]);
    assert_eq!(batch.processed, 1);
    assert!(batch.commands.is_empty());
    batch.accept_datagram(&[4, 1]);
    assert_eq!(batch.processed, 2);
    assert_eq!(batch.commands.len(), 1);
    assert!(matches!(
        batch.commands[0],
        GuiToServerMsg::SetSpeed(p) if p.speed == GameSpeed::Speed1X
    ));
}

#[test]
fn batch_is_complete_after_max_packets() {
    let mut batch = CommandBatch::new();
    let mut count = 0;
    while !batch.is_complete() {
        batch.accept_datagram(&[4, 2]);
        count += 1;
    }
    assert_eq!(count, MAX_PACKETS as usize);
    assert_eq!(batch.commands.len(), 10);
}

#[test]
fn message_into_command() {
    let mut name = [0u8; STR_LEN];
    name[..4].copy_from_slice(b"Rome");
    match GuiToServerMsg::NewGame(NewGamePld { civ_name: name }).into_cmd() {
        Cmd::NewGame(p) => assert_eq!(p.civ_name, padded_name("Rome")),
        other => panic!("unexpected {:?}", other),
    }
    match decode_packet(&[4, 5]).unwrap().into_cmd() {
        Cmd::SetSpeed(p) => assert_eq!(p.speed, ModelSpeed::Speed40X),
        other => panic!("unexpected {:?}", other),
    }
    match decode_packet(&[3, b'x']).unwrap().into_cmd() {
        Cmd::LoadGame(p) => assert_eq!(p.name, padded_name("x")),
        other => panic!("unexpected {:?}", other),
    }
}

#[test]
fn game_data_from_settings_decodes_name() {
    let mut name = [0u8; STR_LEN];
    name[..4].copy_from_slice(b"Rome");
    let data = GameData::from_settings(&NewGamePld { civ_name: name });
    assert_eq!(data.civ_name(), padded_name("Rome"));
    assert_eq!(*data.date(), GameDate::new(1, 1, 1));
}

#[test]
fn game_data_from_settings_replaces_invalid_utf8() {
    let mut name = [0u8; STR_LEN];
    name[0] = 0xFF;
    name[1] = b'a';
    let data = GameData::from_settings(&NewGamePld { civ_name: name });
    let mut expected = String::from("\u{FFFD}a");
    while expected.chars().count() < STR_LEN {
        expected.push('\0');
    }
    assert_eq!(data.civ_name(), expected);
}

#[test]
fn settings_game_data_from_settings() {
    let mut name = [0u8; STR_LEN];
    name[..6].copy_from_slice(b"Sparta");
    let a = format!("{:?}", SettingsGameData::from_settings(&NewGamePld { civ_name: name }));
    assert!(a.contains("Sparta"));
    assert!(a.contains("\\0"));
    let b = format!("{:?}", SettingsGameData::new());
    assert!(b.contains("NO NAME"));
}
