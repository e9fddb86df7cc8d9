use hackceler8::convert::{
    convert_walk_data, door_orientation, is_miniboss_name, parse_walk_data, TiledMap, WalkCommand, WalkData,
};
use hackceler8::door::Orientation;

#[test]
fn walk_scripts_read_steps_between_commas() {
    let steps = parse_walk_data(b"U10,R5,P30").unwrap();
    assert_eq!(
        steps,
        vec![
            WalkData { command: WalkCommand::Up, duration: 10 },
            WalkData { command: WalkCommand::Right, duration: 5 },
            WalkData { command: WalkCommand::Pause, duration: 30 },
        ]
    );
    assert_eq!(convert_walk_data(b"L+7"), vec![WalkData { command: WalkCommand::Left, duration: 7 }]);
    assert_eq!(convert_walk_data(b"D007"), vec![WalkData { command: WalkCommand::Down, duration: 7 }]);
}

#[test]
fn malformed_walk_scripts_are_refused() {
    assert_eq!(parse_walk_data(b""), None);
    assert_eq!(parse_walk_data(b"U"), None);
    assert_eq!(parse_walk_data(b"X1"), None);
    assert_eq!(parse_walk_data(b"U1,,R2"), None);
    assert_eq!(parse_walk_data(b"U1,"), None);
    assert_eq!(parse_walk_data(b"U-5"), None);
    assert_eq!(parse_walk_data(b"U+"), None);
    assert_eq!(parse_walk_data(b"U 5"), None);
    assert_eq!(parse_walk_data(b"U99999999999999999999999"), None);
}

#[test]
fn command_names() {
    assert_eq!(WalkCommand::Up.name(), "Up");
    assert_eq!(WalkCommand::Pause.name(), "Pause");
}

#[test]
fn object_ids_count_up() {
    let mut m = TiledMap::new("maps/forest.tmx".to_string(), "forest".to_string());
    assert_eq!(m.next_enemy_id(), 0);
    assert_eq!(m.next_enemy_id(), 1);
    assert_eq!(m.next_door_id(), 0);
    assert_eq!(m.next_door_id(), 1);
    assert_eq!(m.next_item_id(), 0);
    assert_eq!(m.next_switch_id(), 0);
    assert_eq!(m.next_npc_id(), 0);
    assert_eq!(m.next_enemy_id(), 2);
}

#[test]
fn door_names_tell_the_orientation() {
    assert_eq!(door_orientation(b"DoorH"), Some(Orientation::Horizontal));
    assert_eq!(door_orientation(b"DoorV"), Some(Orientation::Vertical));
    assert_eq!(door_orientation(b"Door"), None);
    assert_eq!(door_orientation(b""), None);
}

#[test]
fn miniboss_names() {
    assert!(is_miniboss_name(b"BlobMiniboss"));
    assert!(is_miniboss_name(b"Miniboss"));
    assert!(!is_miniboss_name(b"Blob"));
    assert!(!is_miniboss_name(b"Minibos"));
}
