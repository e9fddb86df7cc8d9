use hackceler8::convert::{DoorData, SwitchData, TiledMap, WalkCommand, WalkData};
use hackceler8::door::Orientation;
use hackceler8::stage_convert::{convert_stage, ConvertError, LayerContent, MapLayer, MapObject, PropertyValue};

fn obj(name: &str, class: &str, x: i64, y: i64, props: Vec<(&str, PropertyValue)>) -> MapObject {
    MapObject {
        name: name.as_bytes().to_vec(),
        user_type: class.as_bytes().to_vec(),
        x,
        y,
        properties: props.into_iter().map(|(k, v)| (k.as_bytes().to_vec(), v)).collect(),
    }
}

fn tiles(name: &str, attribute: Option<u8>, w: u32, h: u32, t: Vec<Option<u32>>) -> MapLayer {
    MapLayer { aligned: true, name: name.as_bytes().to_vec(), attribute, content: LayerContent::Tiles { width: w, height: h, tiles: t } }
}

fn objects(os: Vec<MapObject>) -> MapLayer {
    MapLayer { aligned: true, name: b"objs".to_vec(), attribute: None, content: LayerContent::Objects(os) }
}

fn spawn() -> MapObject {
    obj("Spawn", "", 12, 34, vec![])
}

fn map() -> TiledMap {
    TiledMap::new("maps/forest.tmx".to_string(), "forest".to_string())
}

fn convert(layers: Vec<MapLayer>) -> Result<(), ConvertError> {
    let mut m = map();
    convert_stage(&mut m, "forest_tiles".to_string(), 0, 2, 2, &layers).map(|_| ())
}

#[test]
fn a_stage_converts_to_grids_and_objects() {
    let mut m = map();
    let layers = vec![
        tiles("gfx", None, 2, 2, vec![Some(0), None, Some(4), Some(1)]),
        tiles("wall", Some(1), 2, 2, vec![None, Some(9), None, None]),
        tiles("spike", Some(2), 2, 2, vec![None, None, Some(3), None]),
        tiles("decoration", None, 5, 5, vec![None; 25]),
        objects(vec![
            obj("Spawn", "", 12, 34, vec![]),
            obj("Blob", "Enemy", -5, 70000, vec![
                ("walk", PropertyValue::Text(b"U10,R5".to_vec())),
                ("health", PropertyValue::Int(3)),
                ("invulnerable", PropertyValue::Bool(true)),
            ]),
            obj("Blob", "Enemy", 1, 2, vec![]),
            obj("Sage", "Npc", 3, 4, vec![("dialogue_id", PropertyValue::Int(65538))]),
            obj("Key", "Item", 5, 6, vec![]),
            obj("DoorH", "Door", 7, 8, vec![("locked", PropertyValue::Bool(true))]),
            obj("Lever", "Switch", 9, 10, vec![("event_id", PropertyValue::Int(2))]),
            obj("Tree", "Scenery", 0, 0, vec![]),
        ]),
    ];
    let (d, c) = convert_stage(&mut m, "forest_tiles".to_string(), 3, 2, 2, &layers).unwrap();
    assert_eq!(d.tileset_name, "forest_tiles");
    assert_eq!((d.width, d.height, d.tiles_idx), (2, 2, 3));
    assert_eq!(d.gfx_layer, vec![1, 0, 5, 2]);
    assert_eq!(d.attr_layer, vec![0, 1, 2, 0]);
    assert_eq!(d.player_spawn_position, (12, 34));
    assert_eq!(d.enemies.len(), 2);
    assert_eq!(d.enemies[0].kind, b"Blob".to_vec());
    assert_eq!((d.enemies[0].id, d.enemies[0].x, d.enemies[0].y), (0, 0, 65535));
    assert_eq!(
        d.enemies[0].properties.walk_data,
        vec![
            WalkData { command: WalkCommand::Up, duration: 10 },
            WalkData { command: WalkCommand::Right, duration: 5 }
        ]
    );
    assert_eq!(d.enemies[0].properties.health, Some(3));
    assert_eq!(d.enemies[0].properties.speed, None);
    assert!(d.enemies[0].properties.invulnerable);
    assert_eq!(d.enemies[1].id, 1);
    assert_eq!((d.npcs[0].id, d.npcs[0].dialogue_id), (0, 2));
    assert_eq!((d.items[0].id, d.items[0].x), (0, 5));
    assert_eq!(d.doors, vec![DoorData { id: 0, orientation: Orientation::Horizontal, locked: true, x: 7, y: 8 }]);
    assert_eq!(d.switches, vec![SwitchData { id: 0, event_id: 2, x: 9, y: 10 }]);
    assert_eq!(c.tileset, "forest_tiles");
    assert_eq!(c.enemy_types, vec![b"Blob".to_vec()]);
    assert_eq!(c.npc_types, vec![b"Sage".to_vec()]);
    assert_eq!(c.item_types, vec![b"Key".to_vec()]);
    assert_eq!(m.next_enemy_id(), 2);
    assert_eq!(m.next_door_id(), 1);
}

#[test]
fn a_smaller_gfx_layer_draws_its_corner() {
    let mut m = map();
    let layers = vec![tiles("gfx", None, 1, 3, vec![Some(7), Some(8), Some(9)]), objects(vec![spawn()])];
    let (d, _) = convert_stage(&mut m, String::new(), 0, 2, 2, &layers).unwrap();
    assert_eq!(d.gfx_layer, vec![8, 0, 9, 0]);
}

#[test]
fn a_stage_needs_exactly_one_spawn() {
    assert_eq!(convert(vec![objects(vec![])]), Err(ConvertError::NoSpawn));
    assert_eq!(convert(vec![objects(vec![spawn(), spawn()])]), Err(ConvertError::MultipleSpawns));
    assert_eq!(convert(vec![objects(vec![spawn()])]), Ok(()));
}

#[test]
fn a_miniboss_kind_appears_once() {
    let boss = || obj("BlobMiniboss", "Enemy", 0, 0, vec![]);
    assert_eq!(convert(vec![objects(vec![spawn(), boss(), boss()])]), Err(ConvertError::DuplicateMiniboss));
}

#[test]
fn a_failed_conversion_leaves_the_ids() {
    let mut m = map();
    let layers = vec![objects(vec![obj("Blob", "Enemy", 0, 0, vec![])])];
    assert_eq!(
        convert_stage(&mut m, String::new(), 0, 2, 2, &layers).map(|_| ()),
        Err(ConvertError::NoSpawn)
    );
    assert_eq!(m.next_enemy_id(), 0);
}

#[test]
fn a_cell_takes_one_attribute() {
    let layers = vec![
        tiles("wall", Some(1), 2, 2, vec![None, Some(0), Some(0), None]),
        tiles("spike", Some(2), 2, 2, vec![None, Some(0), Some(0), None]),
        objects(vec![spawn()]),
    ];
    assert_eq!(convert(layers), Err(ConvertError::MultipleAttributes { x: 0, y: 1 }));
}

#[test]
fn malformed_layers_are_refused() {
    assert_eq!(
        convert(vec![tiles("gfx", None, 1, 1, vec![Some(65535)]), objects(vec![spawn()])]),
        Err(ConvertError::GfxTileOutOfRange)
    );
    assert_eq!(
        convert(vec![MapLayer { aligned: true, name: b"gfx".to_vec(), attribute: None, content: LayerContent::Unsupported }]),
        Err(ConvertError::GfxLayerNotTiles)
    );
    assert_eq!(
        convert(vec![tiles("wall", Some(1), 1, 2, vec![None, None]), objects(vec![spawn()])]),
        Err(ConvertError::LayerSizeMismatch)
    );
    assert_eq!(
        convert(vec![tiles("objs", None, 2, 2, vec![None, None, Some(1), None]), objects(vec![spawn()])]),
        Err(ConvertError::ObjectLayerWithTiles)
    );
    assert_eq!(
        convert(vec![MapLayer { aligned: true, name: b"wall".to_vec(), attribute: Some(1), content: LayerContent::Unsupported }]),
        Err(ConvertError::UnsupportedLayer)
    );
    assert_eq!(
        convert(vec![MapLayer { aligned: false, name: b"notes".to_vec(), attribute: None, content: LayerContent::Unsupported }]),
        Err(ConvertError::LayerOffset)
    );
    assert_eq!(
        convert(vec![
            MapLayer { aligned: true, name: b"notes".to_vec(), attribute: None, content: LayerContent::Unsupported },
            objects(vec![spawn()])
        ]),
        Ok(())
    );
}

#[test]
fn malformed_objects_are_refused() {
    let bad_walk = obj("Blob", "Enemy", 0, 0, vec![("walk", PropertyValue::Text(b"U10,X".to_vec()))]);
    assert_eq!(convert(vec![objects(vec![spawn(), bad_walk])]), Err(ConvertError::BadWalkData));
    let walk_type = obj("Blob", "Enemy", 0, 0, vec![("walk", PropertyValue::Int(1))]);
    assert_eq!(convert(vec![objects(vec![spawn(), walk_type])]), Err(ConvertError::PropertyType));
    let speed_type = obj("Blob", "Enemy", 0, 0, vec![("speed", PropertyValue::Bool(true))]);
    assert_eq!(convert(vec![objects(vec![spawn(), speed_type])]), Err(ConvertError::PropertyType));
    let npc = obj("Sage", "Npc", 0, 0, vec![]);
    assert_eq!(convert(vec![objects(vec![spawn(), npc])]), Err(ConvertError::MissingProperty));
    let door = obj("Door", "Door", 0, 0, vec![]);
    assert_eq!(convert(vec![objects(vec![spawn(), door])]), Err(ConvertError::BadDoorOrientation));
    let switch = obj("Lever", "Switch", 0, 0, vec![("event_id", PropertyValue::Other)]);
    assert_eq!(convert(vec![objects(vec![spawn(), switch])]), Err(ConvertError::PropertyType));
}

#[test]
fn a_stage_holds_at_most_sixteen_items() {
    let mut os = vec![spawn()];
    for _ in 0..16 {
        os.push(obj("Key", "Item", 0, 0, vec![]));
    }
    assert_eq!(convert(vec![objects(os)]), Ok(()));
    let mut os = vec![spawn()];
    for _ in 0..17 {
        os.push(obj("Key", "Item", 0, 0, vec![]));
    }
    assert_eq!(convert(vec![objects(os)]), Err(ConvertError::TooManyItems));
}
