use rts_core::building::BuildingType;
use rts_core::general::Faction;
use rts_core::geometry::{Point, Rect};
use rts_core::sprite::{DrawCommand, Sprite, TextureManager, TextureSource, TextureType};
use rts_core::texture_path::{
    get_building_type_from_string, get_faction_from_string, get_texture_type_from_path,
    match_building_type, same_text, texture_type_of,
};

fn source(t_type: TextureType, width: u32, height: u32) -> TextureSource {
    TextureSource { t_type, width, height }
}

fn cc() -> TextureType {
    TextureType::Building {
        faction: Faction::PlaceholderFaction1,
        b_type: BuildingType::CommandCentre,
    }
}

fn barracks() -> TextureType {
    TextureType::Building { faction: Faction::PlaceholderFaction1, b_type: BuildingType::Barracks }
}

fn atlas() -> TextureManager {
    let mut atlas = TextureManager::new();
    let sources = vec![
        source(TextureType::UI { type_index: 0 }, 448, 64),
        source(cc(), 256, 128),
        source(TextureType::World { tile_index: 0 }, 192, 64),
        source(TextureType::World { tile_index: 1 }, 192, 70),
        source(TextureType::Filler, 32, 32),
    ];
    assert_eq!(atlas.update(&sources), (448, 358));
    atlas
}

#[test]
fn new_atlas_is_empty() {
    let atlas = TextureManager::new();
    assert!(!atlas.contains(TextureType::Filler));
    assert!(!atlas.contains(cc()));
}

#[test]
fn update_stacks_the_sources() {
    let atlas = atlas();
    assert_eq!(atlas.get_rect_raw(TextureType::UI { type_index: 0 }), Rect { x: 0, y: 0, w: 448, h: 64 });
    assert_eq!(atlas.get_rect_raw(cc()), Rect { x: 0, y: 64, w: 256, h: 128 });
    assert_eq!(
        atlas.get_rect_raw(TextureType::World { tile_index: 0 }),
        Rect { x: 0, y: 192, w: 192, h: 64 }
    );
    assert_eq!(
        atlas.get_rect_raw(TextureType::World { tile_index: 1 }),
        Rect { x: 0, y: 256, w: 192, h: 70 }
    );
    assert_eq!(atlas.get_rect_raw(TextureType::Filler), Rect { x: 0, y: 326, w: 32, h: 32 });
    assert!(atlas.contains(cc()));
    assert!(!atlas.contains(barracks()));
    assert!(!atlas.contains(TextureType::World { tile_index: 2 }));
    assert!(!atlas.contains(TextureType::UI { type_index: 1 }));
}

#[test]
fn update_of_nothing_gives_an_empty_strip() {
    let mut atlas = atlas();
    assert_eq!(atlas.update(&vec![]), (0, 0));
    assert!(!atlas.contains(cc()));
    assert!(!atlas.contains(TextureType::Filler));
}

#[test]
fn update_replaces_the_table() {
    let mut atlas = atlas();
    let size = atlas.update(&vec![source(barracks(), 100, 90)]);
    assert_eq!(size, (100, 90));
    assert!(atlas.contains(barracks()));
    assert!(!atlas.contains(cc()));
    assert_eq!(atlas.get_rect_raw(barracks()), Rect { x: 0, y: 0, w: 100, h: 90 });
}

#[test]
fn update_keeps_the_last_place_of_a_repeated_key() {
    let mut atlas = TextureManager::new();
    let sources = vec![
        source(TextureType::Filler, 10, 20),
        source(cc(), 30, 40),
        source(TextureType::Filler, 50, 60),
    ];
    assert_eq!(atlas.update(&sources), (50, 120));
    assert_eq!(atlas.get_rect_raw(TextureType::Filler), Rect { x: 0, y: 60, w: 50, h: 60 });
    assert_eq!(atlas.get_rect_raw(cc()), Rect { x: 0, y: 20, w: 30, h: 40 });
}

#[test]
fn update_with_an_empty_image() {
    let mut atlas = TextureManager::new();
    let sources = vec![source(TextureType::Filler, 0, 0), source(cc(), 5, 5)];
    assert_eq!(atlas.update(&sources), (5, 5));
    assert_eq!(atlas.get_rect_raw(TextureType::Filler), Rect { x: 0, y: 0, w: 1, h: 1 });
    assert_eq!(atlas.get_rect_raw(cc()), Rect { x: 0, y: 0, w: 5, h: 5 });
}

#[test]
fn update_wraps_an_offset_beyond_the_signed_range() {
    let mut atlas = TextureManager::new();
    let sources = vec![
        source(TextureType::Filler, 1, 2147483648),
        source(cc(), 1, 1),
        source(barracks(), 1, 1),
    ];
    assert_eq!(atlas.update(&sources), (1, 2147483650));
    assert_eq!(atlas.get_rect_raw(TextureType::Filler).h, 1073741823);
    assert_eq!(atlas.get_rect_raw(cc()).y, -1073741824);
    assert_eq!(atlas.get_rect_raw(barracks()).y, -1073741824);
}

#[test]
fn get_rect_has_the_size_of_the_kind() {
    let atlas = atlas();
    assert_eq!(atlas.get_rect(TextureType::UI { type_index: 0 }), Rect { x: 0, y: 0, w: 64, h: 64 });
    assert_eq!(atlas.get_rect(cc()), Rect { x: 0, y: 64, w: 128, h: 128 });
    assert_eq!(
        atlas.get_rect(TextureType::World { tile_index: 0 }),
        Rect { x: 0, y: 192, w: 64, h: 64 }
    );
    assert_eq!(atlas.get_rect(TextureType::Filler), Rect { x: 0, y: 0, w: 32, h: 32 });
}

#[test]
fn get_rect_of_a_world_tile_is_the_same_for_every_variant() {
    let atlas = atlas();
    let tile = TextureType::World { tile_index: 1 };
    for _ in 0..50 {
        assert_eq!(atlas.get_rect(tile), Rect { x: 0, y: 256, w: 64, h: 64 });
    }
    for die in 0..3 {
        assert_eq!(atlas.get_rect_with(tile, die), Rect { x: 0, y: 256, w: 64, h: 64 });
    }
}

#[test]
fn sprite_new_and_moves() {
    let atlas = atlas();
    let mut sprite = Sprite::new(Rect::new(10, 20, 150, 150), cc(), &atlas);
    assert_eq!(sprite.t_type, cc());
    assert_eq!(sprite.loc_rect, Rect { x: 10, y: 20, w: 150, h: 150 });
    assert_eq!(sprite.texture_rect, Rect { x: 0, y: 64, w: 128, h: 128 });
    assert_eq!(sprite._get_location(), Point { x: 10, y: 20 });
    assert_eq!(sprite.get_loc_rect(), Rect { x: 10, y: 20, w: 150, h: 150 });
    sprite.set_location(Point { x: -5, y: 7 });
    assert_eq!(sprite.loc_rect, Rect { x: -5, y: 7, w: 150, h: 150 });
    assert_eq!(sprite.texture_rect, Rect { x: 0, y: 64, w: 128, h: 128 });
    sprite.set_loc_rect(Rect::new(1, 2, 3, 4));
    assert_eq!(sprite.loc_rect, Rect { x: 1, y: 2, w: 3, h: 4 });
}

#[test]
fn sprite_render_commands() {
    let atlas = atlas();
    let sprite = Sprite::new(Rect::new(10, 20, 150, 150), cc(), &atlas);
    let plain = DrawCommand {
        source: Rect { x: 0, y: 64, w: 128, h: 128 },
        target: Rect { x: 10, y: 20, w: 150, h: 150 },
    };
    assert_eq!(sprite.render(), plain);
    assert_eq!(sprite.render_with_custom(None, None), plain);
    let custom = sprite.render_with_custom(Some(Rect::new(1, 1, 1, 1)), Some(Rect::new(2, 2, 2, 2)));
    assert_eq!(custom.target, Rect { x: 1, y: 1, w: 1, h: 1 });
    assert_eq!(custom.source, Rect { x: 2, y: 2, w: 2, h: 2 });
    let half = sprite.render_with_custom(None, Some(Rect::new(2, 2, 2, 2)));
    assert_eq!(half.target, plain.target);
    assert_eq!(half.source, Rect { x: 2, y: 2, w: 2, h: 2 });
}

#[test]
fn same_text_compares_characters() {
    assert!(same_text("grid", "grid"));
    assert!(!same_text("grid", "Grid"));
    assert!(!same_text("grid", "grids"));
    assert!(same_text("", ""));
}

#[test]
fn faction_from_string() {
    assert_eq!(
        get_faction_from_string("placeholderfaction1_barracks"),
        Some(Faction::PlaceholderFaction1)
    );
    assert_eq!(get_faction_from_string("xxplaceholderfaction1"), Some(Faction::PlaceholderFaction1));
    assert_eq!(get_faction_from_string("PlaceholderFaction1_barracks"), None);
    assert_eq!(get_faction_from_string("placeholderfaction_1"), None);
    assert_eq!(get_faction_from_string(""), None);
}

#[test]
fn building_type_from_string_takes_the_second_part() {
    assert_eq!(
        get_building_type_from_string("placeholderfaction1_barracks"),
        Some(BuildingType::Barracks)
    );
    assert_eq!(
        get_building_type_from_string("placeholderfaction1_commandcentre"),
        Some(BuildingType::CommandCentre)
    );
    assert_eq!(get_building_type_from_string("x_barracks_large"), Some(BuildingType::Barracks));
    assert_eq!(get_building_type_from_string("x.barracks.png"), Some(BuildingType::Barracks));
    assert_eq!(get_building_type_from_string("_barracks"), Some(BuildingType::Barracks));
}

#[test]
fn building_type_from_string_ignores_case() {
    assert_eq!(get_building_type_from_string("a_BARRACKS"), Some(BuildingType::Barracks));
    assert_eq!(get_building_type_from_string("a_CommandCentre"), Some(BuildingType::CommandCentre));
    assert_eq!(get_building_type_from_string("a_bArRaCkS_b"), Some(BuildingType::Barracks));
}

#[test]
fn building_type_from_string_without_a_known_type() {
    assert_eq!(get_building_type_from_string("barracks"), None);
    assert_eq!(get_building_type_from_string("barracks_x"), None);
    assert_eq!(get_building_type_from_string("a__barracks"), None);
    assert_eq!(get_building_type_from_string("a_barrack"), None);
    assert_eq!(get_building_type_from_string("a_"), None);
    assert_eq!(get_building_type_from_string(""), None);
}

#[test]
fn match_building_type_prefers_the_first_type() {
    assert_eq!(
        match_building_type("barracks", "commandcentre", "barracks"),
        Some(BuildingType::Barracks)
    );
    assert_eq!(
        match_building_type("commandcentre", "commandcentre", "barracks"),
        Some(BuildingType::CommandCentre)
    );
    assert_eq!(match_building_type("Barracks", "commandcentre", "barracks"), None);
    assert_eq!(match_building_type("same", "same", "same"), Some(BuildingType::CommandCentre));
    assert_eq!(match_building_type("", "", "x"), Some(BuildingType::CommandCentre));
}

#[test]
fn texture_type_from_path_of_each_kind() {
    assert_eq!(
        get_texture_type_from_path("/home/game/assets/sprites/buildings/placeholderfaction1_barracks.png"),
        Some(barracks())
    );
    assert_eq!(
        get_texture_type_from_path("assets/sprites/buildings/placeholderfaction1_CommandCentre.png"),
        Some(cc())
    );
    assert_eq!(
        get_texture_type_from_path("assets/sprites/ground/grid.png"),
        Some(TextureType::World { tile_index: 0 })
    );
    assert_eq!(
        get_texture_type_from_path("ground/grass.png"),
        Some(TextureType::World { tile_index: 1 })
    );
    assert_eq!(
        get_texture_type_from_path("/ground/dirt.old.png"),
        Some(TextureType::World { tile_index: 2 })
    );
    assert_eq!(
        get_texture_type_from_path("a/UI/buttons.png"),
        Some(TextureType::UI { type_index: 0 })
    );
    assert_eq!(
        get_texture_type_from_path("a/UI/bottom_left_ui.png"),
        Some(TextureType::UI { type_index: 1 })
    );
    assert_eq!(get_texture_type_from_path("a/filler/anything.png"), Some(TextureType::Filler));
    assert_eq!(get_texture_type_from_path("filler/"), Some(TextureType::Filler));
}

#[test]
fn texture_type_from_path_of_unknown_files() {
    assert_eq!(get_texture_type_from_path("grid.png"), None);
    assert_eq!(get_texture_type_from_path(""), None);
    assert_eq!(get_texture_type_from_path("/grid.png"), None);
    assert_eq!(get_texture_type_from_path("a/ground/sand.png"), None);
    assert_eq!(get_texture_type_from_path("a/ui/buttons.png"), None);
    assert_eq!(get_texture_type_from_path("a/UI/bottom_right_ui.png"), None);
    assert_eq!(get_texture_type_from_path("a/units/worker.png"), None);
    assert_eq!(get_texture_type_from_path("a/ground/grid/x.png"), None);
    assert_eq!(get_texture_type_from_path("a/buildings/placeholderfaction1.png"), None);
    assert_eq!(get_texture_type_from_path("a/buildings/otherfaction_barracks.png"), None);
    assert_eq!(get_texture_type_from_path("a/buildings/placeholderfaction1_tower.png"), None);
}

#[test]
fn texture_type_of_folder_and_name() {
    assert_eq!(texture_type_of("ground", "grid"), Some(TextureType::World { tile_index: 0 }));
    assert_eq!(texture_type_of("Ground", "grid"), None);
    assert_eq!(texture_type_of("filler", ""), Some(TextureType::Filler));
    assert_eq!(texture_type_of("buildings", "placeholderfaction1_barracks"), Some(barracks()));
    assert_eq!(texture_type_of("", ""), None);
}
