use rts_core::building::{Building, BuildingStatus, BuildingType};
use rts_core::general::{Faction, Selection};
use rts_core::geometry::{Point, Rect};
use rts_core::player::Player;
use rts_core::sprite::{DrawCommand, TextureManager, TextureSource, TextureType};
use rts_core::ui::{ButtonFunction, UIManager, XAlignment, YAlignment};
use rts_core::unit::Unit;
use rts_core::world::{Footprint, World};

const FACTION: Faction = Faction::PlaceholderFaction1;

fn atlas() -> TextureManager {
    let mut atlas = TextureManager::new();
    let sources = vec![
        TextureSource { t_type: TextureType::UI { type_index: 0 }, width: 448, height: 64 },
        TextureSource { t_type: TextureType::UI { type_index: 1 }, width: 280, height: 280 },
        TextureSource { t_type: TextureType::World { tile_index: 0 }, width: 192, height: 64 },
        TextureSource { t_type: TextureType::World { tile_index: 1 }, width: 192, height: 64 },
        TextureSource {
            t_type: TextureType::Building { faction: FACTION, b_type: BuildingType::CommandCentre },
            width: 256,
            height: 128,
        },
        TextureSource {
            t_type: TextureType::Building { faction: FACTION, b_type: BuildingType::Barracks },
            width: 256,
            height: 128,
        },
    ];
    atlas.update(&sources);
    atlas
}

fn screen() -> Rect {
    Rect::new(0, 0, 1920, 1080)
}

fn player(atlas: &TextureManager) -> Player {
    let mut manager = UIManager::new(Rect::new(0, 0, 1, 1));
    let player = Player::new(FACTION, screen(), atlas, &mut manager);
    assert_eq!(manager.viewport(), screen());
    player
}

fn add(p: &mut Player, atlas: &TextureManager, t: BuildingType, x: i32, y: i32, s: BuildingStatus) {
    let mut b = Building::new(Point::new(x, y), t, FACTION, 0, p.bottom_right_ui.clone(), atlas);
    b.status = s;
    p.buildings.push(b);
}

fn grid_10(atlas: &TextureManager) -> World {
    World::new(vec![vec![1; 5]; 5], atlas)
}

fn slot(k: i32) -> Point {
    Point::new(1640 + (k % 4) * 60 + 30 + 5, 800 + (k / 4) * 60 + 30 + 5)
}

fn selection_is_valid(p: &Player) -> bool {
    match p.selected {
        Selection::Nothing => true,
        Selection::Building(i) => i < p.buildings.len(),
        Selection::Unit(i) => i < p.units.len(),
    }
}

fn tiers(p: &Player) -> Vec<usize> {
    p.buildings.iter().map(|b| b.button_panel_index).collect()
}

fn statuses(p: &Player) -> Vec<BuildingStatus> {
    p.buildings.iter().map(|b| b.status).collect()
}

#[test]
fn new_player_has_its_panel_in_the_corner() {
    let atlas = atlas();
    let p = player(&atlas);
    assert!(p.buildings.is_empty());
    assert!(p.units.is_empty());
    assert_eq!(p.faction, FACTION);
    assert_eq!(p.selected, Selection::Nothing);
    assert!(!p.placing_building);
    assert!(!p.is_placing());
    assert_eq!(p.bottom_right_ui.len(), 17);
    let container = p.bottom_right_ui[0];
    assert_eq!(container.collider, Rect { x: 1640, y: 800, w: 280, h: 280 });
    assert_eq!(container.sprite.loc_rect, Rect { x: 1640, y: 800, w: 280, h: 280 });
    assert_eq!(container.sprite.texture_rect, Rect { x: 0, y: 64, w: 64, h: 64 });
    assert_eq!(container.props.unwrap().x_align, XAlignment::Right);
    assert_eq!(container.props.unwrap().y_align, YAlignment::Bottom);
    assert_eq!(container.props.unwrap().z_layer, 0);
    for k in 0..16 {
        let e = p.bottom_right_ui[k + 1];
        let x = 1640 + (k as i32 % 4) * 60 + 30;
        let y = 800 + (k as i32 / 4) * 60 + 30;
        assert_eq!(e.collider, Rect { x, y, w: 50, h: 50 });
        assert_eq!(e.sprite.texture_rect, Rect { x: 64, y: 64, w: 64, h: 64 });
        assert_eq!(e.props.unwrap().z_layer, 1);
        assert_eq!(e.props.unwrap().x_align, XAlignment::Centre);
    }
    assert_eq!(p.bottom_right_ui[6].collider, Rect { x: 1730, y: 890, w: 50, h: 50 });
}

#[test]
fn new_player_outside_the_viewport_keeps_the_panel_at_the_origin() {
    let atlas = atlas();
    let mut manager = UIManager::new(screen());
    let p = Player::new(FACTION, Rect::new(0, 0, 100, 100), &atlas, &mut manager);
    assert_eq!(p.bottom_right_ui[0].collider, Rect { x: 0, y: 0, w: 280, h: 280 });
    assert_eq!(p.bottom_right_ui[16].collider, Rect { x: 210, y: 210, w: 50, h: 50 });
}

#[test]
fn construction_menu_layout() {
    let atlas = atlas();
    let p = player(&atlas);
    let mut found = vec![];
    for k in 0..16 {
        if let Some(b) = p.construction_buttons[k] {
            found.push((k, b.btn_function));
            assert_eq!(b.ui.collider, p.bottom_right_ui[k + 1].collider);
            assert_eq!(b.ui.props.unwrap().z_layer, 2);
        }
    }
    assert_eq!(
        found,
        vec![
            (0, ButtonFunction::PlaceCommandCentre),
            (1, ButtonFunction::PlaceBarracks),
            (15, ButtonFunction::Back),
        ]
    );
    assert_eq!(
        p.construction_buttons[1].unwrap().ui.sprite.texture_rect,
        Rect { x: 256, y: 0, w: 64, h: 64 }
    );
}

#[test]
fn placing_a_command_centre_occupies_its_cells() {
    let atlas = atlas();
    let mut p = player(&atlas);
    let mut world = grid_10(&atlas);
    assert_eq!(world.grid.len(), 10);
    assert_eq!(world.grid[0].len(), 10);
    add(&mut p, &atlas, BuildingType::CommandCentre, 0, 0, BuildingStatus::Placing);
    p.selected = Selection::Building(0);
    p.placing_building = true;
    let f = p.buildings[0].footprint();
    assert_eq!(f, Footprint { cell_x: 0, cell_y: 0, cell_w: 6, cell_h: 6 });
    assert!(world.can_place(f));
    assert!(p.place_building(&mut world));
    assert_eq!(p.buildings[0].status, BuildingStatus::Built);
    assert_eq!(p.selected, Selection::Nothing);
    assert!(!p.placing_building);
    for i in 0..10 {
        for j in 0..10 {
            assert_eq!(world.grid[i][j].occupied, i < 6 && j < 6);
        }
    }
    assert!(!world.can_place(f));
}

#[test]
fn placing_on_occupied_cells_is_refused() {
    let atlas = atlas();
    let mut p = player(&atlas);
    let mut world = grid_10(&atlas);
    add(&mut p, &atlas, BuildingType::CommandCentre, 0, 0, BuildingStatus::Placing);
    p.selected = Selection::Building(0);
    assert!(p.place_building(&mut world));
    add(&mut p, &atlas, BuildingType::Barracks, 75, 75, BuildingStatus::Placing);
    p.selected = Selection::Building(1);
    p.placing_building = true;
    p.buildings[1].button_panel_index = 0;
    let before = world.grid.clone();
    assert!(world.grid[3][3].occupied);
    assert!(!world.can_place(p.buildings[1].footprint()));
    assert!(!p.place_building(&mut world));
    assert_eq!(p.buildings[1].status, BuildingStatus::Placing);
    assert_eq!(p.selected, Selection::Building(1));
    assert!(p.placing_building);
    assert_eq!(world.grid, before);
    p.buildings[1].collider.x = 150;
    p.buildings[1].collider.y = 0;
    assert!(p.place_building(&mut world));
    assert_eq!(p.buildings[1].status, BuildingStatus::Built);
    assert!(world.grid[9][3].occupied);
    assert!(!world.grid[9][4].occupied);
}

#[test]
fn place_building_off_the_grid_is_refused() {
    let atlas = atlas();
    let mut p = player(&atlas);
    let mut world = grid_10(&atlas);
    add(&mut p, &atlas, BuildingType::CommandCentre, 125, 0, BuildingStatus::Placing);
    p.selected = Selection::Building(0);
    assert!(!p.place_building(&mut world));
    assert_eq!(p.buildings[0].status, BuildingStatus::Placing);
    p.buildings[0].collider.x = -25;
    assert!(!p.place_building(&mut world));
    p.buildings[0].collider.x = 100;
    assert!(p.place_building(&mut world));
}

#[test]
fn a_barracks_is_produced_after_its_build_time() {
    let atlas = atlas();
    let mut p = player(&atlas);
    add(&mut p, &atlas, BuildingType::CommandCentre, 0, 0, BuildingStatus::Built);
    p.selected = Selection::Building(0);
    assert!(p.check_button(slot(0), 0));
    assert_eq!(p.buildings[0].button_panel_index, 1);
    assert!(p.check_button(slot(1), 1));
    let c = p.buildings[0].constructing.as_mut().unwrap();
    assert_eq!(c.building_type, BuildingType::Barracks);
    assert_eq!(c.timer_end, 1000);
    assert!(!c.check_elapsed(500));
    assert!(!c.finished);
    assert!(p.buildings[0].get_constructed(&atlas).is_none());
    assert_eq!(p.buildings.len(), 1);
    assert!(p.buildings[0].constructing.as_mut().unwrap().check_elapsed(1000));
    p.check_completed_constructions(&atlas);
    assert_eq!(p.buildings.len(), 2);
    assert!(p.buildings[0].constructing.is_none());
    assert_eq!(p.buildings[0].status, BuildingStatus::Built);
    assert_eq!(p.buildings[1].building_type, BuildingType::Barracks);
    assert_eq!(p.buildings[1].status, BuildingStatus::NotBuilt);
    assert_eq!(p.buildings[1].collider, Rect { x: 0, y: 0, w: 100, h: 100 });
    assert_eq!(p.selected, Selection::Building(0));
}

#[test]
fn navigating_and_going_back_touches_one_building() {
    let atlas = atlas();
    let mut p = player(&atlas);
    add(&mut p, &atlas, BuildingType::CommandCentre, 0, 0, BuildingStatus::Built);
    add(&mut p, &atlas, BuildingType::CommandCentre, 200, 0, BuildingStatus::Built);
    add(&mut p, &atlas, BuildingType::Barracks, 400, 0, BuildingStatus::Built);
    p.buildings[1].button_panel_index = 2;
    p.selected = Selection::Building(0);
    assert!(p.check_button(slot(0), 0));
    assert_eq!(tiers(&p), vec![1, 2, 0]);
    assert!(!p.check_button(slot(0), 15));
    assert!(p.check_button(slot(15), 15));
    assert_eq!(tiers(&p), vec![0, 2, 0]);
    assert_eq!(p.selected, Selection::Building(0));
    assert!(p.buildings.iter().all(|b| b.constructing.is_none()));
    assert!(p.buildings.iter().all(|b| !b.place_construction_flag));
}

#[test]
fn the_construction_menu_takes_precedence_over_the_selection() {
    let atlas = atlas();
    let mut p = player(&atlas);
    add(&mut p, &atlas, BuildingType::CommandCentre, 0, 0, BuildingStatus::Built);
    add(&mut p, &atlas, BuildingType::Barracks, 200, 0, BuildingStatus::NotBuilt);
    add(&mut p, &atlas, BuildingType::CommandCentre, 400, 0, BuildingStatus::Built);
    p.buildings[2].place_construction_flag = true;
    p.selected = Selection::Building(0);
    assert!(p.check_place_construction_flag());
    assert!(p.check_button(slot(0), 0));
    assert_eq!(tiers(&p), vec![0, 0, 0]);
    assert_eq!(p.selected, Selection::Building(0));
    assert!(!p.placing_building);
    assert!(p.buildings[0].constructing.is_none());
    assert_eq!(
        statuses(&p),
        vec![BuildingStatus::Built, BuildingStatus::NotBuilt, BuildingStatus::Built]
    );
    assert!(p.check_button(slot(1), 1));
    assert_eq!(p.selected, Selection::Building(1));
    assert!(p.placing_building);
    assert_eq!(
        statuses(&p),
        vec![BuildingStatus::Built, BuildingStatus::Placing, BuildingStatus::Built]
    );
    assert!(p.buildings[0].constructing.is_none());
    assert!(p.buildings[2].place_construction_flag);
}

#[test]
fn the_construction_menu_hides_slots_of_the_building() {
    let atlas = atlas();
    let mut p = player(&atlas);
    add(&mut p, &atlas, BuildingType::CommandCentre, 0, 0, BuildingStatus::Built);
    p.selected = Selection::Building(0);
    assert!(p.check_button(slot(15), 15));
    assert!(p.buildings[0].place_construction_flag);
    assert!(p.check_place_construction_flag());
    assert!(!p.check_button(slot(2), 2));
    assert!(p.check_button(slot(15), 15));
    assert_eq!(p.selected, Selection::Nothing);
    assert!(!p.buildings[0].place_construction_flag);
    assert!(!p.check_place_construction_flag());
}

#[test]
fn check_button_needs_the_point_on_the_button() {
    let atlas = atlas();
    let mut p = player(&atlas);
    add(&mut p, &atlas, BuildingType::CommandCentre, 0, 0, BuildingStatus::Built);
    p.selected = Selection::Building(0);
    assert!(!p.check_button(Point::new(1669, 830), 0));
    assert!(!p.check_button(Point::new(1720, 830), 0));
    assert!(!p.check_button(slot(1), 0));
    assert!(!p.check_button(slot(0), 1));
    assert!(!p.check_button(slot(2), 2));
    assert_eq!(p.buildings[0].button_panel_index, 0);
    assert!(p.check_button(Point::new(1670, 830), 0));
    assert_eq!(p.buildings[0].button_panel_index, 1);
}

#[test]
fn check_button_without_a_selection_does_nothing() {
    let atlas = atlas();
    let mut p = player(&atlas);
    add(&mut p, &atlas, BuildingType::CommandCentre, 0, 0, BuildingStatus::Built);
    for k in 0..16 {
        assert!(!p.check_button(slot(k), k as usize));
    }
    p.units.push(Unit {});
    p.selected = Selection::Unit(0);
    for k in 0..16 {
        assert!(!p.check_button(slot(k), k as usize));
    }
    assert_eq!(p.selected, Selection::Unit(0));
    assert_eq!(p.buildings[0].button_panel_index, 0);
    assert!(p.get_buttons().is_none());
}

#[test]
fn get_buttons_gives_the_shown_tier() {
    let atlas = atlas();
    let mut p = player(&atlas);
    add(&mut p, &atlas, BuildingType::CommandCentre, 0, 0, BuildingStatus::Built);
    assert!(p.get_buttons().is_none());
    p.selected = Selection::Building(0);
    assert_eq!(p.get_buttons().unwrap()[0].unwrap().btn_function, ButtonFunction::ShowTier1Buildings);
    p.buildings[0].button_panel_index = 2;
    assert!(p.get_buttons().unwrap()[0].is_none());
    assert_eq!(p.get_buttons().unwrap()[15].unwrap().btn_function, ButtonFunction::Back);
}

#[test]
fn start_placing_picks_the_first_waiting_building_of_the_type() {
    let atlas = atlas();
    let mut p = player(&atlas);
    add(&mut p, &atlas, BuildingType::CommandCentre, 0, 0, BuildingStatus::Built);
    add(&mut p, &atlas, BuildingType::CommandCentre, 0, 0, BuildingStatus::NotBuilt);
    add(&mut p, &atlas, BuildingType::Barracks, 0, 0, BuildingStatus::Placing);
    add(&mut p, &atlas, BuildingType::Barracks, 0, 0, BuildingStatus::NotBuilt);
    add(&mut p, &atlas, BuildingType::Barracks, 0, 0, BuildingStatus::NotBuilt);
    p.selected = Selection::Building(0);
    p.buildings[0].button_panel_index = 1;
    p.buildings[0].place_construction_flag = true;
    p.start_placing_building(ButtonFunction::PlaceBarracks);
    assert_eq!(p.selected, Selection::Building(3));
    assert!(p.placing_building);
    assert_eq!(
        statuses(&p),
        vec![
            BuildingStatus::Built,
            BuildingStatus::NotBuilt,
            BuildingStatus::Placing,
            BuildingStatus::Placing,
            BuildingStatus::NotBuilt,
        ]
    );
    assert_eq!(p.buildings[0].button_panel_index, 0);
    assert!(!p.buildings[0].place_construction_flag);
    p.start_placing_building(ButtonFunction::PlaceCommandCentre);
    assert_eq!(p.selected, Selection::Building(1));
    assert_eq!(p.buildings[1].status, BuildingStatus::Placing);
    assert_eq!(p.buildings[3].status, BuildingStatus::Placing);
}

#[test]
fn start_placing_without_a_waiting_building_is_a_no_op() {
    let atlas = atlas();
    let mut p = player(&atlas);
    add(&mut p, &atlas, BuildingType::CommandCentre, 0, 0, BuildingStatus::Built);
    add(&mut p, &atlas, BuildingType::Barracks, 0, 0, BuildingStatus::NotBuilt);
    p.selected = Selection::Building(0);
    p.buildings[0].button_panel_index = 2;
    p.buildings[0].place_construction_flag = true;
    p.start_placing_building(ButtonFunction::PlaceCommandCentre);
    assert_eq!(p.selected, Selection::Building(0));
    assert!(!p.placing_building);
    assert_eq!(p.buildings[0].button_panel_index, 2);
    assert!(p.buildings[0].place_construction_flag);
    assert_eq!(statuses(&p), vec![BuildingStatus::Built, BuildingStatus::NotBuilt]);
}

#[test]
fn start_placing_with_another_function_deselects() {
    let atlas = atlas();
    for function in [
        ButtonFunction::Back,
        ButtonFunction::MakeCC,
        ButtonFunction::ShowTier1Buildings,
        ButtonFunction::PlaceConstruction,
    ] {
        let mut p = player(&atlas);
        add(&mut p, &atlas, BuildingType::CommandCentre, 0, 0, BuildingStatus::NotBuilt);
        p.selected = Selection::Building(0);
        p.placing_building = true;
        p.buildings[0].button_panel_index = 1;
        p.buildings[0].place_construction_flag = true;
        p.start_placing_building(function);
        assert_eq!(p.selected, Selection::Nothing);
        assert!(!p.placing_building);
        assert_eq!(p.buildings[0].button_panel_index, 0);
        assert!(!p.buildings[0].place_construction_flag);
        assert_eq!(p.buildings[0].status, BuildingStatus::NotBuilt);
        assert!(p.buildings[0].constructing.is_none());
    }
}

#[test]
fn deselect_resets_the_menu_of_the_selected_building_only() {
    let atlas = atlas();
    let mut p = player(&atlas);
    add(&mut p, &atlas, BuildingType::CommandCentre, 0, 0, BuildingStatus::Built);
    add(&mut p, &atlas, BuildingType::CommandCentre, 200, 0, BuildingStatus::Built);
    for b in p.buildings.iter_mut() {
        b.button_panel_index = 2;
        b.place_construction_flag = true;
    }
    p.selected = Selection::Building(1);
    p.placing_building = true;
    p.deselect();
    assert_eq!(p.selected, Selection::Nothing);
    assert!(!p.placing_building);
    assert_eq!(tiers(&p), vec![2, 0]);
    assert!(p.buildings[0].place_construction_flag);
    assert!(!p.buildings[1].place_construction_flag);
    p.deselect();
    assert_eq!(tiers(&p), vec![2, 0]);
    p.units.push(Unit {});
    p.selected = Selection::Unit(0);
    p.deselect();
    assert_eq!(p.selected, Selection::Nothing);
    assert_eq!(tiers(&p), vec![2, 0]);
}

#[test]
fn flag_check_looks_at_every_building() {
    let atlas = atlas();
    let mut p = player(&atlas);
    assert!(!p.check_place_construction_flag());
    add(&mut p, &atlas, BuildingType::CommandCentre, 0, 0, BuildingStatus::Built);
    add(&mut p, &atlas, BuildingType::Barracks, 200, 0, BuildingStatus::Built);
    assert!(!p.check_place_construction_flag());
    p.buildings[1].place_construction_flag = true;
    assert!(p.check_place_construction_flag());
}

#[test]
fn try_selecting_takes_the_first_building_under_the_click() {
    let atlas = atlas();
    let mut p = player(&atlas);
    add(&mut p, &atlas, BuildingType::CommandCentre, 0, 0, BuildingStatus::Built);
    add(&mut p, &atlas, BuildingType::CommandCentre, 100, 100, BuildingStatus::Built);
    add(&mut p, &atlas, BuildingType::Barracks, 400, 0, BuildingStatus::NotBuilt);
    assert_eq!(
        p.get_selectables(),
        vec![Selection::Building(0), Selection::Building(1), Selection::Building(2)]
    );
    assert!(p.try_selecting(Point::new(120, 120)));
    assert_eq!(p.selected, Selection::Building(0));
    assert!(p.try_selecting(Point::new(200, 200)));
    assert_eq!(p.selected, Selection::Building(1));
    assert!(p.try_selecting(Point::new(499, 99)));
    assert_eq!(p.selected, Selection::Building(2));
    assert!(!p.try_selecting(Point::new(500, 99)));
    assert_eq!(p.selected, Selection::Building(2));
    assert!(!p.try_selecting(Point::new(-1, -1)));
    assert_eq!(p.selected, Selection::Building(2));
    assert!(p.check_selecting_click(Selection::Building(1), Point::new(249, 249)));
    assert!(!p.check_selecting_click(Selection::Building(1), Point::new(250, 249)));
    assert!(!p.check_selecting_click(Selection::Nothing, Point::new(120, 120)));
    assert_eq!(tiers(&p), vec![0, 0, 0]);
}

#[test]
fn selecting_does_not_reset_the_menu_of_the_former_selection() {
    let atlas = atlas();
    let mut p = player(&atlas);
    add(&mut p, &atlas, BuildingType::CommandCentre, 0, 0, BuildingStatus::Built);
    add(&mut p, &atlas, BuildingType::CommandCentre, 200, 0, BuildingStatus::Built);
    p.selected = Selection::Building(0);
    p.buildings[0].button_panel_index = 1;
    assert!(p.try_selecting(Point::new(210, 10)));
    assert_eq!(p.selected, Selection::Building(1));
    assert_eq!(tiers(&p), vec![1, 0]);
}

#[test]
fn dehighlight_clears_under_the_selected_building() {
    let atlas = atlas();
    let mut p = player(&atlas);
    let mut world = grid_10(&atlas);
    add(&mut p, &atlas, BuildingType::Barracks, 25, 50, BuildingStatus::Placing);
    world.highlight(Footprint { cell_x: 0, cell_y: 0, cell_w: 10, cell_h: 10 });
    p.dehighlight(&mut world);
    assert!(world.grid.iter().flatten().all(|c| c.highlighted));
    p.selected = Selection::Building(0);
    p.dehighlight(&mut world);
    for i in 0..10 {
        for j in 0..10 {
            let under = (1..5).contains(&i) && (2..6).contains(&j);
            assert_eq!(world.grid[i][j].highlighted, !under);
        }
    }
    assert_eq!(p.selected, Selection::Building(0));
}

#[test]
fn tick_appends_what_is_finished() {
    let atlas = atlas();
    let mut p = player(&atlas);
    add(&mut p, &atlas, BuildingType::CommandCentre, 0, 0, BuildingStatus::Built);
    add(&mut p, &atlas, BuildingType::CommandCentre, 200, 0, BuildingStatus::Built);
    add(&mut p, &atlas, BuildingType::CommandCentre, 400, 0, BuildingStatus::Built);
    add(&mut p, &atlas, BuildingType::Barracks, 600, 0, BuildingStatus::Built);
    let ui = p.bottom_right_ui.clone();
    p.buildings[0].start_construction(BuildingType::Barracks, ui.clone());
    p.buildings[1].start_construction(BuildingType::CommandCentre, ui.clone());
    p.buildings[2].start_construction(BuildingType::CommandCentre, ui.clone());
    p.buildings[0].constructing.as_mut().unwrap().timer_end = 0;
    p.buildings[1].constructing.as_mut().unwrap().timer_end = u64::MAX;
    p.buildings[2].constructing.as_mut().unwrap().timer_end = 0;
    p.selected = Selection::Building(3);
    p.check_completed_constructions(&atlas);
    assert_eq!(p.buildings.len(), 6);
    assert!(p.buildings[0].constructing.is_none());
    assert!(p.buildings[1].constructing.is_some());
    assert!(!p.buildings[1].constructing.as_ref().unwrap().finished);
    assert!(p.buildings[2].constructing.is_none());
    assert_eq!(p.buildings[4].building_type, BuildingType::Barracks);
    assert_eq!(p.buildings[5].building_type, BuildingType::CommandCentre);
    for b in &p.buildings[4..] {
        assert_eq!(b.status, BuildingStatus::NotBuilt);
        assert_eq!(b.collider.x, 0);
        assert_eq!(b.collider.y, 0);
        assert!(b.constructing.is_none());
    }
    assert_eq!(p.selected, Selection::Building(3));
    assert_eq!(p.buildings[3].collider.x, 600);
    p.check_completed_constructions(&atlas);
    assert_eq!(p.buildings.len(), 6);
}

#[test]
fn tick_hands_out_a_construction_that_was_finished_before() {
    let atlas = atlas();
    let mut p = player(&atlas);
    add(&mut p, &atlas, BuildingType::CommandCentre, 0, 0, BuildingStatus::Built);
    let ui = p.bottom_right_ui.clone();
    p.buildings[0].start_construction(BuildingType::Barracks, ui);
    let c = p.buildings[0].constructing.as_mut().unwrap();
    c.timer_end = u64::MAX;
    c.finished = true;
    p.check_completed_constructions(&atlas);
    assert_eq!(p.buildings.len(), 2);
    assert!(p.buildings[0].constructing.is_none());
}

#[test]
fn tick_without_buildings() {
    let atlas = atlas();
    let mut p = player(&atlas);
    p.check_completed_constructions(&atlas);
    assert!(p.buildings.is_empty());
}

#[test]
fn click_on_a_button_of_the_panel() {
    let atlas = atlas();
    let mut p = player(&atlas);
    let mut world = grid_10(&atlas);
    add(&mut p, &atlas, BuildingType::CommandCentre, 0, 0, BuildingStatus::Built);
    p.selected = Selection::Building(0);
    assert!(p.handle_click(slot(1), &mut world));
    assert_eq!(p.buildings[0].button_panel_index, 2);
    assert_eq!(p.selected, Selection::Building(0));
    assert!(p.handle_click(slot(15), &mut world));
    assert_eq!(p.buildings[0].button_panel_index, 0);
}

#[test]
fn click_on_the_panel_beside_the_buttons() {
    let atlas = atlas();
    let mut p = player(&atlas);
    let mut world = grid_10(&atlas);
    add(&mut p, &atlas, BuildingType::CommandCentre, 0, 0, BuildingStatus::Built);
    p.selected = Selection::Building(0);
    p.buildings[0].button_panel_index = 1;
    assert!(!p.handle_click(Point::new(1645, 805), &mut world));
    assert_eq!(p.selected, Selection::Building(0));
    assert_eq!(p.buildings[0].button_panel_index, 1);
    assert!(!p.handle_click(slot(7), &mut world));
    assert_eq!(p.selected, Selection::Building(0));
}

#[test]
fn click_on_the_panel_over_a_building_selects_it() {
    let atlas = atlas();
    let mut p = player(&atlas);
    let mut world = grid_10(&atlas);
    add(&mut p, &atlas, BuildingType::CommandCentre, 0, 0, BuildingStatus::Built);
    add(&mut p, &atlas, BuildingType::Barracks, 1600, 790, BuildingStatus::Built);
    p.selected = Selection::Building(0);
    assert!(p.handle_click(Point::new(1645, 805), &mut world));
    assert_eq!(p.selected, Selection::Building(1));
}

#[test]
fn click_on_a_building_selects_it() {
    let atlas = atlas();
    let mut p = player(&atlas);
    let mut world = grid_10(&atlas);
    add(&mut p, &atlas, BuildingType::CommandCentre, 0, 0, BuildingStatus::Built);
    add(&mut p, &atlas, BuildingType::Barracks, 200, 0, BuildingStatus::Built);
    assert!(p.handle_click(Point::new(250, 50), &mut world));
    assert_eq!(p.selected, Selection::Building(1));
    assert!(p.handle_click(Point::new(50, 50), &mut world));
    assert_eq!(p.selected, Selection::Building(0));
}

#[test]
fn click_on_nothing_gives_the_selection_up() {
    let atlas = atlas();
    let mut p = player(&atlas);
    let mut world = grid_10(&atlas);
    add(&mut p, &atlas, BuildingType::CommandCentre, 0, 0, BuildingStatus::Built);
    p.selected = Selection::Building(0);
    p.buildings[0].button_panel_index = 2;
    assert!(!p.handle_click(Point::new(900, 500), &mut world));
    assert_eq!(p.selected, Selection::Nothing);
    assert_eq!(p.buildings[0].button_panel_index, 0);
    assert!(!p.handle_click(Point::new(900, 500), &mut world));
    assert_eq!(p.selected, Selection::Nothing);
}

#[test]
fn click_while_placing_puts_the_building_down() {
    let atlas = atlas();
    let mut p = player(&atlas);
    let mut world = grid_10(&atlas);
    add(&mut p, &atlas, BuildingType::CommandCentre, 0, 0, BuildingStatus::Built);
    add(&mut p, &atlas, BuildingType::Barracks, 150, 150, BuildingStatus::NotBuilt);
    p.start_placing_building(ButtonFunction::PlaceBarracks);
    assert!(p.is_placing());
    assert!(p.handle_click(Point::new(10, 10), &mut world));
    assert_eq!(p.buildings[1].status, BuildingStatus::Built);
    assert_eq!(p.selected, Selection::Nothing);
    assert!(!p.is_placing());
    assert!(world.grid[6][6].occupied && world.grid[9][9].occupied);
    assert!(!world.grid[5][6].occupied);
}

#[test]
fn click_while_placing_on_taken_ground_keeps_the_ghost() {
    let atlas = atlas();
    let mut p = player(&atlas);
    let mut world = grid_10(&atlas);
    world.occupy(Footprint { cell_x: 9, cell_y: 9, cell_w: 1, cell_h: 1 });
    add(&mut p, &atlas, BuildingType::Barracks, 150, 150, BuildingStatus::NotBuilt);
    p.start_placing_building(ButtonFunction::PlaceBarracks);
    assert!(p.handle_click(Point::new(10, 10), &mut world));
    assert_eq!(p.buildings[0].status, BuildingStatus::Placing);
    assert_eq!(p.selected, Selection::Building(0));
    assert!(p.is_placing());
    assert!(!world.grid[6][6].occupied);
}

#[test]
fn motion_moves_the_ghost_and_its_highlight() {
    let atlas = atlas();
    let mut p = player(&atlas);
    let mut world = World::new(vec![vec![1; 20]; 20], &atlas);
    add(&mut p, &atlas, BuildingType::Barracks, 0, 0, BuildingStatus::NotBuilt);
    p.start_placing_building(ButtonFunction::PlaceBarracks);
    let cam = Rect::new(40, 40, 1920, 1080);
    p.handle_motion(Point::new(300, 200), cam, &mut world);
    assert_eq!(p.buildings[0].collider, Rect { x: 250, y: 150, w: 100, h: 100 });
    assert_eq!(p.buildings[0].sprite.loc_rect, Rect { x: 250, y: 150, w: 100, h: 100 });
    for i in 0..40 {
        for j in 0..40 {
            let under = (10..14).contains(&i) && (6..10).contains(&j);
            assert_eq!(world.grid[i][j].highlighted, under);
        }
    }
    p.handle_motion(Point::new(325, 200), cam, &mut world);
    assert_eq!(p.buildings[0].collider.x, 275);
    for i in 0..40 {
        for j in 0..40 {
            let under = (11..15).contains(&i) && (6..10).contains(&j);
            assert_eq!(world.grid[i][j].highlighted, under);
        }
    }
    assert_eq!(p.selected, Selection::Building(0));
    assert!(p.is_placing());
    assert!(p.handle_click(Point::new(10, 10), &mut world));
    assert!(world.grid[11][6].occupied && world.grid[11][6].highlighted);
    assert_eq!(world.grid[11][6].sprite.texture_rect.x, 64);
}

#[test]
fn motion_without_a_ghost_changes_nothing() {
    let atlas = atlas();
    let mut p = player(&atlas);
    let mut world = grid_10(&atlas);
    add(&mut p, &atlas, BuildingType::Barracks, 50, 50, BuildingStatus::Built);
    p.selected = Selection::Building(0);
    let before = world.grid.clone();
    p.handle_motion(Point::new(300, 200), Rect::new(40, 40, 1920, 1080), &mut world);
    assert_eq!(p.buildings[0].collider, Rect { x: 50, y: 50, w: 100, h: 100 });
    assert_eq!(world.grid, before);
}

#[test]
fn render_owned_skips_what_is_not_placed() {
    let atlas = atlas();
    let mut p = player(&atlas);
    assert!(p.render_owned().is_empty());
    add(&mut p, &atlas, BuildingType::CommandCentre, 0, 0, BuildingStatus::Built);
    add(&mut p, &atlas, BuildingType::Barracks, 200, 0, BuildingStatus::NotBuilt);
    add(&mut p, &atlas, BuildingType::Barracks, 400, 0, BuildingStatus::Placing);
    p.units.push(Unit {});
    assert_eq!(
        p.render_owned(),
        vec![
            DrawCommand {
                source: Rect { x: 0, y: 472, w: 128, h: 128 },
                target: Rect { x: 0, y: 0, w: 150, h: 150 },
            },
            DrawCommand {
                source: Rect { x: 128, y: 600, w: 128, h: 128 },
                target: Rect { x: 400, y: 0, w: 100, h: 100 },
            },
        ]
    );
}

#[test]
fn render_ui_shows_the_active_panel() {
    let atlas = atlas();
    let mut p = player(&atlas);
    add(&mut p, &atlas, BuildingType::CommandCentre, 0, 0, BuildingStatus::Built);
    add(&mut p, &atlas, BuildingType::Barracks, 200, 0, BuildingStatus::Built);
    let bare = p.render_ui();
    assert_eq!(bare.len(), 17);
    assert_eq!(bare[0].target, Rect { x: 1640, y: 800, w: 280, h: 280 });
    assert_eq!(bare[0].source, Rect { x: 0, y: 64, w: 64, h: 64 });
    assert_eq!(bare[16].target, Rect { x: 1850, y: 1010, w: 50, h: 50 });
    p.selected = Selection::Building(0);
    let tier0 = p.render_ui();
    assert_eq!(tier0.len(), 20);
    assert_eq!(&tier0[..17], &bare[..]);
    assert_eq!(tier0[17].source, Rect { x: 0, y: 0, w: 64, h: 64 });
    assert_eq!(tier0[17].target, Rect { x: 1670, y: 830, w: 50, h: 50 });
    assert_eq!(tier0[18].source, Rect { x: 64, y: 0, w: 64, h: 64 });
    assert_eq!(tier0[19].source, Rect { x: 384, y: 0, w: 64, h: 64 });
    assert_eq!(tier0[19].target, Rect { x: 1850, y: 1010, w: 50, h: 50 });
    p.buildings[0].button_panel_index = 2;
    let tier2 = p.render_ui();
    assert_eq!(tier2.len(), 18);
    assert_eq!(tier2[17].source, Rect { x: 128, y: 0, w: 64, h: 64 });
    p.selected = Selection::Building(1);
    assert_eq!(p.render_ui().len(), 17);
    p.buildings[0].place_construction_flag = true;
    let menu = p.render_ui();
    assert_eq!(menu.len(), 20);
    assert_eq!(menu[17].source, Rect { x: 192, y: 0, w: 64, h: 64 });
    assert_eq!(menu[18].source, Rect { x: 256, y: 0, w: 64, h: 64 });
    assert_eq!(menu[19].source, Rect { x: 128, y: 0, w: 64, h: 64 });
    p.selected = Selection::Nothing;
    assert_eq!(p.render_ui(), menu);
}

#[test]
fn the_selection_stays_valid() {
    let atlas = atlas();
    let mut p = player(&atlas);
    let mut world = World::new(vec![vec![1; 20]; 20], &atlas);
    add(&mut p, &atlas, BuildingType::CommandCentre, 0, 0, BuildingStatus::Built);
    add(&mut p, &atlas, BuildingType::Barracks, 300, 300, BuildingStatus::NotBuilt);
    let clicks = [
        Point::new(10, 10),
        slot(0),
        slot(1),
        slot(15),
        slot(15),
        slot(1),
        Point::new(500, 500),
        Point::new(310, 310),
        Point::new(900, 900),
        slot(3),
        Point::new(10, 10),
        slot(15),
        slot(0),
    ];
    for click in clicks {
        p.handle_click(click, &mut world);
        assert!(selection_is_valid(&p));
        assert!(!p.placing_building || p.selected.is_building());
        p.check_completed_constructions(&atlas);
        assert!(selection_is_valid(&p));
        if p.placing_building {
            p.handle_motion(click, Rect::new(40, 40, 1920, 1080), &mut world);
            assert!(selection_is_valid(&p));
        }
    }
}

fn cells_of(b: &Building) -> Vec<(i32, i32)> {
    let f = b.footprint();
    let mut cells = vec![];
    for i in f.cell_x..f.cell_x + f.cell_w {
        for j in f.cell_y..f.cell_y + f.cell_h {
            cells.push((i, j));
        }
    }
    cells
}

#[test]
fn built_buildings_never_share_a_cell() {
    let atlas = atlas();
    let mut p = player(&atlas);
    let mut world = World::new(vec![vec![1; 8]; 8], &atlas);
    let spots = [
        (0, 0),
        (100, 100),
        (150, 0),
        (25, 150),
        (150, 150),
        (300, 300),
        (275, 0),
        (0, 275),
        (390, 10),
        (250, 250),
        (-25, 0),
        (0, 150),
    ];
    let mut placed = 0;
    for (k, (x, y)) in spots.iter().enumerate() {
        let t = if k % 2 == 0 { BuildingType::CommandCentre } else { BuildingType::Barracks };
        add(&mut p, &atlas, t, *x, *y, BuildingStatus::Placing);
        p.selected = Selection::Building(k);
        if p.place_building(&mut world) {
            placed += 1;
        }
        let mut claimed = vec![];
        for b in p.buildings.iter().filter(|b| b.status == BuildingStatus::Built) {
            for (i, j) in cells_of(b) {
                assert!(world.grid[i as usize][j as usize].occupied);
                assert!(!claimed.contains(&(i, j)));
                claimed.push((i, j));
            }
        }
        let occupied = world.grid.iter().flatten().filter(|c| c.occupied).count();
        assert_eq!(occupied, claimed.len());
    }
    assert_eq!(placed, 6);
    assert_eq!(
        statuses(&p),
        vec![
            BuildingStatus::Built,
            BuildingStatus::Placing,
            BuildingStatus::Built,
            BuildingStatus::Built,
            BuildingStatus::Built,
            BuildingStatus::Built,
            BuildingStatus::Placing,
            BuildingStatus::Built,
            BuildingStatus::Placing,
            BuildingStatus::Placing,
            BuildingStatus::Placing,
            BuildingStatus::Placing,
        ]
    );
}
