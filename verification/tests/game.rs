use rose_launcher::audio::OddioPlugin;
use rose_launcher::debug_menu::{
    manage_cheats, DebugCameraType, DebugInspector, UiStateDebugMenu, UiStateDebugWindows,
    UserCheat,
};
use rose_launcher::systems::{
    ammo_index_for, find_vehicle_driver, menu_open_after, run_toggle_system, vehicle_body_loaded,
    weapon_slot_item, AmmoIndex, WeaponClass, WeaponSlotItem,
};

fn cheat(name: &str, command: &str) -> UserCheat {
    UserCheat { name: name.to_string(), command: command.to_string() }
}

fn names(cheats: &[UserCheat]) -> Vec<(String, String)> {
    cheats.iter().map(|c| (c.name.clone(), c.command.clone())).collect()
}

#[test]
fn manage_cheats_adds_trimmed_and_saves() {
    let mut cheats = vec![cheat("Speed", "/speed 4000")];
    let mut menu = UiStateDebugMenu::default();
    menu.new_cheat_name = " Con ".to_string();
    menu.new_cheat_command = "/set con 5000 ".to_string();
    assert!(manage_cheats(&mut cheats, &mut menu, true, None));
    assert_eq!(
        names(&cheats),
        vec![
            ("Speed".to_string(), "/speed 4000".to_string()),
            ("Con".to_string(), "/set con 5000".to_string())
        ]
    );
    assert_eq!(menu.new_cheat_name, "");
    assert_eq!(menu.new_cheat_command, "");
}

#[test]
fn manage_cheats_removes_and_saves_only_on_change() {
    let mut cheats = vec![cheat("A", "/a"), cheat("B", "/b")];
    let mut menu = UiStateDebugMenu::default();
    assert!(!manage_cheats(&mut cheats, &mut menu, false, None));
    assert_eq!(cheats.len(), 2);
    // Add clicked with nothing typed in adds nothing.
    assert!(!manage_cheats(&mut cheats, &mut menu, true, None));
    assert!(manage_cheats(&mut cheats, &mut menu, false, Some(0)));
    assert_eq!(names(&cheats), vec![("B".to_string(), "/b".to_string())]);
}

#[test]
fn manage_cheats_can_remove_the_cheat_just_added() {
    let mut cheats = vec![cheat("A", "/a")];
    let mut menu = UiStateDebugMenu::default();
    menu.new_cheat_name = "N".to_string();
    menu.new_cheat_command = "/n".to_string();
    assert!(manage_cheats(&mut cheats, &mut menu, true, Some(1)));
    assert_eq!(names(&cheats), vec![("A".to_string(), "/a".to_string())]);
}

#[test]
fn weapon_slot_shows_equipped_ammo_or_weapon() {
    let ammo = vec![AmmoIndex::Arrow, AmmoIndex::Throw];
    assert_eq!(weapon_slot_item(false, Some(WeaponClass::Bow), &ammo), WeaponSlotItem::Nothing);
    assert_eq!(
        weapon_slot_item(true, Some(WeaponClass::Crossbow), &ammo),
        WeaponSlotItem::Ammo(AmmoIndex::Arrow)
    );
    assert_eq!(weapon_slot_item(true, Some(WeaponClass::Gun), &ammo), WeaponSlotItem::Weapon);
    assert_eq!(weapon_slot_item(true, Some(WeaponClass::Other), &ammo), WeaponSlotItem::Weapon);
    assert_eq!(weapon_slot_item(true, None, &ammo), WeaponSlotItem::Weapon);
}

#[test]
fn debug_windows_start_closed_and_hotkey_toggles() {
    let mut w = UiStateDebugWindows::default();
    assert!(!w.debug_ui_open && !w.zone_time_open && !w.physics_open);
    assert!(!w.handle_debug_hotkey(false, true));
    assert!(!w.handle_debug_hotkey(true, false));
    assert!(w.handle_debug_hotkey(true, true));
    assert!(w.debug_ui_open);
    assert!(!w.handle_debug_hotkey(true, true));
    assert!(!w.debug_ui_open);
}

#[test]
fn debug_camera_defaults_to_orbit() {
    assert_eq!(DebugCameraType::default(), DebugCameraType::Orbit);
    let menu = UiStateDebugMenu::default();
    assert_eq!(menu.selected_camera_type, DebugCameraType::Orbit);
    assert!(!menu.cheats_manage_open);
    assert_eq!(menu.new_cheat_name, "");
}

#[test]
fn cheat_is_added_trimmed_once() {
    let mut menu = UiStateDebugMenu::default();
    assert!(!menu.can_add_cheat());
    assert!(menu.take_new_cheat().is_none());
    menu.new_cheat_name = "  Rich ".to_string();
    menu.new_cheat_command = "/set money 1000".to_string();
    assert!(menu.can_add_cheat());
    let cheat = menu.take_new_cheat().unwrap();
    assert_eq!(cheat.name, "Rich");
    assert_eq!(cheat.command, "/set money 1000");
    assert_eq!(menu.new_cheat_name, "");
    assert_eq!(menu.new_cheat_command, "");
    assert!(menu.take_new_cheat().is_none());
}

#[test]
fn cheat_with_blank_command_is_not_added() {
    let mut menu = UiStateDebugMenu::default();
    menu.new_cheat_name = "Name".to_string();
    menu.new_cheat_command = " \t".to_string();
    assert!(!menu.can_add_cheat());
    assert!(menu.take_new_cheat().is_none());
    assert_eq!(menu.new_cheat_name, "Name");
    assert_eq!(menu.new_cheat_command, " \t");
}

#[test]
fn camera_switch_needs_change_and_player_for_orbit() {
    let mut menu = UiStateDebugMenu::default();
    assert_eq!(menu.camera_switch(DebugCameraType::Orbit, true), None);
    menu.selected_camera_type = DebugCameraType::Free;
    assert_eq!(menu.camera_switch(DebugCameraType::Orbit, false), Some(DebugCameraType::Free));
    menu.selected_camera_type = DebugCameraType::Orbit;
    assert_eq!(menu.camera_switch(DebugCameraType::Free, false), None);
    assert_eq!(menu.camera_switch(DebugCameraType::Free, true), Some(DebugCameraType::Orbit));
}

#[test]
fn inspector_follows_check_box() {
    let mut inspector = DebugInspector { enable_picking: false, entity: Some(3) };
    inspector.object_inspector_toggled(true, Some(9));
    assert!(inspector.enable_picking);
    assert_eq!(inspector.entity, Some(9));
    inspector.object_inspector_toggled(false, Some(4));
    assert!(!inspector.enable_picking);
    assert_eq!(inspector.entity, Some(9));
    inspector.object_inspector_toggled(true, None);
    assert_eq!(inspector.entity, Some(9));
}

#[test]
fn run_toggle_needs_tab_free_keyboard_and_connection() {
    assert!(run_toggle_system(false, true, true));
    assert!(!run_toggle_system(true, true, true));
    assert!(!run_toggle_system(false, false, true));
    assert!(!run_toggle_system(false, true, false));
}

#[test]
fn vehicle_body_loaded_needs_every_part() {
    assert!(vehicle_body_loaded(&vec![]));
    assert!(vehicle_body_loaded(&vec![true, true]));
    assert!(!vehicle_body_loaded(&vec![true, false, true]));
}

#[test]
fn vehicle_driver_is_first_owner_of_the_model() {
    assert_eq!(find_vehicle_driver(&vec![5, 7, 7], 7), Some(1));
    assert_eq!(find_vehicle_driver(&vec![5, 7], 8), None);
    assert_eq!(find_vehicle_driver(&vec![], 8), None);
}

#[test]
fn ammo_by_weapon_class() {
    assert_eq!(ammo_index_for(WeaponClass::Bow), Some(AmmoIndex::Arrow));
    assert_eq!(ammo_index_for(WeaponClass::Crossbow), Some(AmmoIndex::Arrow));
    assert_eq!(ammo_index_for(WeaponClass::Gun), Some(AmmoIndex::Bullet));
    assert_eq!(ammo_index_for(WeaponClass::DualGuns), Some(AmmoIndex::Bullet));
    assert_eq!(ammo_index_for(WeaponClass::Launcher), Some(AmmoIndex::Throw));
    assert_eq!(ammo_index_for(WeaponClass::Other), None);
}

#[test]
fn menu_button_toggles_and_outside_click_closes() {
    assert!(menu_open_after(false, true, false));
    assert!(!menu_open_after(true, true, false));
    assert!(!menu_open_after(true, false, true));
    assert!(!menu_open_after(false, true, true));
    assert!(menu_open_after(true, false, false));
}

#[test]
fn frame_count_over_channels() {
    assert_eq!(OddioPlugin::frame_count(12, 2), 6);
    assert_eq!(OddioPlugin::frame_count(13, 6), 2);
    assert_eq!(OddioPlugin::frame_count(5, 0), 5);
    assert_eq!(OddioPlugin::frame_count(0, 1), 0);
}

#[test]
fn spread_frames_fills_every_channel() {
    let frames = [1.5f32, -0.25];
    let mut data = [9.0f32; 7];
    OddioPlugin::spread_frames(&frames, 3, &mut data);
    assert_eq!(data, [1.5, 1.5, 1.5, -0.25, -0.25, -0.25, 9.0]);

    let mut mono = [0i16; 2];
    OddioPlugin::spread_frames(&[4i16, 5], 1, &mut mono);
    assert_eq!(mono, [4, 5]);
}
