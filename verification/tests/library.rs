use opgame::combat::{attacks_player, attempt_strike, provoke};
use opgame::display::{preferred_video_mode, DisplayAction, Renderer, VideoMode};
use opgame::font::{compose_text_pixels, GlyphBitmap};
use opgame::gl_config::{msaa_config_score, select_gl_config};
use opgame::menu::{
    display_values, filter_name, fullscreen_name, msaa_name, on_off, resolution_label, selection_marker, Menu,
    CONTROLS_COUNT, DISPLAY_COUNT, PAUSE_COUNT, SETTINGS_COUNT,
};
use opgame::mission::{Mission, MissionManager, MissionStatus};
use opgame::model::{drawable_indices, sequential_indices};
use opgame::npc::{decide_npc_step, NPCState, NpcMovement, NpcSenses};
use opgame::player::{Player, Weapon};
use opgame::settings::default_true;
use opgame::sound::SoundManager;
use opgame::text::to_decimal;
use opgame::ui::UIManager;
use opgame::vehicle::{VehicleOccupants, VehicleType};
use opgame::world::{is_supported_version, Weather};

fn mode(width: u32, height: u32, refresh: u32) -> VideoMode {
    VideoMode { width, height, refresh_rate_millihertz: refresh }
}

fn is_random_uuid(id: u128) -> bool {
    (id >> 76) & 0xf == 4 && (id >> 62) & 0x3 == 2
}

#[test]
fn ui_starts_with_map_and_without_menu() {
    let ui = UIManager::new();
    assert!(ui.should_show_map());
    assert!(!ui.should_show_menu());
}

#[test]
fn ui_toggles_twice_restore() {
    let mut ui = UIManager::new();
    ui.toggle_map();
    assert!(!ui.should_show_map());
    assert!(!ui.should_show_menu());
    ui.toggle_menu();
    assert!(ui.should_show_menu());
    ui.toggle_map();
    ui.toggle_menu();
    assert!(ui.should_show_map());
    assert!(!ui.should_show_menu());
}

#[test]
fn resolutions_are_filtered_deduplicated_and_sorted() {
    let r = Renderer::new(true, 0, 1280, 720);
    let modes = vec![
        mode(800, 600, 60_000),
        mode(640, 480, 60_000),
        mode(1920, 1080, 60_000),
        mode(800, 600, 75_000),
        mode(320, 240, 60_000),
        mode(1920, 1080, 144_000),
        mode(1024, 768, 60_000),
        mode(1024, 700, 60_000),
        mode(2000, 400, 60_000),
        mode(639, 1000, 60_000),
    ];
    let listed = r.supported_resolutions(&modes);
    assert_eq!(listed, vec![(640, 480), (800, 600), (1024, 700), (1024, 768), (1920, 1080)]);
}

#[test]
fn resolutions_of_no_monitor_are_empty() {
    let r = Renderer::new(false, 1, 800, 600);
    assert!(r.supported_resolutions(&Vec::new()).is_empty());
}

#[test]
fn preferred_mode_has_highest_refresh_and_last_on_tie() {
    let modes = vec![
        mode(1920, 1080, 60_000),
        mode(1920, 1080, 144_000),
        mode(1280, 720, 240_000),
        mode(1920, 1080, 144_000),
        mode(1920, 1080, 75_000),
    ];
    assert_eq!(preferred_video_mode(&modes, 1920, 1080), Some(3));
    assert_eq!(preferred_video_mode(&modes, 1280, 720), Some(2));
    assert_eq!(preferred_video_mode(&modes, 800, 600), None);
}

#[test]
fn windowed_mode_takes_resolution() {
    let mut r = Renderer::new(true, 1, 1280, 720);
    let action = r.set_display_mode(0, 1024, 768, &Vec::new());
    assert_eq!(action, DisplayAction::Windowed { width: 1024, height: 768 });
    assert_eq!(r.fullscreen_mode(), 0);
    assert_eq!(r.resolution(), (1024, 768));
    assert!(r.vsync());
}

#[test]
fn borderless_mode_takes_resolution() {
    let mut r = Renderer::new(true, 0, 1280, 720);
    let action = r.set_display_mode(1, 1920, 1080, &Vec::new());
    assert_eq!(action, DisplayAction::Borderless);
    assert_eq!(r.fullscreen_mode(), 1);
    assert_eq!(r.resolution(), (1920, 1080));
}

#[test]
fn exclusive_mode_uses_matching_video_mode() {
    let mut r = Renderer::new(true, 0, 1280, 720);
    let modes = vec![mode(1920, 1080, 60_000), mode(1920, 1080, 120_000), mode(1280, 720, 60_000)];
    let action = r.set_display_mode(2, 1920, 1080, &modes);
    assert_eq!(action, DisplayAction::Exclusive { mode_index: 1 });
    assert_eq!(r.fullscreen_mode(), 2);
    assert_eq!(r.resolution(), (1920, 1080));
}

#[test]
fn exclusive_mode_without_match_falls_back_to_borderless() {
    let mut r = Renderer::new(true, 0, 1280, 720);
    let modes = vec![mode(1920, 1080, 60_000)];
    let action = r.set_display_mode(2, 3840, 2160, &modes);
    assert_eq!(action, DisplayAction::Borderless);
    assert_eq!(r.fullscreen_mode(), 2);
    assert_eq!(r.resolution(), (1280, 720));
}

#[test]
fn display_mode_is_capped_at_exclusive() {
    let mut r = Renderer::new(true, 0, 1280, 720);
    let modes = vec![mode(1280, 720, 60_000)];
    let action = r.set_display_mode(9, 1280, 720, &modes);
    assert_eq!(action, DisplayAction::Exclusive { mode_index: 0 });
    assert_eq!(r.fullscreen_mode(), 2);
}

#[test]
fn toggle_fullscreen_switches_between_windowed_and_stored_mode() {
    let mut r = Renderer::new(false, 0, 1280, 720);
    assert_eq!(r.toggle_fullscreen(false, &Vec::new()), DisplayAction::Borderless);
    assert_eq!(r.fullscreen_mode(), 1);
    assert_eq!(r.toggle_fullscreen(true, &Vec::new()), DisplayAction::Windowed { width: 1280, height: 720 });
    assert_eq!(r.fullscreen_mode(), 0);
    let mut ex = Renderer::new(false, 2, 1280, 720);
    let modes = vec![mode(1280, 720, 60_000)];
    assert_eq!(ex.toggle_fullscreen(false, &modes), DisplayAction::Exclusive { mode_index: 0 });
    assert_eq!(ex.resolution(), (1280, 720));
}

#[test]
fn toggle_vsync_twice_restores() {
    let mut r = Renderer::new(true, 1, 800, 600);
    r.toggle_vsync();
    assert!(!r.vsync());
    r.toggle_vsync();
    assert!(r.vsync());
    assert_eq!(r.fullscreen_mode(), 1);
}

#[test]
fn set_fullscreen_mode_keeps_resolution() {
    let mut r = Renderer::new(true, 0, 1600, 900);
    assert_eq!(r.set_fullscreen_mode(0, &Vec::new()), DisplayAction::Windowed { width: 1600, height: 900 });
    assert_eq!(r.resolution(), (1600, 900));
}

#[test]
fn gl_config_prefers_exact_sample_count_last_on_tie() {
    assert_eq!(select_gl_config(&vec![0, 2, 4, 4, 8], 4), Some(3));
    assert_eq!(select_gl_config(&vec![4, 0, 2], 0), Some(1));
    assert_eq!(select_gl_config(&vec![2, 8, 4], 16), Some(1));
    assert_eq!(select_gl_config(&Vec::new(), 4), None);
}

#[test]
fn gl_config_scores() {
    assert_eq!(msaa_config_score(0, 0), 10_000);
    assert_eq!(msaa_config_score(4, 4), 20_000);
    assert_eq!(msaa_config_score(4, 2), 2);
    assert_eq!(msaa_config_score(0, 8), 8);
}

fn glyph(xmin: i32, ymin: i32, width: usize, height: usize, advance: i32, coverage: Vec<u8>) -> GlyphBitmap {
    GlyphBitmap { xmin, ymin, width, height, advance, coverage }
}

#[test]
fn compose_places_glyph_pixels_with_scaled_alpha() {
    // One 2x2 glyph; image 4x3; baseline 3 puts its top at row 1.
    let glyphs = vec![glyph(1, 0, 2, 2, 3, vec![255, 0, 128, 51])];
    let pixels = compose_text_pixels(&glyphs, 4, 3, 3, [10, 20, 30, 200]);
    assert_eq!(pixels.len(), 4 * 3 * 4);
    let at = |x: usize, y: usize| -> Vec<u8> { pixels[(y * 4 + x) * 4..(y * 4 + x) * 4 + 4].to_vec() };
    assert_eq!(at(1, 1), vec![10, 20, 30, 200]);
    assert_eq!(at(2, 1), vec![0, 0, 0, 0]);
    assert_eq!(at(1, 2), vec![10, 20, 30, (128u16 * 200 / 255) as u8]);
    assert_eq!(at(2, 2), vec![10, 20, 30, 40]);
    assert_eq!(at(0, 0), vec![0, 0, 0, 0]);
}

#[test]
fn compose_advances_pen_and_later_glyphs_paint_over() {
    // Two 1x1 glyphs; the second is pulled back onto the first's pixel.
    let glyphs = vec![glyph(0, 0, 1, 1, 2, vec![255]), glyph(-2, 0, 1, 1, 1, vec![255]), glyph(0, 0, 1, 1, 1, vec![100])];
    let pixels = compose_text_pixels(&glyphs, 4, 1, 1, [1, 2, 3, 255]);
    // Pens: 0, 2, 3. Glyph 0 at x=0, glyph 1 at x=0, glyph 2 at x=3.
    assert_eq!(&pixels[0..4], &[1, 2, 3, 255]);
    assert_eq!(&pixels[4..12], &[0, 0, 0, 0, 0, 0, 0, 0]);
    assert_eq!(&pixels[12..16], &[1, 2, 3, 100]);
}

#[test]
fn compose_drops_pixels_outside_the_image() {
    let glyphs = vec![glyph(-1, 0, 3, 1, 0, vec![255, 255, 255])];
    let pixels = compose_text_pixels(&glyphs, 1, 1, 1, [9, 9, 9, 9]);
    assert_eq!(pixels, vec![9, 9, 9, 9]);
    let empty = compose_text_pixels(&Vec::new(), 2, 2, 0, [9, 9, 9, 9]);
    assert_eq!(empty, vec![0; 16]);
}

#[test]
fn decimal_text() {
    assert_eq!(to_decimal(0), "0");
    assert_eq!(to_decimal(7), "7");
    assert_eq!(to_decimal(1234), "1234");
    assert_eq!(to_decimal(u32::MAX), "4294967295");
}

#[test]
fn menu_names() {
    assert_eq!(filter_name(0), "BILINEAR");
    assert_eq!(filter_name(1), "TRILINEAR");
    assert_eq!(filter_name(2), "OFF");
    assert_eq!(filter_name(200), "BILINEAR");
    assert_eq!(fullscreen_name(0), "WINDOWED");
    assert_eq!(fullscreen_name(1), "BORDERLESS");
    assert_eq!(fullscreen_name(2), "EXCLUSIVE");
    assert_eq!(fullscreen_name(5), "WINDOWED");
    assert_eq!(msaa_name(0), "OFF");
    assert_eq!(msaa_name(4), "4x");
    assert_eq!(msaa_name(16), "16x");
    assert_eq!(on_off(true), "ON");
    assert_eq!(on_off(false), "OFF");
    assert_eq!(resolution_label(1280, 720), "1280x720");
    assert_eq!(selection_marker(2, 2), ">");
    assert_eq!(selection_marker(1, 2), " ");
}

#[test]
fn menu_pages() {
    assert_eq!(Menu::Pause.title(), "PAUSED");
    assert_eq!(Menu::Display.title(), "DISPLAY & GRAPHICS");
    assert_eq!(Menu::Pause.items(), vec!["RESUME", "SETTINGS", "QUIT GAME"]);
    assert_eq!(Menu::Controls.items()[0], "Mouse Sensitivity");
    assert_eq!(Menu::Pause.items().len(), PAUSE_COUNT);
    assert_eq!(Menu::Settings.items().len(), SETTINGS_COUNT);
    assert_eq!(Menu::Controls.items().len(), CONTROLS_COUNT);
    assert_eq!(Menu::Display.items().len(), DISPLAY_COUNT);
    assert_eq!(Menu::Display.items()[5], "APPLY");
}

#[test]
fn display_page_values() {
    let v = display_values(1, 8, 1920, 1080, 2, false);
    assert_eq!(v, vec!["TRILINEAR", "8x", "1920x1080", "EXCLUSIVE", "OFF"]);
}

#[test]
fn new_player_defaults() {
    let p = Player::new();
    assert_eq!(p.money, 0);
    assert_eq!(p.experience, 0);
    assert_eq!(p.weapons, vec![Weapon::Fist, Weapon::Pistol]);
    assert_eq!(p.current_weapon(), Weapon::Fist);
    assert_eq!(p.ammo, 100);
    assert_eq!(p.max_ammo, 100);
    assert_eq!(p.wanted_level, 0);
    assert!(!p.is_jumping && !p.is_falling);
}

#[test]
fn new_identities_are_random_uuids() {
    let a = Player::new();
    let b = Player::new();
    assert!(is_random_uuid(a.id));
    assert!(is_random_uuid(b.id));
    assert_ne!(a.id, b.id);
    let m = Mission::new("t".to_string(), "d".to_string());
    assert!(is_random_uuid(m.id));
    assert_ne!(m.id, 0);
}

#[test]
fn fist_does_not_fire_and_pistol_uses_a_round() {
    let mut p = Player::new();
    assert!(!p.fire_weapon());
    assert_eq!(p.ammo, 100);
    p.select_weapon(1);
    assert_eq!(p.current_weapon(), Weapon::Pistol);
    assert!(p.fire_weapon());
    assert_eq!(p.ammo, 99);
    p.reload_weapon();
    assert_eq!(p.ammo, 100);
}

#[test]
fn firing_stops_when_out_of_ammo() {
    let mut p = Player::new();
    p.select_weapon(1);
    p.ammo = 1;
    assert!(p.fire_weapon());
    assert_eq!(p.ammo, 0);
    assert!(!p.fire_weapon());
    assert_eq!(p.ammo, 0);
}

#[test]
fn select_weapon_outside_list_changes_nothing() {
    let mut p = Player::new();
    p.ammo = 5;
    p.select_weapon(2);
    assert_eq!(p.current_weapon_index, 0);
    assert_eq!(p.ammo, 5);
}

#[test]
fn change_weapon_clamps_and_refills() {
    let mut p = Player::new();
    p.ammo = 3;
    p.change_weapon(5);
    assert_eq!(p.current_weapon_index, 1);
    assert_eq!(p.ammo, 100);
    p.change_weapon(-7);
    assert_eq!(p.current_weapon_index, 0);
    p.change_weapon(1);
    assert_eq!(p.current_weapon(), Weapon::Pistol);
}

#[test]
fn current_weapon_outside_list_is_fist() {
    let mut p = Player::new();
    p.current_weapon_index = 10;
    assert_eq!(p.current_weapon(), Weapon::Fist);
}

#[test]
fn add_weapon_is_idempotent() {
    let mut p = Player::new();
    p.add_weapon(Weapon::Rifle);
    p.add_weapon(Weapon::Rifle);
    p.add_weapon(Weapon::Pistol);
    assert_eq!(p.weapons, vec![Weapon::Fist, Weapon::Pistol, Weapon::Rifle]);
}

#[test]
fn wanted_level_is_capped_and_floored() {
    let mut p = Player::new();
    p.decrease_wanted_level();
    assert_eq!(p.wanted_level, 0);
    for _ in 0..10 {
        p.increase_wanted_level();
    }
    assert_eq!(p.wanted_level, 6);
    p.decrease_wanted_level();
    assert_eq!(p.wanted_level, 5);
    p.increase_wanted_level();
    assert_eq!(p.wanted_level, 6);
}

#[test]
fn wanted_level_up_then_down_restores() {
    let mut p = Player::new();
    p.increase_wanted_level();
    p.increase_wanted_level();
    assert_eq!(p.wanted_level, 2);
    p.increase_wanted_level();
    p.decrease_wanted_level();
    assert_eq!(p.wanted_level, 2);
}

#[test]
fn money_and_experience_accumulate() {
    let mut p = Player::new();
    p.add_money(250);
    p.add_money(50);
    p.add_experience(7);
    assert_eq!(p.money, 300);
    assert_eq!(p.experience, 7);
}

#[test]
fn mission_lifecycle() {
    let mut m = Mission::new("Heist".to_string(), "Rob the bank".to_string());
    assert_eq!(m.status, MissionStatus::NotStarted);
    assert_eq!(m.reward, 0);
    assert!(m.objectives.is_empty());
    m.start();
    assert_eq!(m.status, MissionStatus::InProgress);
    m.next_objective();
    m.next_objective();
    assert_eq!(m.current_objective, 2);
    m.fail();
    assert_eq!(m.status, MissionStatus::Failed);
    m.complete();
    assert_eq!(m.status, MissionStatus::Completed);
    assert_eq!(m.title, "Heist");
}

#[test]
fn tutorial_mission_is_current_and_in_progress() {
    let mut mm = MissionManager::new();
    assert!(mm.get_current_mission().is_none());
    mm.create_tutorial_mission();
    let m = mm.get_current_mission().unwrap();
    assert_eq!(m.title, "Welcome to the City");
    assert_eq!(m.description, "Get familiar with the city and complete some tasks.");
    assert_eq!(m.status, MissionStatus::InProgress);
    assert_eq!(m.reward, 100);
    assert_eq!(
        m.objectives,
        vec!["Walk around and explore", "Find a weapon", "Complete your first objective"]
    );
    assert_eq!(mm.get_missions().len(), 1);
}

#[test]
fn completing_current_mission_pays_each_time() {
    let mut mm = MissionManager::new();
    mm.create_tutorial_mission();
    let mut p = Player::new();
    mm.complete_current_mission(&mut p);
    assert_eq!(mm.get_current_mission().unwrap().status, MissionStatus::Completed);
    assert_eq!(p.money, 100);
    assert_eq!(p.experience, 50);
    mm.complete_current_mission(&mut p);
    assert_eq!(p.money, 200);
    assert_eq!(p.experience, 100);
}

#[test]
fn completing_without_current_mission_changes_nothing() {
    let mut mm = MissionManager::new();
    let mut p = Player::new();
    let id = mm.add_mission(Mission::new("a".to_string(), "b".to_string()));
    mm.complete_current_mission(&mut p);
    assert_eq!(p.money, 0);
    assert_eq!(mm.get_missions()[0].id, id);
    assert_eq!(mm.get_missions()[0].status, MissionStatus::NotStarted);
}

#[test]
fn current_mission_can_be_changed_in_place() {
    let mut mm = MissionManager::new();
    mm.create_tutorial_mission();
    mm.get_current_mission_mut().unwrap().fail();
    assert_eq!(mm.get_missions()[0].status, MissionStatus::Failed);
    let mut empty = MissionManager::new();
    assert!(empty.get_current_mission_mut().is_none());
}

#[test]
fn tutorial_after_other_missions_points_at_first() {
    let mut mm = MissionManager::new();
    let first = mm.add_mission(Mission::new("first".to_string(), "x".to_string()));
    mm.create_tutorial_mission();
    assert_eq!(mm.get_current_mission().unwrap().id, first);
    assert_eq!(mm.get_missions().len(), 2);
}

#[test]
fn occupants_are_unique_and_removed_in_order() {
    let mut o = VehicleOccupants::new();
    o.add_occupant(7);
    o.add_occupant(9);
    o.add_occupant(7);
    o.add_occupant(3);
    assert_eq!(o.as_slice(), &[7, 9, 3]);
    assert!(o.contains(9));
    o.remove_occupant(9);
    assert_eq!(o.as_slice(), &[7, 3]);
    assert!(!o.contains(9));
    o.remove_occupant(42);
    assert_eq!(o.as_slice(), &[7, 3]);
    o.add_occupant(9);
    o.remove_occupant(9);
    assert_eq!(o.as_slice(), &[7, 3]);
}

#[test]
fn vehicle_types_compare() {
    assert_ne!(VehicleType::Car, VehicleType::Bike);
    assert_eq!(VehicleType::Boat, VehicleType::Boat);
}

fn senses(notices: bool, attack: bool, melee: bool, expired: bool) -> NpcSenses {
    NpcSenses { notices_player: notices, can_attack: attack, in_melee_range: melee, timer_expired: expired }
}

#[test]
fn npc_idle_notices_player() {
    let d = decide_npc_step(NPCState::Idle, senses(true, true, true, false));
    assert_eq!(d.state, NPCState::Walking);
    assert_eq!(d.movement, NpcMovement::Keep);
    let d = decide_npc_step(NPCState::Idle, senses(false, false, false, true));
    assert_eq!(d.state, NPCState::Idle);
}

#[test]
fn npc_walker_fights_or_rests() {
    let d = decide_npc_step(NPCState::Walking, senses(true, true, false, true));
    assert_eq!(d.state, NPCState::Fighting);
    assert!(d.target_player);
    assert!(!d.reset_timer);
    assert_eq!(d.movement, NpcMovement::RandomWalk);
    let d = decide_npc_step(NPCState::Walking, senses(true, false, false, true));
    assert_eq!(d.state, NPCState::Idle);
    assert!(d.reset_timer);
    let d = decide_npc_step(NPCState::Walking, senses(true, false, false, false));
    assert_eq!(d.state, NPCState::Walking);
    assert_eq!(d.movement, NpcMovement::RandomWalk);
}

#[test]
fn npc_fighter_chases_until_melee_and_dead_stays_dead() {
    let d = decide_npc_step(NPCState::Fighting, senses(true, true, false, false));
    assert_eq!(d.state, NPCState::Fighting);
    assert_eq!(d.movement, NpcMovement::TowardPlayer);
    let d = decide_npc_step(NPCState::Fighting, senses(true, true, true, false));
    assert_eq!(d.movement, NpcMovement::Keep);
    let d = decide_npc_step(NPCState::Dead, senses(true, true, true, true));
    assert_eq!(d.state, NPCState::Dead);
    assert_eq!(d.movement, NpcMovement::Halt);
    let d = decide_npc_step(NPCState::Running, senses(true, true, true, true));
    assert_eq!(d.state, NPCState::Running);
}

#[test]
fn sound_effects_registry() {
    let mut s = SoundManager::new();
    assert!(s.play_effect("gunshot"));
    assert!(s.play_effect("vehicle_engine"));
    assert!(!s.play_effect("explosion"));
    assert!(!s.play_effect(""));
    assert!(s.play_music("theme"));
    s.toggle_music();
    assert!(!s.play_music("theme"));
    s.toggle_music();
    assert!(s.play_music("theme"));
    s.stop_all();
    assert!(s.play_effect("impact"));
}

#[test]
fn settings_switch_default_is_on() {
    assert!(default_true());
}

#[test]
fn only_version_one_files_are_read() {
    assert!(is_supported_version(1));
    assert!(!is_supported_version(0));
    assert!(!is_supported_version(2));
    let w = Weather::Rainy;
    assert_eq!(w, Weather::Rainy);
}

#[test]
fn mesh_indices() {
    assert_eq!(sequential_indices(4), vec![0, 1, 2, 3]);
    assert!(sequential_indices(0).is_empty());
    assert_eq!(drawable_indices(&vec![0, 5, 2, 3, 9, 1], 4), vec![0, 2, 3, 1]);
}

#[test]
fn strike_spends_round_even_on_cooldown() {
    let mut p = Player::new();
    p.select_weapon(1);
    assert_eq!(attempt_strike(&mut p, false), None);
    assert_eq!(p.ammo, 99);
    assert_eq!(attempt_strike(&mut p, true), Some(Weapon::Pistol));
    assert_eq!(p.ammo, 98);
    let mut q = Player::new();
    assert_eq!(attempt_strike(&mut q, true), None);
    assert_eq!(q.ammo, 100);
}

#[test]
fn provoking_raises_wanted_unless_dead() {
    let mut p = Player::new();
    assert_eq!(provoke(&mut p, NPCState::Walking), NPCState::Fighting);
    assert_eq!(p.wanted_level, 1);
    assert_eq!(provoke(&mut p, NPCState::Dead), NPCState::Dead);
    assert_eq!(p.wanted_level, 1);
    assert!(attacks_player(NPCState::Fighting, true));
    assert!(!attacks_player(NPCState::Fighting, false));
    assert!(!attacks_player(NPCState::Idle, true));
}

