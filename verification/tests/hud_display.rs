use card_table::hud::AnimationIndices;
use card_table::hud::BitmapNumberConfig;
use card_table::hud::BitmapNumberValue;
use card_table::hud::MEMORY_CACHE_INITIAL_VALUE;
use card_table::hud::MemoryCacheValue;
use card_table::hud::memory_cache_font;
use card_table::hud::system_protection_font;
use card_table::hud::SYSTEM_PROTECTION_INITIAL_VALUE;
use card_table::hud::SystemIntegrityState;
use card_table::hud::SystemProtectionValue;
use card_table::hud::update_bitmap_number_digits;
use card_table::hud::update_system_integrity_background;
use card_table::hud::update_system_integrity_digits;
use card_table::hud::update_system_integrity_fan;
use card_table::hud::update_system_integrity_state;


#[test]
fn integrity_state_thresholds() {
    let s = SystemIntegrityState::Reliable;
    assert_eq!(update_system_integrity_state(100, s), SystemIntegrityState::Absolute);
    assert_eq!(update_system_integrity_state(51, s), SystemIntegrityState::Absolute);
    assert_eq!(update_system_integrity_state(50, s), SystemIntegrityState::Reliable);
    assert_eq!(update_system_integrity_state(26, s), SystemIntegrityState::Reliable);
    assert_eq!(update_system_integrity_state(25, s), SystemIntegrityState::Vulnerable);
    assert_eq!(update_system_integrity_state(1, s), SystemIntegrityState::Vulnerable);
    assert_eq!(update_system_integrity_state(0, s), SystemIntegrityState::Hacked);
    // out-of-band values leave the state as it is
    assert_eq!(update_system_integrity_state(101, s), s);
    assert_eq!(update_system_integrity_state(255, SystemIntegrityState::Hacked), SystemIntegrityState::Hacked);
}

#[test]
fn integrity_state_starts_absolute() {
    assert_eq!(SystemIntegrityState::default(), SystemIntegrityState::Absolute);
}

#[test]
fn integrity_background_per_band() {
    assert_eq!(update_system_integrity_background(SystemIntegrityState::Absolute), 0);
    assert_eq!(update_system_integrity_background(SystemIntegrityState::Reliable), 1);
    assert_eq!(update_system_integrity_background(SystemIntegrityState::Vulnerable), 2);
    assert_eq!(update_system_integrity_background(SystemIntegrityState::Hacked), 2);
}

#[test]
fn integrity_fan_frames_per_band() {
    assert_eq!(
        update_system_integrity_fan(SystemIntegrityState::Absolute),
        AnimationIndices { first: 0, last: 2 }
    );
    assert_eq!(
        update_system_integrity_fan(SystemIntegrityState::Reliable),
        AnimationIndices { first: 3, last: 5 }
    );
    assert_eq!(
        update_system_integrity_fan(SystemIntegrityState::Vulnerable),
        AnimationIndices { first: 6, last: 12 }
    );
    assert_eq!(
        update_system_integrity_fan(SystemIntegrityState::Hacked),
        AnimationIndices { first: 12, last: 12 }
    );
}

#[test]
fn single_digit_hides_leftover_sprites() {
    let cells = update_bitmap_number_digits(&memory_cache_font(), 9, 2);
    assert_eq!(cells.len(), 2);
    assert!(cells[0].visible);
    // one tile of width 24 centered about 0: left edge at -12
    assert_eq!(cells[0].translation_x, -12);
    assert_eq!(cells[0].sprite_index, 9);
    assert!(!cells[1].visible);
}

#[test]
fn two_digit_value_fills_both_sprites() {
    let cells = update_bitmap_number_digits(&memory_cache_font(), 42, 2);
    assert_eq!(cells.len(), 2);
    assert!(cells[0].visible && cells[1].visible);
    // row width 2 * 24 + 2 = 50: left edge at -25, step 26
    assert_eq!(cells[0].translation_x, -25);
    assert_eq!(cells[1].translation_x, 1);
    assert_eq!(cells[0].sprite_index, 4);
    assert_eq!(cells[1].sprite_index, 2);
}

#[test]
fn sprite_index_offsets_by_sheet_row() {
    let cfg = BitmapNumberConfig { tile_width: 12, tile_height: 22, columns: 10, row: 2, font_spacing: 2 };
    assert_eq!(cfg.sprite_index(7), 27);
    assert_eq!(cfg.sprite_index(0), 20);
}

#[test]
fn integrity_digits_three_digit_value() {
    let cells = update_system_integrity_digits(100, SystemIntegrityState::Absolute, 3);
    assert_eq!(cells.len(), 3);
    // row width 3 * 12 + 2 * 2 = 40: left edge at -20, step 14
    assert_eq!(cells[0].translation_x, -20);
    assert_eq!(cells[1].translation_x, -6);
    assert_eq!(cells[2].translation_x, 8);
    assert_eq!(cells[0].sprite_index, 1);
    assert_eq!(cells[1].sprite_index, 0);
    assert_eq!(cells[2].sprite_index, 0);
    assert!(cells[0].visible && cells[1].visible && cells[2].visible);
}

#[test]
fn integrity_digits_row_follows_band() {
    let cells = update_system_integrity_digits(7, SystemIntegrityState::Vulnerable, 3);
    assert!(cells[0].visible);
    assert_eq!(cells[0].sprite_index, 27);
    assert!(!cells[1].visible);
    assert!(!cells[2].visible);
}

#[test]
fn readout_values_round_trip() {
    assert_eq!(MemoryCacheValue(MEMORY_CACHE_INITIAL_VALUE).get_value(), 9);
    assert_eq!(SystemProtectionValue(SYSTEM_PROTECTION_INITIAL_VALUE).get_value(), 0);
    assert_eq!(MemoryCacheValue(37).get_value(), 37);
}

#[test]
fn readout_fonts_match_their_sheets() {
    let mc = memory_cache_font();
    assert_eq!((mc.tile_width, mc.tile_height), (24, 46));
    let sp = system_protection_font();
    assert_eq!((sp.tile_width, sp.tile_height), (24, 36));
    assert_eq!(sp.columns, 10);
    assert_eq!(sp.row, 0);
}
