use desktop_pet::game::config::strip_bom;
use desktop_pet::game::save_data::SaveData;
use desktop_pet::window::layered::COLOR_KEY;

#[test]
fn default_save_data_is_zero() {
    let s = SaveData::default();
    assert_eq!(s, SaveData { affection: 0, total_feeds: 0, total_seconds: 0, last_save_timestamp: 0 });
}

#[test]
fn bom_is_stripped() {
    assert_eq!(strip_bom("\u{feff}{\"a\":1}"), "{\"a\":1}");
    assert_eq!(strip_bom("{\"a\":1}"), "{\"a\":1}");
    assert_eq!(strip_bom(""), "");
    assert_eq!(strip_bom("\u{feff}"), "");
    assert_eq!(strip_bom("x\u{feff}"), "x\u{feff}");
}

#[test]
fn colour_key_is_magenta() {
    assert_eq!(COLOR_KEY, 0x00FF00FF);
}
