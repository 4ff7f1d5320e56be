use desktop_pet::app::{
    remove_white_background, wants_sprite_sheet, MenuTask, PetSession, PET_AFFECTION_GAIN,
};
use desktop_pet::game::save_data::SaveData;
use desktop_pet::input::handler::{
    MENU_CHANGE_SKIN, MENU_FEED, MENU_PET, MENU_PLAY, MENU_QUIT, MENU_REMOVE_BG, MENU_SETTINGS,
};
use desktop_pet::interaction::bubble::{bubble_layout, random_bubble_text, BubbleLayout};
use desktop_pet::interaction::menu::{context_menu_entries, MenuEntry};
use desktop_pet::interaction::notification::random_notification;
use desktop_pet::pet::entity::{Pet, PetState};

fn session(affection: u32) -> PetSession {
    let save = SaveData { affection, total_feeds: 3, total_seconds: 0, last_save_timestamp: 0 };
    PetSession::new(Pet::new(4), save, 5)
}

#[test]
fn session_takes_affection_from_save() {
    let s = session(42);
    assert_eq!(s.pet.affection, 42);
    assert!(s.running);
}

#[test]
fn feeding_adds_gain_and_counts() {
    let mut s = session(10);
    let o = s.on_menu_action(MENU_FEED);
    assert_eq!(s.pet.affection, 15);
    assert_eq!(s.save_data.affection, 15);
    assert_eq!(s.save_data.total_feeds, 4);
    assert!(o.save);
    assert_eq!(o.task, MenuTask::Nothing);
    let b = o.bubble.unwrap();
    assert_eq!(b.text, "\u{1f356} yummy~");
    assert_eq!(b.seconds, 3);
}

#[test]
fn feeding_is_capped_at_one_hundred() {
    let mut s = session(98);
    s.on_menu_action(MENU_FEED);
    assert_eq!(s.pet.affection, 100);
    assert_eq!(s.save_data.affection, 100);
    assert_eq!(s.save_data.total_feeds, 4);
    s.on_menu_action(MENU_FEED);
    assert_eq!(s.pet.affection, 100);
}

#[test]
fn petting_adds_three() {
    let mut s = session(7);
    let o = s.on_menu_action(MENU_PET);
    assert_eq!(PET_AFFECTION_GAIN, 3);
    assert_eq!(s.pet.affection, 10);
    assert_eq!(s.save_data.affection, 10);
    assert_eq!(s.save_data.total_feeds, 3);
    assert!(o.save);
    assert_eq!(o.bubble.unwrap().text, "\u{1f60a}");
}

#[test]
fn other_commands() {
    let mut s = session(7);
    let before = s;
    let o = s.on_menu_action(MENU_PLAY);
    assert_eq!(o.bubble.unwrap().text, "\u{1f3ae} whee~");
    assert!(!o.save);
    assert_eq!(s, before);
    assert_eq!(s.on_menu_action(MENU_CHANGE_SKIN).task, MenuTask::ChooseSkin);
    assert_eq!(s.on_menu_action(MENU_REMOVE_BG).task, MenuTask::RemoveBackground);
    let o = s.on_menu_action(MENU_SETTINGS);
    assert!(o.bubble.is_none() && !o.save && o.task == MenuTask::Nothing);
    assert_eq!(s, before);
    s.on_menu_action(MENU_QUIT);
    assert!(!s.running);
}

#[test]
fn petting_is_capped_at_one_hundred() {
    let mut s = session(99);
    s.on_menu_action(MENU_PET);
    assert_eq!(s.pet.affection, 100);
}

#[test]
fn left_click_scares_and_records() {
    let mut s = session(7);
    s.pet.affection = 11;
    let r = s.on_left_click();
    assert_eq!(r.hold_ms, 2000);
    assert_eq!(r.bubble.text, "\u{1f631}!");
    assert_eq!(r.bubble.seconds, 2);
    assert_eq!(s.pet.state, PetState::Scared);
    assert_eq!(s.save_data.affection, 11);
}

#[test]
fn right_click_and_hover() {
    let mut s = session(7);
    assert_eq!(s.on_right_click(), 3000);
    assert_eq!(s.pet.state, PetState::Sit);
    let mut s = session(7);
    s.on_mouse_move();
    assert_eq!(s.pet.state, PetState::Idle);
    s.on_mouse_leave();
    assert_eq!(s.pet.state, PetState::WalkRight);
    s.pet.affection = 99;
    s.sync_save();
    assert_eq!(s.save_data.affection, 99);
}

#[test]
fn random_bubbles_follow_affection() {
    let fond = ["\u{2665}", "hi~", "pat me!", "hehe", "I like you!"];
    let lonely = ["...", "hungry", "bored", "hmm?", "zzz"];
    for _ in 0..50 {
        assert!(fond.contains(&random_bubble_text(51)));
        assert!(lonely.contains(&random_bubble_text(50)));
    }
    assert!(fond.contains(&session(80).random_bubble()));
}

#[test]
fn notifications_are_reminders() {
    let all = ["该喝水啦！💧", "休息一下眼睛吧~", "站起来活动活动！", "深呼吸~放松一下", "记得保持好心情哦！"];
    for _ in 0..30 {
        assert!(all.contains(&random_notification()));
    }
}

#[test]
fn white_background_becomes_transparent() {
    let mut px = vec![
        255, 255, 255, 255, // white: transparent
        230, 240, 250, 255, // min 230: transparent
        210, 220, 250, 255, // min 210: fade (20*255/40 = 127) -> alpha 128
        210, 220, 250, 100, // faded alpha above current: kept at 100
        189, 255, 255, 255, // below soft range: untouched
        10, 20, 30, 40,
    ];
    remove_white_background(&mut px);
    assert_eq!(
        px,
        vec![255, 255, 255, 0, 230, 240, 250, 0, 210, 220, 250, 128, 210, 220, 250, 100, 189, 255, 255, 255, 10, 20, 30, 40]
    );
    let once = px.clone();
    remove_white_background(&mut px);
    assert_eq!(px, once);
}

#[test]
fn sheet_wanted_only_with_rows_and_columns() {
    assert!(wants_sprite_sheet(4, 7));
    assert!(!wants_sprite_sheet(0, 7));
    assert!(!wants_sprite_sheet(4, 0));
}

#[test]
fn bubble_layout_centres_and_clips() {
    assert_eq!(
        bubble_layout(true, false, 20, 10, 64, 0, 128, 128),
        Some(BubbleLayout { left: 48, top: 0, right: 80, bottom: 22, text_x: 54, text_y: 6 })
    );
    assert_eq!(
        bubble_layout(true, false, 20, 10, 64, 2, 128, 128),
        Some(BubbleLayout { left: 48, top: 2, right: 80, bottom: 24, text_x: 54, text_y: 8 })
    );
    // negative float offset counts as zero
    assert_eq!(bubble_layout(true, false, 21, 10, 64, -2, 128, 128).unwrap().top, 0);
    assert_eq!(bubble_layout(true, false, 21, 10, 64, -2, 128, 128).unwrap().left, 48);
    assert_eq!(bubble_layout(false, false, 20, 10, 64, 0, 128, 128), None);
    assert_eq!(bubble_layout(true, true, 20, 10, 64, 0, 128, 128), None);
    assert_eq!(bubble_layout(true, false, 200, 10, 64, 0, 128, 128), None);
    assert_eq!(bubble_layout(true, false, 20, 120, 64, 0, 128, 128), None);
    assert_eq!(bubble_layout(true, false, 100, 10, 64, 0, 100, 128), None);
}

#[test]
fn context_menu_order() {
    let v = context_menu_entries();
    assert_eq!(v.len(), 8);
    assert_eq!(v[0], MenuEntry::Item { id: MENU_CHANGE_SKIN, label: "🎨 换皮肤" });
    assert_eq!(v[1], MenuEntry::Item { id: MENU_FEED, label: "🍖 喂食" });
    assert_eq!(v[4], MenuEntry::Separator);
    assert_eq!(v[7], MenuEntry::Item { id: MENU_QUIT, label: "❌ 退出" });
}
