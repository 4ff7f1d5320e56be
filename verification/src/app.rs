//! The pet's session: what clicks, hovering and menu commands do to the pet
//! and its saved data, which frame is drawn, and the background removal
//! applied to a chosen picture.  The program that owns the window performs
//! the I/O that the outcomes ask for.
use vstd::prelude::*;

use crate::game::save_data::SaveData;
use crate::input::handler::{MENU_CHANGE_SKIN, MENU_FEED, MENU_PET, MENU_PLAY, MENU_QUIT, MENU_REMOVE_BG};
use crate::pet::entity::{FrameRect, Pet};
use crate::renderer::draw::{blit, magenta_fill, FrameBuffer, SpriteImage};

verus! {

/// A text to show in the speech bubble, and for how many seconds.
#[derive(Debug, Clone, Copy, PartialEq, Eq)]
pub struct BubbleRequest {
    pub text: &'static str,
    pub seconds: u32,
}

/// Work that a menu command leaves to the program: choosing a new picture
/// or removing the white background of the current one.
#[derive(Debug, Clone, Copy, PartialEq, Eq, Structural)]
pub enum MenuTask {
    Nothing,
    ChooseSkin,
    RemoveBackground,
}

/// What the program does after a menu command: a task, whether to write
/// the save file, and a bubble to show.
#[derive(Debug, Clone, Copy, PartialEq, Eq)]
pub struct MenuOutcome {
    pub task: MenuTask,
    pub save: bool,
    pub bubble: Option<BubbleRequest>,
}

/// What a left click asks of the program: hold the scared state this many
/// milliseconds, show a bubble, and write the save file.
#[derive(Debug, Clone, Copy, PartialEq, Eq)]
pub struct ClickReaction {
    pub hold_ms: u32,
    pub bubble: BubbleRequest,
}

/// Affection gained by petting.
pub const PET_AFFECTION_GAIN: u32 = 3;

/// Affection never rises above this.
pub const MAX_AFFECTION: u32 = 100;

/// How long the bubbles shown after menu commands stay, in seconds.
pub const MENU_BUBBLE_SECONDS: u32 = 3;

/// How long the bubble shown after a left click stays, in seconds.
pub const CLICK_BUBBLE_SECONDS: u32 = 2;

/// Affection `a` raised by `gain`, capped at `MAX_AFFECTION`.
pub open spec fn capped_add(a: u32, gain: u32) -> u32 {
    if a + gain > MAX_AFFECTION {
        MAX_AFFECTION
    } else {
        (a + gain) as u32
    }
}

/// Raises affection by `gain`, up to `MAX_AFFECTION`.
pub fn add_affection(a: u32, gain: u32) -> (r: u32)
    ensures
        r == capped_add(a, gain),
{
    let sum = a as u64 + gain as u64;
    if sum > MAX_AFFECTION as u64 {
        MAX_AFFECTION
    } else {
        sum as u32
    }
}

/// The pet, its saved data, the configured affection gain of a meal, and
/// whether the program goes on running.
#[derive(Debug, Clone, Copy, PartialEq, Eq, Structural)]
pub struct PetSession {
    pub pet: Pet,
    pub save_data: SaveData,
    pub feed_affection_gain: u32,
    pub running: bool,
}

/// The outcome that the program acts on after menu command `id`.
pub open spec fn spec_menu_outcome(id: u32) -> (Option<(Seq<char>, u32)>, MenuTask, bool) {
    if id == MENU_CHANGE_SKIN {
        (None, MenuTask::ChooseSkin, false)
    } else if id == MENU_FEED {
        (Some(("\u{1f356} yummy~"@, MENU_BUBBLE_SECONDS)), MenuTask::Nothing, true)
    } else if id == MENU_PET {
        (Some(("\u{1f60a}"@, MENU_BUBBLE_SECONDS)), MenuTask::Nothing, true)
    } else if id == MENU_PLAY {
        (Some(("\u{1f3ae} whee~"@, MENU_BUBBLE_SECONDS)), MenuTask::Nothing, false)
    } else if id == MENU_REMOVE_BG {
        (None, MenuTask::RemoveBackground, false)
    } else {
        (None, MenuTask::Nothing, false)
    }
}

/// The bubble, task and save flag of an outcome, with the text as its view.
pub open spec fn outcome_view(o: MenuOutcome) -> (Option<(Seq<char>, u32)>, MenuTask, bool) {
    (
        match o.bubble {
            Some(b) => Some((b.text@, b.seconds)),
            None => None,
        },
        o.task,
        o.save,
    )
}

impl PetSession {
    /// The session after menu command `id`.
    pub open spec fn after_menu(self, id: u32) -> PetSession {
        if id == MENU_FEED {
            let a = capped_add(self.pet.affection, self.feed_affection_gain);
            PetSession {
                pet: Pet { affection: a, ..self.pet },
                save_data: SaveData {
                    affection: a,
                    total_feeds: (self.save_data.total_feeds + 1) as u32,
                    ..self.save_data
                },
                ..self
            }
        } else if id == MENU_PET {
            let a = capped_add(self.pet.affection, PET_AFFECTION_GAIN);
            PetSession {
                pet: Pet { affection: a, ..self.pet },
                save_data: SaveData { affection: a, ..self.save_data },
                ..self
            }
        } else if id == MENU_QUIT {
            PetSession { running: false, ..self }
        } else {
            self
        }
    }

    /// A running session; the pet's affection is taken from the save data.
    pub fn new(pet: Pet, save_data: SaveData, feed_affection_gain: u32) -> (s: Self)
        ensures
            s == (PetSession {
                pet: Pet { affection: save_data.affection, ..pet },
                save_data,
                feed_affection_gain,
                running: true,
            }),
    {
        let mut pet = pet;
        pet.affection = save_data.affection;
        PetSession { pet, save_data, feed_affection_gain, running: true }
    }

    /// Copies the pet's affection into the save data (before writing it).
    pub fn sync_save(&mut self)
        ensures
            *final(self) == (PetSession {
                save_data: SaveData { affection: old(self).pet.affection, ..old(self).save_data },
                ..*old(self)
            }),
    {
        self.save_data.affection = self.pet.affection;
    }

    /// A left click scares the pet and records its affection; the program
    /// holds the scared state, shows the bubble and writes the save file.
    pub fn on_left_click(&mut self) -> (r: ClickReaction)
        ensures
            final(self).pet == old(self).pet.startled_into(crate::pet::entity::PetState::Scared),
            final(self).save_data == (SaveData {
                affection: old(self).pet.affection,
                ..old(self).save_data
            }),
            final(self).feed_affection_gain == old(self).feed_affection_gain,
            final(self).running == old(self).running,
            r.hold_ms == crate::pet::entity::SCARED_HOLD_MS,
            r.bubble.text@ == "\u{1f631}!"@,
            r.bubble.seconds == CLICK_BUBBLE_SECONDS,
            final(self).pet.wf(),
    {
        let hold_ms = self.pet.on_left_click();
        self.save_data.affection = self.pet.affection;
        ClickReaction {
            hold_ms,
            bubble: BubbleRequest { text: "\u{1f631}!", seconds: CLICK_BUBBLE_SECONDS },
        }
    }

    /// A right click makes the pet sit while the program shows the menu;
    /// returns how long the pet sits, in milliseconds.
    pub fn on_right_click(&mut self) -> (hold_ms: u32)
        ensures
            *final(self) == (PetSession {
                pet: old(self).pet.startled_into(crate::pet::entity::PetState::Sit),
                ..*old(self)
            }),
            hold_ms == crate::pet::entity::SIT_HOLD_MS,
            final(self).pet.wf(),
    {
        self.pet.on_right_click()
    }

    pub fn on_mouse_move(&mut self)
        ensures
            *final(self) == (PetSession { pet: old(self).pet.hovered(), ..*old(self) }),
            old(self).pet.wf() ==> final(self).pet.wf(),
    {
        self.pet.on_mouse_move();
    }

    pub fn on_mouse_leave(&mut self)
        ensures
            *final(self) == (PetSession { pet: old(self).pet.left_alone(), ..*old(self) }),
            old(self).pet.wf() ==> final(self).pet.wf(),
    {
        self.pet.on_mouse_leave();
    }

    /// Applies menu command `id`: feeding adds the configured gain to the
    /// affection (capped at 100) and counts the meal, petting adds 3 (capped
    /// at 100), quitting
    /// stops the session; the outcome says what the program does next.
    pub fn on_menu_action(&mut self, id: u32) -> (o: MenuOutcome)
        requires
            id == MENU_FEED ==> old(self).save_data.total_feeds < u32::MAX,
        ensures
            *final(self) == old(self).after_menu(id),
            outcome_view(o) == spec_menu_outcome(id),
    {
        if id == MENU_CHANGE_SKIN {
            MenuOutcome { task: MenuTask::ChooseSkin, save: false, bubble: None }
        } else if id == MENU_FEED {
            self.pet.affection = add_affection(self.pet.affection, self.feed_affection_gain);
            self.save_data.affection = self.pet.affection;
            self.save_data.total_feeds += 1;
            MenuOutcome {
                task: MenuTask::Nothing,
                save: true,
                bubble: Some(
                    BubbleRequest { text: "\u{1f356} yummy~", seconds: MENU_BUBBLE_SECONDS },
                ),
            }
        } else if id == MENU_PET {
            self.pet.affection = add_affection(self.pet.affection, PET_AFFECTION_GAIN);
            self.save_data.affection = self.pet.affection;
            MenuOutcome {
                task: MenuTask::Nothing,
                save: true,
                bubble: Some(BubbleRequest { text: "\u{1f60a}", seconds: MENU_BUBBLE_SECONDS }),
            }
        } else if id == MENU_PLAY {
            MenuOutcome {
                task: MenuTask::Nothing,
                save: false,
                bubble: Some(
                    BubbleRequest { text: "\u{1f3ae} whee~", seconds: MENU_BUBBLE_SECONDS },
                ),
            }
        } else if id == MENU_REMOVE_BG {
            MenuOutcome { task: MenuTask::RemoveBackground, save: false, bubble: None }
        } else if id == MENU_QUIT {
            self.running = false;
            MenuOutcome { task: MenuTask::Nothing, save: false, bubble: None }
        } else {
            MenuOutcome { task: MenuTask::Nothing, save: false, bubble: None }
        }
    }

    /// A text for the idle bubble, fond or lonely by the pet's affection.
    pub fn random_bubble(&self) -> (t: &'static str)
        ensures
            crate::interaction::bubble::bubble_texts(self.pet.affection).contains(t@),
    {
        crate::interaction::bubble::random_bubble_text(self.pet.affection)
    }
}

/// Whether the configured picture is read as a sprite sheet (otherwise it
/// is one picture, stretched to the pet's size).
pub fn wants_sprite_sheet(frames_per_row: u32, rows: u32) -> (b: bool)
    ensures
        b == (frames_per_row > 0 && rows > 0),
{
    frames_per_row > 0 && rows > 0
}

/// The frame of a sheet shown for the pet: its state's row and current
/// frame, counted modulo the number of frames.
pub open spec fn shown_frame(frames: Seq<FrameRect>, pet: Pet) -> FrameRect {
    frames[(pet.state.row() * pet.frames_per_row + pet.anim_frame) % (frames.len() as int)]
}

/// Draws the pet's current frame of `sheet` into the frame buffer on the
/// transparent background; with no frames, the buffer is left as it is.
pub fn render_sheet_frame(
    fb: &mut FrameBuffer,
    sheet: &SpriteImage,
    frames: &Vec<FrameRect>,
    pet: &Pet,
)
    requires
        old(fb).wf(),
        sheet.wf(),
        frames@.len() > 0 && shown_frame(frames@, *pet).w > 0 && shown_frame(frames@, *pet).h > 0
            ==> shown_frame(frames@, *pet).x + shown_frame(frames@, *pet).w <= sheet.width
            && shown_frame(frames@, *pet).y + shown_frame(frames@, *pet).h <= sheet.height,
        pet.state.row() * pet.frames_per_row + pet.anim_frame <= usize::MAX,
    ensures
        final(fb).width == old(fb).width,
        final(fb).height == old(fb).height,
        final(fb).wf(),
        frames@.len() == 0 ==> final(fb).pixels@ == old(fb).pixels@,
        frames@.len() > 0 ==> final(fb).pixels@ == blit(
            magenta_fill(old(fb).pixels@.len()),
            old(fb).width as nat,
            old(fb).height as nat,
            sheet.pixels@,
            sheet.width as nat,
            shown_frame(frames@, *pet).x as nat,
            shown_frame(frames@, *pet).y as nat,
            shown_frame(frames@, *pet).w as nat,
            shown_frame(frames@, *pet).h as nat,
        ),
{
    if frames.len() > 0 {
        let frame_idx = pet.current_frame_rect();
        let frame_idx = frame_idx % frames.len();
        let f = frames[frame_idx];
        fb.prepare_frame(sheet, f.x, f.y, f.w, f.h, pet.facing_right());
    }
}

/// Pixels whose darkest channel is at least this bright become transparent.
pub const WHITE_THRESHOLD: u8 = 230;

/// Below the threshold, pixels fade out over this many levels.
pub const WHITE_SOFT_RANGE: u8 = 40;

pub open spec fn min3(r: u8, g: u8, b: u8) -> u8 {
    let m = if r < g {
        r
    } else {
        g
    };
    if m < b {
        m
    } else {
        b
    }
}

/// The alpha of a pixel after background removal: zero for a near-white
/// pixel, lowered gradually in the soft range below, unchanged otherwise.
pub open spec fn faded_alpha(r: u8, g: u8, b: u8, a: u8) -> u8 {
    let m = min3(r, g, b);
    if m >= WHITE_THRESHOLD {
        0
    } else if m >= WHITE_THRESHOLD - WHITE_SOFT_RANGE {
        let fade = ((m - (WHITE_THRESHOLD - WHITE_SOFT_RANGE)) * 255 / (WHITE_SOFT_RANGE as int));
        if a < 255 - fade {
            a
        } else {
            (255 - fade) as u8
        }
    } else {
        a
    }
}

/// RGBA pixels after background removal: colours kept, alpha faded.
pub open spec fn without_white_background(v: Seq<u8>) -> Seq<u8> {
    Seq::new(
        v.len(),
        |i: int|
            if i % 4 == 3 {
                faded_alpha(v[i - 3], v[i - 2], v[i - 1], v[i])
            } else {
                v[i]
            },
    )
}

/// Makes the white or near-white background of an RGBA picture transparent.
pub fn remove_white_background(rgba: &mut Vec<u8>)
    requires
        old(rgba)@.len() % 4 == 0,
    ensures
        final(rgba)@ == without_white_background(old(rgba)@),
{
    let n = rgba.len();
    let threshold: u8 = WHITE_THRESHOLD;
    let soft_range: u8 = WHITE_SOFT_RANGE;
    let mut i: usize = 0;
    while i < n
        invariant
            n == rgba@.len(),
            n == old(rgba)@.len(),
            n % 4 == 0,
            i % 4 == 0,
            i <= n,
            threshold == WHITE_THRESHOLD,
            soft_range == WHITE_SOFT_RANGE,
            forall|j: int|
                0 <= j < n ==> #[trigger] rgba@[j] == if j < i {
                    without_white_background(old(rgba)@)[j]
                } else {
                    old(rgba)@[j]
                },
        decreases n - i,
    {
        let r = rgba[i];
        let g = rgba[i + 1];
        let b = rgba[i + 2];
        let min_ch = if r < g {
            r
        } else {
            g
        };
        let min_ch = if min_ch < b {
            min_ch
        } else {
            b
        };
        if min_ch >= threshold {
            rgba[i + 3] = 0;
        } else if min_ch >= threshold - soft_range {
            let fade = ((min_ch as u32 - (threshold - soft_range) as u32) * 255
                / soft_range as u32) as u8;
            let a = rgba[i + 3];
            rgba[i + 3] = if a < 255 - fade {
                a
            } else {
                255 - fade
            };
        }
        i = i + 4;
    }
    assert(rgba@ =~= without_white_background(old(rgba)@));
}

/// Background removal keeps every colour, never raises an alpha, and doing
/// it twice gives the same picture as doing it once.
pub proof fn law_background_removal_idempotent(v: Seq<u8>)
    requires
        v.len() % 4 == 0,
    ensures
        without_white_background(without_white_background(v)) == without_white_background(v),
        forall|i: int|
            0 <= i < v.len() && i % 4 != 3 ==> #[trigger] without_white_background(v)[i] == v[i],
        forall|i: int|
            0 <= i < v.len() && i % 4 == 3 ==> #[trigger] without_white_background(v)[i] <= v[i],
{
    assert(without_white_background(without_white_background(v)) =~= without_white_background(v));
}

/// What background removal does to each pixel, in terms of its own colour:
/// the colour is kept; a pixel whose darkest channel (the least of red,
/// green and blue) is below 190 keeps its alpha; one whose channels are all
/// at least 230 becomes fully transparent; in between, the alpha is lowered
/// to at most `255 - (darkest - 190) * 255 / 40`, and never raised.
pub proof fn law_background_removal_by_darkest_channel(v: Seq<u8>, p: int)
    requires
        v.len() % 4 == 0,
        0 <= p,
        p * 4 + 3 < v.len(),
    ensures
        ({
            let r = v[p * 4];
            let g = v[p * 4 + 1];
            let b = v[p * 4 + 2];
            let a = v[p * 4 + 3];
            let out = without_white_background(v);
            let darkest = if r <= g && r <= b {
                r
            } else if g <= b {
                g
            } else {
                b
            };
            &&& out[p * 4] == r
            &&& out[p * 4 + 1] == g
            &&& out[p * 4 + 2] == b
            &&& out[p * 4 + 3] <= a
            &&& (r < 190 || g < 190 || b < 190) ==> out[p * 4 + 3] == a
            &&& (r >= 230 && g >= 230 && b >= 230) ==> out[p * 4 + 3] == 0
            &&& (r >= 190 && g >= 190 && b >= 190 && darkest < 230) ==> out[p * 4 + 3] == (if a
                <= 255 - (darkest - 190) * 255 / 40 {
                a as int
            } else {
                255 - (darkest - 190) * 255 / 40
            })
        }),
{
    let i = p * 4 + 3;
    assert(i % 4 == 3);
    assert(i - 3 == p * 4);
}

/// Affection stays within 0 ..= 100: a pet at most that fond stays so after
/// any command, and no command lowers it.  Feeding adds the configured gain
/// and petting adds 3, both capped at 100; feeding counts exactly one meal,
/// and both leave the save data agreeing with the pet.  Only quitting stops
/// the session.
pub proof fn law_menu_commands(s: PetSession, id: u32)
    requires
        s.pet.affection <= MAX_AFFECTION,
    ensures
        s.after_menu(id).pet.affection <= MAX_AFFECTION,
        s.after_menu(id).pet.affection >= s.pet.affection,
        s.after_menu(MENU_FEED).pet.affection == (if s.pet.affection + s.feed_affection_gain
            > MAX_AFFECTION {
            MAX_AFFECTION as int
        } else {
            s.pet.affection + s.feed_affection_gain
        }),
        s.after_menu(MENU_PET).pet.affection == (if s.pet.affection + 3 > MAX_AFFECTION {
            MAX_AFFECTION as int
        } else {
            s.pet.affection + 3
        }),
        s.after_menu(MENU_FEED).save_data.total_feeds == s.save_data.total_feeds + 1 || s.save_data.total_feeds == u32::MAX,
        s.after_menu(MENU_FEED).save_data.affection == s.after_menu(MENU_FEED).pet.affection,
        s.after_menu(MENU_PET).save_data.affection == s.after_menu(MENU_PET).pet.affection,
        !s.after_menu(MENU_QUIT).running,
        id != MENU_QUIT ==> s.after_menu(id).running == s.running,
        id != MENU_FEED && id != MENU_PET ==> s.after_menu(id).pet == s.pet
            && s.after_menu(id).save_data == s.save_data,
{
}

} // verus!
