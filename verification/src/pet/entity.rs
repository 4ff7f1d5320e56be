use vstd::prelude::*;

use crate::game::types::Direction;
use crate::renderer::draw::SpriteImage;

verus! {

// Image loading

/// A decoded picture: `width` by `height` pixels, 4 bytes each in R, G, B,
/// A order, rows from the top down.
#[derive(Debug, PartialEq, Eq)]
pub struct DecodedImage {
    pub width: u32,
    pub height: u32,
    pub pixels: Vec<u8>,
}

impl DecodedImage {
    /// The pixel buffer holds exactly `width * height` pixels.
    pub open spec fn wf(&self) -> bool {
        self.pixels@.len() == self.width * self.height * 4
    }
}

/// The buffer with the first and third byte of every 4-byte pixel swapped:
/// RGBA becomes BGRA and back.
pub open spec fn swap_red_blue(v: Seq<u8>) -> Seq<u8> {
    Seq::new(
        v.len(),
        |i: int|
            if i % 4 == 0 {
                v[i + 2]
            } else if i % 4 == 2 {
                v[i - 2]
            } else {
                v[i]
            },
    )
}

/// Converts RGBA pixels to the BGRA layout of the window's bitmap.
pub fn rgba_to_bgra(rgba: &Vec<u8>) -> (bgra: Vec<u8>)
    requires
        rgba@.len() % 4 == 0,
    ensures
        bgra@ == swap_red_blue(rgba@),
{
    let n = rgba.len();
    let mut bgra: Vec<u8> = Vec::new();
    let mut i: usize = 0;
    while i < n
        invariant
            n == rgba@.len(),
            n % 4 == 0,
            i % 4 == 0,
            i <= n,
            bgra@.len() == i,
            forall|j: int| 0 <= j < i ==> #[trigger] bgra@[j] == swap_red_blue(rgba@)[j],
        decreases n - i,
    {
        bgra.push(rgba[i + 2]);
        bgra.push(rgba[i + 1]);
        bgra.push(rgba[i]);
        bgra.push(rgba[i + 3]);
        i = i + 4;
    }
    assert(bgra@ =~= swap_red_blue(rgba@));
    bgra
}

/// What the `image` crate's nearest-neighbour resize (`imageops::resize`
/// with `FilterType::Nearest`) makes of an RGBA buffer of the given size
/// when it resizes it to the new size.
pub uninterp spec fn resized_nearest(
    pixels: Seq<u8>,
    width: u32,
    height: u32,
    new_width: u32,
    new_height: u32,
) -> Seq<u8>;

/// Calls `image::imageops::resize` with `FilterType::Nearest` on the RGBA
/// buffer.  Claimed: the result has `new_width * new_height` pixels and is
/// the named result of the arguments; when the size does not change the
/// crate returns a copy.  The crate allocates a buffer of
/// `width * new_height` pixels of four `f32` channels and one of
/// `new_width * new_height` pixels of four bytes, which must stay within
/// `isize::MAX` bytes.
#[verifier::external_body]
fn resize_nearest(
    pixels: Vec<u8>,
    width: u32,
    height: u32,
    new_width: u32,
    new_height: u32,
) -> (r: Vec<u8>)
    requires
        pixels@.len() == width * height * 4,
        new_width * new_height * 4 <= isize::MAX,
        width * new_height * 16 <= isize::MAX,
    ensures
        r@.len() == new_width * new_height * 4,
        r@ == resized_nearest(pixels@, width, height, new_width, new_height),
        new_width == width && new_height == height ==> r@ == pixels@,
{
    let img = image::RgbaImage::from_raw(width, height, pixels).unwrap();
    image::imageops::resize(&img, new_width, new_height, image::imageops::FilterType::Nearest)
        .into_raw()
}

/// The pet's picture: the decoded image resized (nearest neighbour) to
/// `target_w` by `target_h` and converted to BGRA.
pub fn load_sprite(image: DecodedImage, target_w: u32, target_h: u32) -> (s: SpriteImage)
    requires
        image.wf(),
        target_w * target_h * 4 <= isize::MAX,
        image.width * target_h * 16 <= isize::MAX,
    ensures
        s.width == target_w,
        s.height == target_h,
        s.pixels@ == swap_red_blue(
            resized_nearest(image.pixels@, image.width, image.height, target_w, target_h),
        ),
        s.wf(),
{
    let resized = resize_nearest(image.pixels, image.width, image.height, target_w, target_h);
    assert(resized@.len() % 4 == 0) by (nonlinear_arith)
        requires
            resized@.len() == target_w * target_h * 4,
    ;
    let bgra = rgba_to_bgra(&resized);
    SpriteImage::from_bgra(target_w, target_h, bgra)
}

/// The frames of a sheet of `rows` rows of `frames_per_row` equal frames,
/// row by row: frame `k` is in column `k % frames_per_row` and row
/// `k / frames_per_row`.  Pixels left over at the right and bottom edges
/// belong to no frame.
pub open spec fn sheet_frames(sheet_w: u32, sheet_h: u32, frames_per_row: u32, rows: u32) -> Seq<
    FrameRect,
> {
    let fw = sheet_w / frames_per_row;
    let fh = sheet_h / rows;
    Seq::new(
        (rows * frames_per_row) as nat,
        |k: int|
            FrameRect {
                x: ((k % (frames_per_row as int)) * fw) as u32,
                y: ((k / (frames_per_row as int)) * fh) as u32,
                w: fw,
                h: fh,
            },
    )
}

proof fn lemma_offset_fits(c: int, n: int, total: int)
    requires
        0 <= c < n,
        0 <= total,
    ensures
        0 <= c * (total / n),
        c * (total / n) + total / n <= total,
{
    vstd::arithmetic::div_mod::lemma_fundamental_div_mod(total, n);
    let q = total / n;
    let r = total % n;
    assert(0 <= c * q && c * q + q <= total) by (nonlinear_arith)
        requires
            0 <= c < n,
            0 <= q,
            0 <= r,
            total == n * q + r,
    ;
}

/// The picture as a sprite sheet: converted to BGRA and cut into `rows`
/// rows of `frames_per_row` frames.
pub fn load_sprite_sheet(image: DecodedImage, frames_per_row: u32, rows: u32) -> (r: (
    SpriteImage,
    Vec<FrameRect>,
))
    requires
        image.wf(),
        frames_per_row > 0,
        rows > 0,
    ensures
        r.0.width == image.width,
        r.0.height == image.height,
        r.0.pixels@ == swap_red_blue(image.pixels@),
        r.0.wf(),
        r.1@ == sheet_frames(image.width, image.height, frames_per_row, rows),
{
    let sheet_w = image.width;
    let sheet_h = image.height;
    assert(image.pixels@.len() % 4 == 0) by (nonlinear_arith)
        requires
            image.pixels@.len() == sheet_w * sheet_h * 4,
    ;
    let bgra = rgba_to_bgra(&image.pixels);
    let sheet = SpriteImage::from_bgra(sheet_w, sheet_h, bgra);
    let frame_w = sheet_w / frames_per_row;
    let frame_h = sheet_h / rows;
    let ghost expected = sheet_frames(sheet_w, sheet_h, frames_per_row, rows);
    let mut frames: Vec<FrameRect> = Vec::new();
    let mut row: u32 = 0;
    while row < rows
        invariant
            expected == sheet_frames(sheet_w, sheet_h, frames_per_row, rows),
            frames_per_row > 0,
            rows > 0,
            frame_w == sheet_w / frames_per_row,
            frame_h == sheet_h / rows,
            row <= rows,
            frames@.len() == row * frames_per_row,
            forall|k: int| 0 <= k < frames@.len() ==> #[trigger] frames@[k] == expected[k],
        decreases rows - row,
    {
        proof {
            lemma_offset_fits(row as int, rows as int, sheet_h as int);
        }
        let mut col: u32 = 0;
        while col < frames_per_row
            invariant
                expected == sheet_frames(sheet_w, sheet_h, frames_per_row, rows),
                frames_per_row > 0,
                rows > 0,
                frame_w == sheet_w / frames_per_row,
                frame_h == sheet_h / rows,
                row < rows,
                row * frame_h + frame_h <= sheet_h,
                col <= frames_per_row,
                frames@.len() == row * frames_per_row + col,
                forall|k: int| 0 <= k < frames@.len() ==> #[trigger] frames@[k] == expected[k],
            decreases frames_per_row - col,
        {
            proof {
                lemma_offset_fits(col as int, frames_per_row as int, sheet_w as int);
                let k = row * frames_per_row + col;
                vstd::arithmetic::div_mod::lemma_fundamental_div_mod_converse_mod(
                    k,
                    frames_per_row as int,
                    row as int,
                    col as int,
                );
                vstd::arithmetic::div_mod::lemma_fundamental_div_mod_converse_div(
                    k,
                    frames_per_row as int,
                    row as int,
                    col as int,
                );
                assert(k < rows * frames_per_row) by (nonlinear_arith)
                    requires
                        k == row * frames_per_row + col,
                        row < rows,
                        col < frames_per_row,
                ;
            }
            frames.push(FrameRect { x: col * frame_w, y: row * frame_h, w: frame_w, h: frame_h });
            col = col + 1;
        }
        assert(frames@.len() == (row + 1) * frames_per_row) by (nonlinear_arith)
            requires
                frames@.len() == row * frames_per_row + col,
                col == frames_per_row,
        ;
        row = row + 1;
    }
    assert(frames@ =~= expected);
    (sheet, frames)
}

// Sprite sheet rows (0-indexed), 8 rows:
//   0 = idle, 1 = walk right, 2 = walk left, 3 = sleep,
//   4 = happy, 5 = scared, 6 = sit, 7 = spare

/// A frame's rectangle in a sprite sheet, in pixels.
#[derive(Debug, Clone, Copy, PartialEq, Eq, Structural)]
pub struct FrameRect {
    pub x: u32,
    pub y: u32,
    pub w: u32,
    pub h: u32,
}

/// What the pet is doing; each state is drawn from its own sprite-sheet row.
#[derive(Debug, Clone, Copy, PartialEq, Eq, Structural)]
pub enum PetState {
    Idle,
    WalkRight,
    WalkLeft,
    Sleep,
    Happy,
    Scared,
    Sit,
}

impl PetState {
    /// The sprite-sheet row of a state.
    pub open spec fn row(self) -> nat {
        match self {
            PetState::Idle => 0,
            PetState::WalkRight => 1,
            PetState::WalkLeft => 2,
            PetState::Sleep => 3,
            PetState::Happy => 4,
            PetState::Scared => 5,
            PetState::Sit => 6,
        }
    }

    pub fn row_index(self) -> (r: usize)
        ensures
            r == self.row(),
    {
        match self {
            PetState::Idle => 0,
            PetState::WalkRight => 1,
            PetState::WalkLeft => 2,
            PetState::Sleep => 3,
            PetState::Happy => 4,
            PetState::Scared => 5,
            PetState::Sit => 6,
        }
    }

    /// Index of the first frame of this state's row in a sheet laid out row
    /// by row with `frames_per_row` frames in each row.
    pub fn first_frame(self, frames_per_row: usize) -> (r: usize)
        requires
            self.row() * frames_per_row <= usize::MAX,
        ensures
            r == self.row() * frames_per_row,
    {
        self.row_index() * frames_per_row
    }
}


/// The walking state that matches a facing direction.
pub open spec fn walk_state(d: Direction) -> PetState {
    match d {
        Direction::Right => PetState::WalkRight,
        Direction::Left => PetState::WalkLeft,
    }
}

/// The pet walks in these states.
pub open spec fn is_walking(s: PetState) -> bool {
    s == PetState::WalkRight || s == PetState::WalkLeft
}

/// These states last until their hold timer runs out.
pub open spec fn is_temporary(s: PetState) -> bool {
    s == PetState::Scared || s == PetState::Sit
}

/// In these states the pet stays where it is until something else happens.
pub open spec fn is_resting(s: PetState) -> bool {
    s == PetState::Sleep || s == PetState::Happy || s == PetState::Idle
}

/// How long the scared state lasts after a left click, in milliseconds.
pub const SCARED_HOLD_MS: u32 = 2000;

/// How long the sitting state lasts after a right click, in milliseconds.
pub const SIT_HOLD_MS: u32 = 3000;

/// The pet's behaviour: what it does, which way it faces, which animation
/// frame of its row is shown, and how fond it is of the user.
///
/// Positions, walking speed and the animation and hold timers are measured in
/// floating-point pixels and seconds by the program that drives the window;
/// it reports to `update` whether a frame is due, whether the hold timer ran
/// out and whether the pet reached the screen edge it walks towards.
#[derive(Debug, Clone, Copy, PartialEq, Eq, Structural)]
pub struct Pet {
    pub direction: Direction,
    pub affection: u32,
    pub state: PetState,
    pub anim_frame: usize,
    pub frames_per_row: usize,
    pub mouse_hovering: bool,
}

impl Pet {
    /// The pet's invariant: the shown frame lies in the row (or is the
    /// first one), and a walking state points the way the pet faces.
    pub open spec fn wf(self) -> bool {
        &&& (self.anim_frame == 0 || self.anim_frame < self.frames_per_row)
        &&& (is_walking(self.state) ==> self.state == walk_state(self.direction))
    }

    /// The frame shown after one tick.
    pub open spec fn next_frame(self, frame_due: bool) -> usize {
        if frame_due {
            ((self.anim_frame + 1) % (self.frames_per_row as int)) as usize
        } else {
            self.anim_frame
        }
    }

    /// State and facing after one tick.
    pub open spec fn next_behaviour(self, timer_expired: bool, edge_reached: bool) -> (
        PetState,
        Direction,
    ) {
        if is_temporary(self.state) {
            if timer_expired {
                (
                    if self.mouse_hovering {
                        PetState::Idle
                    } else {
                        walk_state(self.direction)
                    },
                    self.direction,
                )
            } else {
                (self.state, self.direction)
            }
        } else if is_resting(self.state) {
            (self.state, self.direction)
        } else if edge_reached {
            match self.direction {
                Direction::Right => (PetState::Happy, Direction::Left),
                Direction::Left => (PetState::Sleep, Direction::Right),
            }
        } else {
            (walk_state(self.direction), self.direction)
        }
    }

    /// The pet after one tick.
    pub open spec fn ticked(self, frame_due: bool, timer_expired: bool, edge_reached: bool) -> Pet {
        Pet {
            anim_frame: self.next_frame(frame_due),
            state: self.next_behaviour(timer_expired, edge_reached).0,
            direction: self.next_behaviour(timer_expired, edge_reached).1,
            ..self
        }
    }

    /// The pet after the mouse moved over it.
    pub open spec fn hovered(self) -> Pet {
        Pet {
            mouse_hovering: true,
            state: if is_walking(self.state) {
                PetState::Idle
            } else {
                self.state
            },
            ..self
        }
    }

    /// The pet after the mouse left it.
    pub open spec fn left_alone(self) -> Pet {
        Pet {
            mouse_hovering: false,
            state: if self.state == PetState::Idle {
                walk_state(self.direction)
            } else {
                self.state
            },
            ..self
        }
    }

    /// The pet after it was clicked into a temporary state.
    pub open spec fn startled_into(self, s: PetState) -> Pet {
        Pet { state: s, anim_frame: 0, ..self }
    }

    /// A new pet: it walks right, with no affection yet.
    pub fn new(frames_per_row: usize) -> (p: Self)
        ensures
            p == (Pet {
                direction: Direction::Right,
                affection: 0,
                state: PetState::WalkRight,
                anim_frame: 0,
                frames_per_row,
                mouse_hovering: false,
            }),
            p.wf(),
    {
        Pet {
            direction: Direction::Right,
            affection: 0,
            state: PetState::WalkRight,
            anim_frame: 0,
            frames_per_row,
            mouse_hovering: false,
        }
    }

    fn walking_state(d: Direction) -> (s: PetState)
        ensures
            s == walk_state(d),
    {
        match d {
            Direction::Right => PetState::WalkRight,
            Direction::Left => PetState::WalkLeft,
        }
    }

    /// One tick of behaviour.  `frame_due`: the animation timer reached one
    /// frame interval; `timer_expired`: the hold timer of a temporary state
    /// ran out; `edge_reached`: the walking pet reached the screen edge it
    /// walks towards (and was stopped there).
    pub fn update(&mut self, frame_due: bool, timer_expired: bool, edge_reached: bool)
        requires
            frame_due ==> old(self).frames_per_row > 0 && old(self).anim_frame < usize::MAX,
        ensures
            *final(self) == old(self).ticked(frame_due, timer_expired, edge_reached),
            is_walking(final(self).state) ==> final(self).state == walk_state(final(self).direction),
            old(self).wf() ==> final(self).wf(),
    {
        if frame_due {
            self.anim_frame = (self.anim_frame + 1) % self.frames_per_row;
        }
        // Temporary states auto-revert

        if matches!(self.state, PetState::Scared | PetState::Sit) {
            if timer_expired {
                self.state = if self.mouse_hovering {
                    PetState::Idle
                } else {
                    Self::walking_state(self.direction)
                };
            }
            return ;
        }
        // Stop at edges or idle

        if matches!(self.state, PetState::Sleep | PetState::Happy | PetState::Idle) {
            return ;
        }
        // Walking

        if edge_reached {
            match self.direction {
                Direction::Right => {
                    self.state = PetState::Happy;
                    self.direction = Direction::Left;
                },
                Direction::Left => {
                    self.state = PetState::Sleep;
                    self.direction = Direction::Right;
                },
            }
        }
        if matches!(self.state, PetState::WalkRight | PetState::WalkLeft) {
            self.state = Self::walking_state(self.direction);
        }
    }

    pub fn on_mouse_move(&mut self)
        ensures
            *final(self) == old(self).hovered(),
            old(self).wf() ==> final(self).wf(),
    {
        self.mouse_hovering = true;
        if matches!(self.state, PetState::WalkRight | PetState::WalkLeft) {
            self.state = PetState::Idle;
        }
    }

    pub fn on_mouse_leave(&mut self)
        ensures
            *final(self) == old(self).left_alone(),
            old(self).wf() ==> final(self).wf(),
    {
        self.mouse_hovering = false;
        if self.state == PetState::Idle {
            self.state = Self::walking_state(self.direction);
        }
    }

    /// A left click scares the pet; returns how long it stays scared, in
    /// milliseconds.
    pub fn on_left_click(&mut self) -> (hold_ms: u32)
        ensures
            *final(self) == old(self).startled_into(PetState::Scared),
            hold_ms == SCARED_HOLD_MS,
            final(self).wf(),
    {
        self.state = PetState::Scared;
        self.anim_frame = 0;
        SCARED_HOLD_MS
    }

    /// A right click makes the pet sit; returns how long it sits, in
    /// milliseconds.
    pub fn on_right_click(&mut self) -> (hold_ms: u32)
        ensures
            *final(self) == old(self).startled_into(PetState::Sit),
            hold_ms == SIT_HOLD_MS,
            final(self).wf(),
    {
        self.state = PetState::Sit;
        self.anim_frame = 0;
        SIT_HOLD_MS
    }

    /// Index of the frame to draw in a sheet laid out row by row.
    pub fn current_frame_rect(&self) -> (r: usize)
        requires
            self.state.row() * self.frames_per_row + self.anim_frame <= usize::MAX,
        ensures
            r == self.state.row() * self.frames_per_row + self.anim_frame,
    {
        self.state.first_frame(self.frames_per_row) + self.anim_frame
    }

    pub fn facing_right(&self) -> (b: bool)
        ensures
            b == (self.state == PetState::WalkRight),
    {
        self.state == PetState::WalkRight
    }
}


/// A walking pet that the mouse passes over stops, and walks on as before
/// once the mouse leaves.
pub proof fn law_hover_round_trip(p: Pet)
    requires
        p.wf(),
        is_walking(p.state),
        !p.mouse_hovering,
    ensures
        p.hovered().state == PetState::Idle,
        p.hovered().left_alone() == p,
{
}

/// Hovering stops only a walking pet: a pet that walks right or left
/// idles, any other pet (asleep, happy, scared, sitting, idle) keeps its
/// state; its facing, frame and affection never change.  When the mouse
/// leaves, only an idle pet starts walking again, the way it faces; any
/// other state is kept.
pub proof fn law_hover_stops_only_walking(p: Pet)
    ensures
        p.hovered().mouse_hovering,
        (p.state == PetState::WalkRight || p.state == PetState::WalkLeft) ==> p.hovered().state
            == PetState::Idle,
        !(p.state == PetState::WalkRight || p.state == PetState::WalkLeft) ==> p.hovered().state
            == p.state,
        p.hovered().direction == p.direction,
        p.hovered().anim_frame == p.anim_frame,
        p.hovered().affection == p.affection,
        !p.left_alone().mouse_hovering,
        p.state != PetState::Idle ==> p.left_alone().state == p.state,
        p.state == PetState::Idle && p.direction == Direction::Right ==> p.left_alone().state
            == PetState::WalkRight,
        p.state == PetState::Idle && p.direction == Direction::Left ==> p.left_alone().state
            == PetState::WalkLeft,
        p.left_alone().direction == p.direction,
        p.left_alone().anim_frame == p.anim_frame,
{
}

/// A clicked pet stays scared (or sitting) while its hold timer runs, and
/// when the timer runs out it walks on the way it faces, or idles when the
/// mouse is over it.
pub proof fn law_temporary_state_ends_on_expiry(
    p: Pet,
    s: PetState,
    frame_due: bool,
    edge_reached: bool,
)
    requires
        p.wf(),
        is_temporary(s),
    ensures
        p.startled_into(s).ticked(frame_due, false, edge_reached).state == s,
        p.startled_into(s).ticked(frame_due, true, edge_reached).state == (if p.mouse_hovering {
            PetState::Idle
        } else {
            walk_state(p.direction)
        }),
        p.startled_into(s).ticked(frame_due, true, edge_reached).direction == p.direction,
{
}

/// Converting pixels from RGBA to BGRA and back gives the pixels again.
pub proof fn law_channel_swap_round_trip(v: Seq<u8>)
    requires
        v.len() % 4 == 0,
    ensures
        swap_red_blue(swap_red_blue(v)) == v,
{
    assert(swap_red_blue(swap_red_blue(v)) =~= v);
}

/// Every frame of a sprite sheet lies inside the sheet.
pub proof fn law_sheet_frames_inside_sheet(
    sheet_w: u32,
    sheet_h: u32,
    frames_per_row: u32,
    rows: u32,
    k: int,
)
    requires
        frames_per_row > 0,
        rows > 0,
        0 <= k < sheet_frames(sheet_w, sheet_h, frames_per_row, rows).len(),
    ensures
        sheet_frames(sheet_w, sheet_h, frames_per_row, rows)[k].x + sheet_frames(
            sheet_w,
            sheet_h,
            frames_per_row,
            rows,
        )[k].w <= sheet_w,
        sheet_frames(sheet_w, sheet_h, frames_per_row, rows)[k].y + sheet_frames(
            sheet_w,
            sheet_h,
            frames_per_row,
            rows,
        )[k].h <= sheet_h,
{
    let n = frames_per_row as int;
    assert(k < rows * n);
    assert(0 <= k / n < rows) by (nonlinear_arith)
        requires
            0 <= k < rows * n,
            n > 0,
    ;
    assert(0 <= k % n < n) by (nonlinear_arith)
        requires
            n > 0,
    ;
    lemma_offset_fits(k % n, n, sheet_w as int);
    lemma_offset_fits(k / n, rows as int, sheet_h as int);
}

/// A sleeping, happy or idle pet keeps its state and facing on every tick;
/// only its animation frame moves.
pub proof fn law_resting_pet_stays(p: Pet, frame_due: bool, timer_expired: bool, edge_reached: bool)
    requires
        is_resting(p.state),
    ensures
        p.ticked(frame_due, timer_expired, edge_reached).state == p.state,
        p.ticked(frame_due, timer_expired, edge_reached).direction == p.direction,
{
}

/// A walking pet that reaches the right edge turns left and is happy; one
/// that reaches the left edge turns right and falls asleep; otherwise it
/// keeps walking the way it faces.
pub proof fn law_edge_turns_pet(p: Pet, frame_due: bool, timer_expired: bool)
    requires
        p.wf(),
        is_walking(p.state),
    ensures
        p.direction == Direction::Right ==> p.ticked(frame_due, timer_expired, true).state
            == PetState::Happy && p.ticked(frame_due, timer_expired, true).direction
            == Direction::Left,
        p.direction == Direction::Left ==> p.ticked(frame_due, timer_expired, true).state
            == PetState::Sleep && p.ticked(frame_due, timer_expired, true).direction
            == Direction::Right,
        p.ticked(frame_due, timer_expired, false) == (Pet {
            anim_frame: p.next_frame(frame_due),
            ..p
        }),
{
}

/// The pet after `n` ticks on each of which a frame was due and nothing
/// else happened.
pub open spec fn ticked_n(p: Pet, n: nat) -> Pet
    decreases n,
{
    if n == 0 {
        p
    } else {
        ticked_n(p, (n - 1) as nat).ticked(true, false, false)
    }
}

proof fn lemma_frames_advance(p: Pet, n: nat)
    requires
        p.wf(),
        p.frames_per_row > 0,
    ensures
        ticked_n(p, n).anim_frame == (p.anim_frame + n) % (p.frames_per_row as int),
        ticked_n(p, n).frames_per_row == p.frames_per_row,
        ticked_n(p, n).wf(),
    decreases n,
{
    let m = p.frames_per_row as int;
    if n == 0 {
        vstd::arithmetic::div_mod::lemma_small_mod(p.anim_frame as nat, m as nat);
    } else {
        lemma_frames_advance(p, (n - 1) as nat);
        let x = p.anim_frame + n - 1;
        vstd::arithmetic::div_mod::lemma_add_mod_noop(x, 1, m);
        if m > 1 {
            vstd::arithmetic::div_mod::lemma_small_mod(1, m as nat);
        }
        vstd::arithmetic::div_mod::lemma_mod_twice(x, m);
    }
}

/// Animation frames cycle through the row: after `n` frame steps the frame
/// has moved on by `n` modulo the row length, so after a whole row it is
/// back where it started.
pub proof fn law_frames_cycle(p: Pet, n: nat)
    requires
        p.wf(),
        p.frames_per_row > 0,
    ensures
        ticked_n(p, n).anim_frame == (p.anim_frame + n) % (p.frames_per_row as int),
        ticked_n(p, n).wf(),
        ticked_n(p, p.frames_per_row as nat).anim_frame == p.anim_frame,
{
    let m = p.frames_per_row as int;
    lemma_frames_advance(p, n);
    lemma_frames_advance(p, m as nat);
    vstd::arithmetic::div_mod::lemma_mod_add_multiples_vanish(p.anim_frame as int, m);
    vstd::arithmetic::div_mod::lemma_small_mod(p.anim_frame as nat, m as nat);
}

/// After a tick a walking pet walks the way it faces, whatever state it was
/// in before.
pub proof fn law_tick_aligns_walk_with_facing(
    p: Pet,
    frame_due: bool,
    timer_expired: bool,
    edge_reached: bool,
)
    ensures
        is_walking(p.ticked(frame_due, timer_expired, edge_reached).state) ==> p.ticked(
            frame_due,
            timer_expired,
            edge_reached,
        ).state == walk_state(p.ticked(frame_due, timer_expired, edge_reached).direction),
{
}

/// Every operation keeps the invariant: the shown frame stays in the row
/// and a walking state points the way the pet faces.
pub proof fn law_invariant_kept(p: Pet, frame_due: bool, timer_expired: bool, edge_reached: bool)
    requires
        p.wf(),
        frame_due ==> p.frames_per_row > 0,
    ensures
        p.ticked(frame_due, timer_expired, edge_reached).wf(),
        p.hovered().wf(),
        p.left_alone().wf(),
        p.startled_into(PetState::Scared).wf(),
        p.startled_into(PetState::Sit).wf(),
{
}

} // verus!
