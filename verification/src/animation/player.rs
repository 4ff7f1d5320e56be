use vstd::prelude::*;

use crate::pet::entity::FrameRect;

verus! {

/// Plays one row of a sprite sheet frame by frame.  The frame timer (in
/// seconds) is kept by the caller, which calls `update` with `frame_due`
/// set when one frame duration has passed.
#[derive(Debug, Clone, Copy, PartialEq, Eq, Structural)]
pub struct AnimationPlayer {
    /// The row being played (one row per state).
    pub current_row: usize,
    /// The frame shown, counted from the start of the row.
    pub current_frame: usize,
    /// Number of frames in the row.
    pub total_frames: usize,
    /// Whether the animation advances.
    pub playing: bool,
    /// Whether to stop on the last frame instead of looping.
    pub pause_on_complete: bool,
    /// Whether a play-once animation has reached its last frame.
    pub completed_once: bool,
}

impl AnimationPlayer {
    /// The shown frame lies in the row (or is the first one).
    pub open spec fn wf(self) -> bool {
        self.current_frame == 0 || self.current_frame < self.total_frames
    }

    /// The player after `switch_to(row, frame_count, pause_on_complete)`.
    pub open spec fn switched(self, row: usize, frame_count: usize, pause_on_complete: bool) -> Self {
        if self.current_row != row || !self.playing {
            AnimationPlayer {
                current_row: row,
                current_frame: 0,
                total_frames: frame_count,
                playing: true,
                pause_on_complete,
                completed_once: false,
            }
        } else {
            self
        }
    }

    /// The player after one `update`.
    pub open spec fn stepped(self, frame_due: bool) -> Self {
        if !self.playing || !frame_due {
            self
        } else if self.current_frame + 1 < self.total_frames {
            AnimationPlayer { current_frame: (self.current_frame + 1) as usize, ..self }
        } else if self.pause_on_complete {
            AnimationPlayer {
                current_frame: (self.total_frames - 1) as usize,
                playing: false,
                completed_once: true,
                ..self
            }
        } else {
            AnimationPlayer { current_frame: 0, ..self }
        }
    }

    /// A player at the first frame of row 0 with `frames_per_row` frames,
    /// looping.
    pub fn new(frames_per_row: u32) -> (a: Self)
        ensures
            a == (AnimationPlayer {
                current_row: 0,
                current_frame: 0,
                total_frames: frames_per_row as usize,
                playing: true,
                pause_on_complete: false,
                completed_once: false,
            }),
            a.wf(),
    {
        AnimationPlayer {
            current_row: 0,
            current_frame: 0,
            total_frames: frames_per_row as usize,
            playing: true,
            pause_on_complete: false,
            completed_once: false,
        }
    }

    /// Switches to a new animation row; returns whether the animation
    /// restarted (the caller then restarts its frame timer).
    pub fn switch_to(&mut self, row: usize, frame_count: usize, pause_on_complete: bool) -> (restarted:
        bool)
        ensures
            *final(self) == old(self).switched(row, frame_count, pause_on_complete),
            restarted == (old(self).current_row != row || !old(self).playing),
            old(self).wf() ==> final(self).wf(),
    {
        if self.current_row != row || !self.playing {
            self.current_row = row;
            self.current_frame = 0;
            self.total_frames = frame_count;
            self.playing = true;
            self.pause_on_complete = pause_on_complete;
            self.completed_once = false;
            true
        } else {
            false
        }
    }

    /// One update: when playing and a frame is due, show the next frame,
    /// looping to the first or stopping on the last at the end of the row.
    pub fn update(&mut self, frame_due: bool)
        requires
            old(self).playing && frame_due ==> old(self).current_frame < usize::MAX,
            old(self).playing && frame_due && old(self).pause_on_complete ==> old(
                self,
            ).total_frames > 0,
        ensures
            *final(self) == old(self).stepped(frame_due),
            old(self).wf() ==> final(self).wf(),
    {
        if !self.playing {
            return ;
        }
        if frame_due {
            self.current_frame += 1;
            if self.current_frame >= self.total_frames {
                if self.pause_on_complete {
                    self.current_frame = self.total_frames - 1;
                    self.playing = false;
                    self.completed_once = true;
                } else {
                    self.current_frame = 0;
                }
            }
        }
    }

    /// The source rectangle of the shown frame in the sprite sheet.
    pub fn source_rect(&self, frame_width: u32, frame_height: u32) -> (r: FrameRect)
        requires
            (self.current_frame as u32) * frame_width <= u32::MAX,
            (self.current_row as u32) * frame_height <= u32::MAX,
        ensures
            r == (FrameRect {
                x: ((self.current_frame as u32) * frame_width) as u32,
                y: ((self.current_row as u32) * frame_height) as u32,
                w: frame_width,
                h: frame_height,
            }),
    {
        FrameRect {
            x: self.current_frame as u32 * frame_width,
            y: self.current_row as u32 * frame_height,
            w: frame_width,
            h: frame_height,
        }
    }
}

/// Switching to the row that is already playing changes nothing.
pub proof fn law_switch_to_playing_row_is_noop(
    a: AnimationPlayer,
    frame_count: usize,
    pause_on_complete: bool,
)
    requires
        a.playing,
    ensures
        a.switched(a.current_row, frame_count, pause_on_complete) == a,
{
}

/// Switching to another row, or switching a stopped player, starts the new
/// animation from its first frame: the row, frame count and play mode are
/// the ones asked for, and it plays and has not completed, whatever frame
/// was shown before.
pub proof fn law_switch_restarts_from_first_frame(
    a: AnimationPlayer,
    row: usize,
    frame_count: usize,
    pause_on_complete: bool,
)
    requires
        a.current_row != row || !a.playing,
    ensures
        a.switched(row, frame_count, pause_on_complete).current_frame == 0,
        a.switched(row, frame_count, pause_on_complete).current_row == row,
        a.switched(row, frame_count, pause_on_complete).total_frames == frame_count,
        a.switched(row, frame_count, pause_on_complete).playing,
        a.switched(row, frame_count, pause_on_complete).pause_on_complete == pause_on_complete,
        !a.switched(row, frame_count, pause_on_complete).completed_once,
{
}

/// A play-once animation stops on its last frame and then stays there:
/// further updates change nothing.
pub proof fn law_play_once_stops_on_last_frame(a: AnimationPlayer, frame_due: bool)
    requires
        a.wf(),
        a.playing,
        a.pause_on_complete,
        a.total_frames > 0,
        a.current_frame + 1 == a.total_frames,
    ensures
        a.stepped(true).current_frame == a.total_frames - 1,
        !a.stepped(true).playing,
        a.stepped(true).completed_once,
        a.stepped(true).stepped(frame_due) == a.stepped(true),
{
}

/// A looping animation steps through its row and wraps back to the first
/// frame after the last one.
pub proof fn law_loop_wraps(a: AnimationPlayer)
    requires
        a.wf(),
        a.playing,
        !a.pause_on_complete,
        a.total_frames > 0,
    ensures
        a.stepped(true).current_frame == (a.current_frame + 1) % (a.total_frames as int),
        a.stepped(true).playing,
{
    let n = a.total_frames as int;
    if a.current_frame + 1 < n {
        vstd::arithmetic::div_mod::lemma_small_mod((a.current_frame + 1) as nat, n as nat);
    } else {
        vstd::arithmetic::div_mod::lemma_mod_self_0(n);
    }
}

} // verus!
