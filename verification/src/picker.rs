//! The decisions of the full-screen picker: what each key, click, wheel turn or cursor move
//! does to the picker's state, and what the magnifier shows.
//!
//! The window, the screen capture and the message loop live outside the library; they hand
//! each event to these functions and perform the action that comes back.

use vstd::prelude::*;

use crate::common::{
    dark_text_spec, format_labeled_hex_color, labeled_hex_color, should_use_dark_text,
    ColorPickerResult,
};

verus! {

/// Smallest magnifier zoom factor (screen pixels per captured pixel).
pub const ZOOM_MIN: u32 = 15;

/// Largest magnifier zoom factor.
pub const ZOOM_MAX: u32 = 50;

/// Change of the zoom factor per key press or wheel notch.
pub const ZOOM_STEP: u32 = 2;

/// Zoom factor when the picker opens.
pub const INITIAL_ZOOM_FACTOR: u32 = 20;

/// Side of the captured square, in pixels, when the picker opens.
pub const CAPTURED_PIXELS: u32 = 8;

/// Smallest side of the captured square once it has been changed.
pub const CAPTURED_PIXELS_MIN: u32 = 9;

/// Largest side of the captured square.
pub const CAPTURED_PIXELS_MAX: u32 = 21;

/// Change of the captured square's side per key press or wheel notch.
pub const CAPTURED_PIXELS_STEP: u32 = 2;

/// Distance in pixels of one arrow-key move with Shift held (one pixel without).
pub const SHIFT_MOVE_PIXELS: i32 = 50;

/// Grey shown for a captured pixel that lies outside the screen.
pub const OUTSIDE_SCREEN_GRAY: u8 = 64;

/// Grey shown for a captured pixel whose data is missing from the capture.
pub const MISSING_DATA_GRAY: u8 = 128;

/// Grey of an arc whose colour has not been chosen yet.
pub const UNCHOSEN_GRAY: u8 = 128;

/// The whole state of one picker session.
pub struct PickerState {
    pub cursor_x: i32,
    pub cursor_y: i32,
    /// Colour under the cursor.
    pub color: (u8, u8, u8),
    /// Foreground colour chosen so far.
    pub fg_color: Option<(u8, u8, u8)>,
    /// Background colour chosen so far.
    pub bg_color: Option<(u8, u8, u8)>,
    /// Whether the next click chooses the foreground (`true`) or the background.
    pub fg_mode: bool,
    /// In continue mode one session chooses both colours.
    pub continue_mode: bool,
    pub zoom: u32,
    pub captured: u32,
    /// Set when the session is over.
    pub quit: bool,
    pub screen_width: i32,
    pub screen_height: i32,
}

/// The keys the picker reacts to; every other key is `Other`.
#[derive(Clone, Copy, Debug, PartialEq, Eq)]
pub enum PickerKey {
    Escape,
    Return,
    Space,
    C,
    I,
    O,
    Left,
    Right,
    Up,
    Down,
    Other,
}

/// What the window must do after a key press.
#[derive(Clone, Copy, Debug, PartialEq, Eq)]
pub enum KeyOutcome {
    /// End the message loop.
    Quit,
    /// Repaint the window.
    Redraw,
    /// Put the system cursor at this position, sample its colour with
    /// `update_cursor_pos`, and repaint.
    MoveCursor(i32, i32),
    /// Nothing to do.
    Ignored,
}

/// One half-ring of the magnifier: its colour and the label drawn along it.
pub struct ArcLabel {
    pub color: (u8, u8, u8),
    /// `Foreground - #RRGGBB` or `Background - #RRGGBB`.
    pub text: String,
    /// Whether the label is drawn in black (`true`) or white.
    pub dark_text: bool,
    /// Whether the red continue-mode badge follows the label.
    pub badge: bool,
}

/// The state's invariant: zoom and captured square stay within their bounds.
pub open spec fn zoom_in_bounds(zoom: u32) -> bool {
    ZOOM_MIN <= zoom <= ZOOM_MAX
}

/// The captured square's side is its initial value or within its bounds.
pub open spec fn captured_in_bounds(captured: u32) -> bool {
    CAPTURED_PIXELS <= captured <= CAPTURED_PIXELS_MAX
}

/// `a + step`, no larger than `max` (the computation is exact on integers).
pub open spec fn step_up(a: u32, step: u32, max: u32) -> u32 {
    if a + step < max {
        (a + step) as u32
    } else {
        max
    }
}

/// `a - step`, no smaller than `min`.
pub open spec fn step_down(a: u32, step: u32, min: u32) -> u32 {
    if a - step > min {
        (a - step) as u32
    } else {
        min
    }
}

/// Whether a screen of this size fits a four-byte-per-pixel buffer indexed by `i32`.
pub open spec fn screen_fits(width: i32, height: i32) -> bool {
    width <= 0 || height <= 0 || width * height * 4 <= i32::MAX
}

/// Byte offset of pixel `(x, y)` in a top-down BGRA capture of the given width.
pub open spec fn pixel_offset(width: i32, x: i32, y: i32) -> int {
    (y * width + x) * 4
}

/// Whether `(x, y)` lies on a screen of the given size.
pub open spec fn on_screen(width: i32, height: i32, x: i32, y: i32) -> bool {
    0 <= x < width && 0 <= y < height
}

/// Whether the capture holds the three colour bytes of the on-screen pixel `(x, y)`.
pub open spec fn pixel_available(data: Seq<u8>, width: i32, height: i32, x: i32, y: i32) -> bool {
    on_screen(width, height, x, y) && pixel_offset(width, x, y) + 2 < data.len()
}

/// The RGB colour of the capture's pixel at offset `idx` (the bytes are stored blue first).
pub open spec fn rgb_at(data: Seq<u8>, idx: int) -> (u8, u8, u8) {
    (data[idx + 2], data[idx + 1], data[idx])
}

/// Colour read at `(x, y)`: the pixel's colour, or black when it is not in the capture.
pub open spec fn pixel_color_spec(data: Seq<u8>, width: i32, height: i32, x: i32, y: i32) -> (
    u8,
    u8,
    u8,
) {
    if pixel_available(data, width, height, x, y) {
        rgb_at(data, pixel_offset(width, x, y))
    } else {
        (0, 0, 0)
    }
}

/// Colour of one magnifier cell: the pixel's colour, a dark grey off screen, a mid grey
/// where the capture lacks the pixel.
pub open spec fn magnifier_pixel_spec(data: Seq<u8>, width: i32, height: i32, x: i32, y: i32) -> (
    u8,
    u8,
    u8,
) {
    if !on_screen(width, height, x, y) {
        (OUTSIDE_SCREEN_GRAY, OUTSIDE_SCREEN_GRAY, OUTSIDE_SCREEN_GRAY)
    } else if pixel_offset(width, x, y) + 2 < data.len() {
        rgb_at(data, pixel_offset(width, x, y))
    } else {
        (MISSING_DATA_GRAY, MISSING_DATA_GRAY, MISSING_DATA_GRAY)
    }
}

/// Whether a screen of this size can be sampled: its four-byte-per-pixel capture is
/// indexable by `i32`.
pub fn screen_size_fits(width: i32, height: i32) -> (fits: bool)
    ensures
        fits == screen_fits(width, height),
{
    if width <= 0 || height <= 0 {
        true
    } else {
        assert(0 < (width as i64) * (height as i64) <= (i32::MAX as i64) * (i32::MAX as i64))
            by (nonlinear_arith)
            requires
                0 < width,
                0 < height,
        ;
        (width as i64) * (height as i64) <= 536870911
    }
}

/// The byte offset of an on-screen pixel, computed without overflow.
fn pixel_index(width: i32, height: i32, x: i32, y: i32) -> (idx: usize)
    requires
        screen_fits(width, height),
        on_screen(width, height, x, y),
    ensures
        idx == pixel_offset(width, x, y),
        idx < width * height * 4,
{
    assert(y * width + x < width * height) by (nonlinear_arith)
        requires
            0 <= x < width,
            0 <= y < height,
    ;
    assert(0 <= y * width) by (nonlinear_arith)
        requires
            0 <= y,
            0 <= width,
    ;
    ((y * width + x) * 4) as usize
}

/// The colour of pixel `(x, y)` in a top-down BGRA screen capture of the given size, or
/// black when the pixel is off screen or missing from the capture.
pub fn get_pixel_color(data: &[u8], width: i32, height: i32, x: i32, y: i32) -> (color: (
    u8,
    u8,
    u8,
))
    requires
        screen_fits(width, height),
    ensures
        color == pixel_color_spec(data@, width, height, x, y),
{
    if x >= 0 && x < width && y >= 0 && y < height {
        let idx = pixel_index(width, height, x, y);
        if idx + 2 < data.len() {
            let b = data[idx];
            let g = data[idx + 1];
            let r = data[idx + 2];
            return (r, g, b);
        }
    }
    (0, 0, 0)
}

/// The colour of the magnifier cell that shows screen pixel `(x, y)`.
pub fn magnifier_pixel(data: &[u8], width: i32, height: i32, x: i32, y: i32) -> (color: (
    u8,
    u8,
    u8,
))
    requires
        screen_fits(width, height),
    ensures
        color == magnifier_pixel_spec(data@, width, height, x, y),
{
    if x >= 0 && x < width && y >= 0 && y < height {
        let idx = pixel_index(width, height, x, y);
        if idx + 2 < data.len() {
            (data[idx + 2], data[idx + 1], data[idx])
        } else {
            (MISSING_DATA_GRAY, MISSING_DATA_GRAY, MISSING_DATA_GRAY)
        }
    } else {
        (OUTSIDE_SCREEN_GRAY, OUTSIDE_SCREEN_GRAY, OUTSIDE_SCREEN_GRAY)
    }
}

/// `a + step`, capped at `max`.
fn increase_capped(a: u32, step: u32, max: u32) -> (res: u32)
    ensures
        res == step_up(a, step, max),
{
    let sum = a.saturating_add(step);
    if sum < max {
        sum
    } else {
        max
    }
}

/// `a - step`, floored at `min`.
fn decrease_floored(a: u32, step: u32, min: u32) -> (res: u32)
    ensures
        res == step_down(a, step, min),
{
    if a >= step && a - step > min {
        a - step
    } else {
        min
    }
}

impl PickerState {
    /// The state every session starts from (before the screen is measured).
    pub open spec fn initial_spec(screen_width: i32, screen_height: i32) -> PickerState {
        PickerState {
            cursor_x: 0,
            cursor_y: 0,
            color: (0, 0, 0),
            fg_color: None,
            bg_color: None,
            fg_mode: true,
            continue_mode: false,
            zoom: INITIAL_ZOOM_FACTOR,
            captured: CAPTURED_PIXELS,
            quit: false,
            screen_width,
            screen_height,
        }
    }

    /// The invariant every reachable state keeps: zoom and captured square within bounds.
    pub open spec fn wf(&self) -> bool {
        zoom_in_bounds(self.zoom) && captured_in_bounds(self.captured)
    }

    /// Whether choosing a colour now ends the session: always outside continue mode, and in
    /// continue mode once the other colour has been chosen before.
    pub open spec fn selection_ends(self) -> bool {
        !self.continue_mode || (if self.fg_mode {
            self.bg_color is Some
        } else {
            self.fg_color is Some
        })
    }

    /// The state after choosing the colour under the cursor.
    pub open spec fn select_spec(self) -> PickerState {
        let chosen_fg = if self.fg_mode { Some(self.color) } else { self.fg_color };
        let chosen_bg = if self.fg_mode { self.bg_color } else { Some(self.color) };
        let ends = self.selection_ends();
        PickerState {
            fg_color: chosen_fg,
            bg_color: chosen_bg,
            fg_mode: if ends { self.fg_mode } else { !self.fg_mode },
            quit: if ends { true } else { self.quit },
            ..self
        }
    }

    /// A fresh state: nothing chosen, foreground mode, initial zoom, no screen yet.
    pub fn new() -> (s: Self)
        ensures
            s == Self::initial_spec(0, 0),
            s.wf(),
    {
        PickerState {
            cursor_x: 0,
            cursor_y: 0,
            color: (0, 0, 0),
            fg_color: None,
            bg_color: None,
            fg_mode: true,
            continue_mode: false,
            zoom: INITIAL_ZOOM_FACTOR,
            captured: CAPTURED_PIXELS,
            quit: false,
            screen_width: 0,
            screen_height: 0,
        }
    }

    /// Returns the state to its initial values; the screen size is kept.
    pub fn reset(&mut self)
        ensures
            *final(self) == Self::initial_spec(old(self).screen_width, old(self).screen_height),
            final(self).wf(),
    {
        self.cursor_x = 0;
        self.cursor_y = 0;
        self.color = (0, 0, 0);
        self.fg_color = None;
        self.bg_color = None;
        self.fg_mode = true;
        self.continue_mode = false;
        self.zoom = INITIAL_ZOOM_FACTOR;
        self.captured = CAPTURED_PIXELS;
        self.quit = false;
    }

    /// Starts a session: reset, then choose the foreground (`fg`) or the background first.
    pub fn start(&mut self, fg: bool)
        ensures
            *final(self) == (PickerState {
                fg_mode: fg,
                ..Self::initial_spec(old(self).screen_width, old(self).screen_height)
            }),
            final(self).wf(),
    {
        self.reset();
        self.fg_mode = fg;
    }

    /// Records the size of the screen that was captured.
    pub fn set_screen_size(&mut self, width: i32, height: i32)
        ensures
            *final(self) == (PickerState {
                screen_width: width,
                screen_height: height,
                ..*old(self)
            }),
    {
        self.screen_width = width;
        self.screen_height = height;
    }

    /// Moves the cursor to `(x, y)` and samples the colour there from the capture.
    pub fn update_cursor_pos(&mut self, data: &[u8], x: i32, y: i32)
        requires
            screen_fits(old(self).screen_width, old(self).screen_height),
        ensures
            *final(self) == (PickerState {
                cursor_x: x,
                cursor_y: y,
                color: pixel_color_spec(
                    data@,
                    old(self).screen_width,
                    old(self).screen_height,
                    x,
                    y,
                ),
                ..*old(self)
            }),
    {
        let color = get_pixel_color(data, self.screen_width, self.screen_height, x, y);
        self.cursor_x = x;
        self.cursor_y = y;
        self.color = color;
    }

    /// Chooses the colour under the cursor for the current mode. Without continue mode
    /// the session ends; in continue mode it ends once both colours are chosen, and
    /// otherwise switches to the other mode. Returns whether the session ended.
    pub fn select_color(&mut self) -> (should_quit: bool)
        ensures
            *final(self) == old(self).select_spec(),
            should_quit == old(self).selection_ends(),
            old(self).wf() ==> final(self).wf(),
    {
        let color = self.color;
        if self.continue_mode {
            let has_other = if self.fg_mode {
                self.bg_color.is_some()
            } else {
                self.fg_color.is_some()
            };
            if self.fg_mode {
                self.fg_color = Some(color);
            } else {
                self.bg_color = Some(color);
            }
            if has_other {
                self.quit = true;
                true
            } else {
                self.fg_mode = !self.fg_mode;
                false
            }
        } else {
            if self.fg_mode {
                self.fg_color = Some(color);
            } else {
                self.bg_color = Some(color);
            }
            self.quit = true;
            true
        }
    }

    /// Ends the session without choosing (Escape or a right click).
    pub fn cancel(&mut self)
        ensures
            *final(self) == (PickerState { quit: true, ..*old(self) }),
    {
        self.quit = true;
    }

    /// Enlarges the magnifier: the captured square with Shift, the zoom otherwise.
    pub fn zoom_in(&mut self, shift: bool)
        ensures
            *final(self) == (if shift {
                PickerState {
                    captured: step_up(old(self).captured, CAPTURED_PIXELS_STEP, CAPTURED_PIXELS_MAX),
                    ..*old(self)
                }
            } else {
                PickerState { zoom: step_up(old(self).zoom, ZOOM_STEP, ZOOM_MAX), ..*old(self) }
            }),
            old(self).wf() ==> final(self).wf(),
    {
        if shift {
            self.captured = increase_capped(self.captured, CAPTURED_PIXELS_STEP, CAPTURED_PIXELS_MAX);
        } else {
            self.zoom = increase_capped(self.zoom, ZOOM_STEP, ZOOM_MAX);
        }
    }

    /// Shrinks the magnifier: the captured square with Shift, the zoom otherwise.
    pub fn zoom_out(&mut self, shift: bool)
        ensures
            *final(self) == (if shift {
                PickerState {
                    captured: step_down(
                        old(self).captured,
                        CAPTURED_PIXELS_STEP,
                        CAPTURED_PIXELS_MIN,
                    ),
                    ..*old(self)
                }
            } else {
                PickerState { zoom: step_down(old(self).zoom, ZOOM_STEP, ZOOM_MIN), ..*old(self) }
            }),
            old(self).wf() ==> final(self).wf(),
    {
        if shift {
            self.captured = decrease_floored(self.captured, CAPTURED_PIXELS_STEP, CAPTURED_PIXELS_MIN);
        } else {
            self.zoom = decrease_floored(self.zoom, ZOOM_STEP, ZOOM_MIN);
        }
    }

    /// A wheel turn: away from the user (`delta > 0`) zooms in, towards the user zooms out.
    pub fn handle_wheel(&mut self, shift: bool, delta: i16)
        ensures
            delta > 0 ==> *final(self) == (if shift {
                PickerState {
                    captured: step_up(old(self).captured, CAPTURED_PIXELS_STEP, CAPTURED_PIXELS_MAX),
                    ..*old(self)
                }
            } else {
                PickerState { zoom: step_up(old(self).zoom, ZOOM_STEP, ZOOM_MAX), ..*old(self) }
            }),
            delta <= 0 ==> *final(self) == (if shift {
                PickerState {
                    captured: step_down(
                        old(self).captured,
                        CAPTURED_PIXELS_STEP,
                        CAPTURED_PIXELS_MIN,
                    ),
                    ..*old(self)
                }
            } else {
                PickerState { zoom: step_down(old(self).zoom, ZOOM_STEP, ZOOM_MIN), ..*old(self) }
            }),
            old(self).wf() ==> final(self).wf(),
    {
        if delta > 0 {
            self.zoom_in(shift);
        } else {
            self.zoom_out(shift);
        }
    }

    /// A key press, with the Shift state and the current system cursor position.
    pub fn handle_key(&mut self, key: PickerKey, shift: bool, cursor_x: i32, cursor_y: i32) -> (out:
        KeyOutcome)
        requires
            i32::MIN + SHIFT_MOVE_PIXELS <= cursor_x <= i32::MAX - SHIFT_MOVE_PIXELS,
            i32::MIN + SHIFT_MOVE_PIXELS <= cursor_y <= i32::MAX - SHIFT_MOVE_PIXELS,
        ensures
            old(self).wf() ==> final(self).wf(),
            ({
                let amt: i32 = if shift { SHIFT_MOVE_PIXELS } else { 1 };
                match key {
                    PickerKey::Escape => out == KeyOutcome::Quit && *final(self) == (PickerState {
                        quit: true,
                        ..*old(self)
                    }),
                    PickerKey::Return | PickerKey::Space => *final(self) == old(self).select_spec()
                        && out == (if old(self).selection_ends() {
                        KeyOutcome::Quit
                    } else {
                        KeyOutcome::Redraw
                    }),
                    PickerKey::C => out == KeyOutcome::Redraw && *final(self) == (PickerState {
                        continue_mode: !old(self).continue_mode,
                        ..*old(self)
                    }),
                    PickerKey::I => out == KeyOutcome::Redraw && *final(self) == (if shift {
                        PickerState {
                            captured: step_up(
                                old(self).captured,
                                CAPTURED_PIXELS_STEP,
                                CAPTURED_PIXELS_MAX,
                            ),
                            ..*old(self)
                        }
                    } else {
                        PickerState {
                            zoom: step_up(old(self).zoom, ZOOM_STEP, ZOOM_MAX),
                            ..*old(self)
                        }
                    }),
                    PickerKey::O => out == KeyOutcome::Redraw && *final(self) == (if shift {
                        PickerState {
                            captured: step_down(
                                old(self).captured,
                                CAPTURED_PIXELS_STEP,
                                CAPTURED_PIXELS_MIN,
                            ),
                            ..*old(self)
                        }
                    } else {
                        PickerState {
                            zoom: step_down(old(self).zoom, ZOOM_STEP, ZOOM_MIN),
                            ..*old(self)
                        }
                    }),
                    PickerKey::Left => out == KeyOutcome::MoveCursor(
                        (cursor_x - amt) as i32,
                        cursor_y,
                    ) && *final(self) == *old(self),
                    PickerKey::Right => out == KeyOutcome::MoveCursor(
                        (cursor_x + amt) as i32,
                        cursor_y,
                    ) && *final(self) == *old(self),
                    PickerKey::Up => out == KeyOutcome::MoveCursor(
                        cursor_x,
                        (cursor_y - amt) as i32,
                    ) && *final(self) == *old(self),
                    PickerKey::Down => out == KeyOutcome::MoveCursor(
                        cursor_x,
                        (cursor_y + amt) as i32,
                    ) && *final(self) == *old(self),
                    PickerKey::Other => out == KeyOutcome::Ignored && *final(self) == *old(self),
                }
            }),
    {
        match key {
            PickerKey::Escape => {
                self.cancel();
                KeyOutcome::Quit
            },
            PickerKey::Return | PickerKey::Space => {
                if self.select_color() {
                    KeyOutcome::Quit
                } else {
                    KeyOutcome::Redraw
                }
            },
            PickerKey::C => {
                self.continue_mode = !self.continue_mode;
                KeyOutcome::Redraw
            },
            PickerKey::I => {
                self.zoom_in(shift);
                KeyOutcome::Redraw
            },
            PickerKey::O => {
                self.zoom_out(shift);
                KeyOutcome::Redraw
            },
            PickerKey::Left | PickerKey::Right | PickerKey::Up | PickerKey::Down => {
                let amt: i32 = if shift {
                    SHIFT_MOVE_PIXELS
                } else {
                    1
                };
                match key {
                    PickerKey::Left => KeyOutcome::MoveCursor(cursor_x - amt, cursor_y),
                    PickerKey::Right => KeyOutcome::MoveCursor(cursor_x + amt, cursor_y),
                    PickerKey::Up => KeyOutcome::MoveCursor(cursor_x, cursor_y - amt),
                    _ => KeyOutcome::MoveCursor(cursor_x, cursor_y + amt),
                }
            },
            PickerKey::Other => KeyOutcome::Ignored,
        }
    }

    /// What the session produced: the chosen colours and the continue-mode flag.
    pub fn result(&self) -> (res: ColorPickerResult)
        ensures
            res.foreground == self.fg_color,
            res.background == self.bg_color,
            res.continue_mode == self.continue_mode,
    {
        ColorPickerResult {
            foreground: self.fg_color,
            background: self.bg_color,
            continue_mode: self.continue_mode,
        }
    }
}

impl PickerState {
    /// The colour shown on the foreground arc: the live colour while choosing the
    /// foreground, else the chosen foreground, else grey.
    pub open spec fn fg_arc_color(self) -> (u8, u8, u8) {
        if self.fg_mode {
            self.color
        } else {
            match self.fg_color {
                Some(c) => c,
                None => (UNCHOSEN_GRAY, UNCHOSEN_GRAY, UNCHOSEN_GRAY),
            }
        }
    }

    /// The colour shown on the background arc.
    pub open spec fn bg_arc_color(self) -> (u8, u8, u8) {
        if !self.fg_mode {
            self.color
        } else {
            match self.bg_color {
                Some(c) => c,
                None => (UNCHOSEN_GRAY, UNCHOSEN_GRAY, UNCHOSEN_GRAY),
            }
        }
    }

    /// The foreground arc is drawn while choosing it or once it is chosen.
    pub open spec fn shows_fg_arc(self) -> bool {
        self.fg_mode || self.fg_color is Some
    }

    /// The background arc is drawn while choosing it or once it is chosen.
    pub open spec fn shows_bg_arc(self) -> bool {
        !self.fg_mode || self.bg_color is Some
    }

    /// The labels of the magnifier's two half-rings: the foreground one above, the
    /// background one below; `None` for an arc that is not drawn.
    pub fn arc_labels(&self) -> (labels: (Option<ArcLabel>, Option<ArcLabel>))
        ensures
            labels.0 is Some <==> self.shows_fg_arc(),
            labels.1 is Some <==> self.shows_bg_arc(),
            labels.0 matches Some(a) ==> {
                let (r, g, b) = self.fg_arc_color();
                &&& a.color == self.fg_arc_color()
                &&& a.text@ == labeled_hex_color("Foreground"@, r, g, b)
                &&& a.dark_text == dark_text_spec(r, g, b)
                &&& a.badge == (self.continue_mode && self.fg_mode)
            },
            labels.1 matches Some(a) ==> {
                let (r, g, b) = self.bg_arc_color();
                &&& a.color == self.bg_arc_color()
                &&& a.text@ == labeled_hex_color("Background"@, r, g, b)
                &&& a.dark_text == dark_text_spec(r, g, b)
                &&& a.badge == (self.continue_mode && !self.fg_mode)
            },
    {
        let unchosen = (UNCHOSEN_GRAY, UNCHOSEN_GRAY, UNCHOSEN_GRAY);
        let fg = if self.fg_mode {
            self.color
        } else {
            match self.fg_color {
                Some(c) => c,
                None => unchosen,
            }
        };
        let bg = if !self.fg_mode {
            self.color
        } else {
            match self.bg_color {
                Some(c) => c,
                None => unchosen,
            }
        };
        let fg_label = if self.fg_mode || self.fg_color.is_some() {
            let (r, g, b) = fg;
            Some(
                ArcLabel {
                    color: fg,
                    text: format_labeled_hex_color("Foreground", r, g, b),
                    dark_text: should_use_dark_text(r, g, b),
                    badge: self.continue_mode && self.fg_mode,
                },
            )
        } else {
            None
        };
        let bg_label = if !self.fg_mode || self.bg_color.is_some() {
            let (r, g, b) = bg;
            Some(
                ArcLabel {
                    color: bg,
                    text: format_labeled_hex_color("Background", r, g, b),
                    dark_text: should_use_dark_text(r, g, b),
                    badge: self.continue_mode && !self.fg_mode,
                },
            )
        } else {
            None
        };
        (fg_label, bg_label)
    }
}

/// Without continue mode one choice ends the session and keeps the colour under the cursor
/// for the current mode, leaving the other colour as it was.
pub proof fn lemma_single_pick_ends_session(s: PickerState)
    requires
        !s.continue_mode,
    ensures
        s.select_spec().quit,
        s.fg_mode ==> s.select_spec().fg_color == Some(s.color) && s.select_spec().bg_color
            == s.bg_color,
        !s.fg_mode ==> s.select_spec().bg_color == Some(s.color) && s.select_spec().fg_color
            == s.fg_color,
{
}

/// In continue mode a session that starts with nothing chosen goes on after the first
/// choice, in the other mode, and ends at the second, with both colours chosen: the first
/// for the mode the session started in, the second for the other one.
pub proof fn lemma_continue_mode_two_picks(s: PickerState, second: (u8, u8, u8))
    requires
        s.continue_mode,
        s.fg_color is None,
        s.bg_color is None,
        !s.quit,
    ensures
        !s.select_spec().quit,
        s.select_spec().fg_mode == !s.fg_mode,
        ({
            let s2 = PickerState { color: second, ..s.select_spec() }.select_spec();
            &&& s2.quit
            &&& s.fg_mode ==> s2.fg_color == Some(s.color) && s2.bg_color == Some(second)
            &&& !s.fg_mode ==> s2.bg_color == Some(s.color) && s2.fg_color == Some(second)
        }),
{
}

/// Zoom keys and wheel turns never leave the bounds: however many steps are taken in
/// either direction, the zoom stays between its minimum and maximum and the captured
/// square between its initial side and its maximum.
pub proof fn lemma_zoom_steps_stay_in_bounds(zoom: u32, captured: u32)
    requires
        zoom_in_bounds(zoom),
        captured_in_bounds(captured),
    ensures
        zoom_in_bounds(step_up(zoom, ZOOM_STEP, ZOOM_MAX)),
        zoom_in_bounds(step_down(zoom, ZOOM_STEP, ZOOM_MIN)),
        captured_in_bounds(step_up(captured, CAPTURED_PIXELS_STEP, CAPTURED_PIXELS_MAX)),
        captured_in_bounds(step_down(captured, CAPTURED_PIXELS_STEP, CAPTURED_PIXELS_MIN)),
{
}

/// Width of the coloured ring around the magnifier, in pixels.
pub const BORDER_WIDTH: i64 = 20;

/// Size of the label box under the magnifier.
pub const LABEL_WIDTH: i64 = 110;

/// Height of the label box under the magnifier.
pub const LABEL_HEIGHT: i64 = 22;

/// Gap between the ring and the label box.
pub const LABEL_GAP: i64 = 5;

/// Radius of the continue-mode badge.
pub const BADGE_RADIUS: i64 = 10;

/// Where the parts of the magnifier are drawn, in screen pixels.
#[derive(Clone, Copy, Debug, PartialEq, Eq)]
pub struct MagnifierLayout {
    /// Radius of the disc that shows the enlarged pixels.
    pub inner_radius: i64,
    /// Outer radius of the coloured ring.
    pub outer_radius: i64,
    /// Left and top of the square that outlines the centre pixel, and its side.
    pub reticle: (i64, i64, i64),
    /// Left, top, width and height of the label box.
    pub label_box: (i64, i64, i64, i64),
    /// Centre of the continue-mode badge, when it is shown.
    pub badge_center: Option<(i64, i64)>,
}

/// One enlarged pixel: the square it fills and its colour.
#[derive(Clone, Copy, Debug, PartialEq, Eq)]
pub struct MagnifierCell {
    pub left: i64,
    pub top: i64,
    pub size: i64,
    pub color: (u8, u8, u8),
}

/// The colour of the magnifier cell for the screen point `(x, y)`, which may lie beyond
/// the range of `i32`.
pub open spec fn cell_color_spec(data: Seq<u8>, width: i32, height: i32, x: int, y: int) -> (
    u8,
    u8,
    u8,
) {
    if 0 <= x < width && 0 <= y < height {
        magnifier_pixel_spec(data, width, height, x as i32, y as i32)
    } else {
        (OUTSIDE_SCREEN_GRAY, OUTSIDE_SCREEN_GRAY, OUTSIDE_SCREEN_GRAY)
    }
}

impl PickerState {
    /// Radius of the magnifier's disc: half of captured square times zoom.
    pub open spec fn inner_radius_spec(self) -> int {
        (self.captured * self.zoom) / 2
    }

    /// The layout of the magnifier around the cursor.
    pub open spec fn layout_spec(self) -> MagnifierLayout {
        let inner = self.inner_radius_spec();
        let zoom = self.zoom as int;
        MagnifierLayout {
            inner_radius: inner as i64,
            outer_radius: (inner + BORDER_WIDTH) as i64,
            reticle: ((self.cursor_x - zoom / 2) as i64, (self.cursor_y - zoom / 2) as i64, zoom as i64),
            label_box: (
                (self.cursor_x - LABEL_WIDTH / 2) as i64,
                (self.cursor_y + inner + BORDER_WIDTH + LABEL_GAP) as i64,
                LABEL_WIDTH,
                LABEL_HEIGHT,
            ),
            badge_center: if self.continue_mode {
                Some(((self.cursor_x + inner - 5) as i64, (self.cursor_y - inner + 5) as i64))
            } else {
                None
            },
        }
    }

    /// The cell showing captured pixel `(px, py)` (column, row) of the magnifier.
    pub open spec fn cell_spec(self, data: Seq<u8>, px: int, py: int) -> MagnifierCell {
        let half = self.captured as int / 2;
        let inner = self.inner_radius_spec();
        MagnifierCell {
            left: (self.cursor_x - inner + px * self.zoom) as i64,
            top: (self.cursor_y - inner + py * self.zoom) as i64,
            size: self.zoom as i64,
            color: cell_color_spec(
                data,
                self.screen_width,
                self.screen_height,
                self.cursor_x - half + px,
                self.cursor_y - half + py,
            ),
        }
    }

    /// Whether zoom and captured square are within their bounds.
    pub fn in_bounds(&self) -> (ok: bool)
        ensures
            ok == self.wf(),
    {
        ZOOM_MIN <= self.zoom && self.zoom <= ZOOM_MAX && CAPTURED_PIXELS <= self.captured
            && self.captured <= CAPTURED_PIXELS_MAX
    }

    /// Where the ring, the reticle, the label and the badge of the magnifier go.
    pub fn magnifier_layout(&self) -> (layout: MagnifierLayout)
        requires
            self.wf(),
        ensures
            layout == self.layout_spec(),
    {
        let zoom = self.zoom as i64;
        assert(0 <= self.captured * self.zoom <= 21 * 50) by (nonlinear_arith)
            requires
                self.captured <= 21,
                self.zoom <= 50,
        ;
        let inner = (self.captured as i64 * zoom) / 2;
        let cx = self.cursor_x as i64;
        let cy = self.cursor_y as i64;
        MagnifierLayout {
            inner_radius: inner,
            outer_radius: inner + BORDER_WIDTH,
            reticle: (cx - zoom / 2, cy - zoom / 2, zoom),
            label_box: (cx - LABEL_WIDTH / 2, cy + inner + BORDER_WIDTH + LABEL_GAP, LABEL_WIDTH, LABEL_HEIGHT),
            badge_center: if self.continue_mode {
                Some((cx + inner - 5, cy - inner + 5))
            } else {
                None
            },
        }
    }

    /// The enlarged pixels of the magnifier, row by row: `captured` rows of `captured`
    /// cells, each `zoom` pixels wide, centred on the cursor.
    pub fn magnifier_cells(&self, data: &[u8]) -> (cells: Vec<MagnifierCell>)
        requires
            self.wf(),
            screen_fits(self.screen_width, self.screen_height),
        ensures
            cells@.len() == self.captured * self.captured,
            forall|py: int, px: int|
                0 <= py < self.captured && 0 <= px < self.captured ==> cells@[py * self.captured
                    + px] == self.cell_spec(data@, px, py),
    {
        let n = self.captured as i64;
        let zoom = self.zoom as i64;
        let half = n / 2;
        assert(0 <= n * zoom <= 21 * 50) by (nonlinear_arith)
            requires
                0 <= n <= 21,
                0 <= zoom <= 50,
        ;
        let inner = (n * zoom) / 2;
        let cx = self.cursor_x as i64;
        let cy = self.cursor_y as i64;
        let mut cells: Vec<MagnifierCell> = Vec::new();
        let mut py: i64 = 0;
        while py < n
            invariant
                self.wf(),
                screen_fits(self.screen_width, self.screen_height),
                n == self.captured,
                zoom == self.zoom,
                half == n / 2,
                inner == self.inner_radius_spec(),
                0 <= inner <= 525,
                cx == self.cursor_x,
                cy == self.cursor_y,
                0 <= py <= n,
                cells@.len() == py * n,
                forall|qy: int, qx: int|
                    0 <= qy < py && 0 <= qx < n ==> cells@[qy * n + qx] == self.cell_spec(
                        data@,
                        qx,
                        qy,
                    ),
            decreases n - py,
        {
            let mut px: i64 = 0;
            while px < n
                invariant
                    self.wf(),
                    screen_fits(self.screen_width, self.screen_height),
                    n == self.captured,
                    zoom == self.zoom,
                    half == n / 2,
                    inner == self.inner_radius_spec(),
                    0 <= inner <= 525,
                    cx == self.cursor_x,
                    cy == self.cursor_y,
                    0 <= py < n,
                    0 <= px <= n,
                    cells@.len() == py * n + px,
                    forall|qy: int, qx: int|
                        0 <= qy < py && 0 <= qx < n ==> cells@[qy * n + qx] == self.cell_spec(
                            data@,
                            qx,
                            qy,
                        ),
                    forall|qx: int| 0 <= qx < px ==> cells@[py * n + qx] == self.cell_spec(
                        data@,
                        qx,
                        py as int,
                    ),
                decreases n - px,
            {
                let src_x = cx - half + px;
                let src_y = cy - half + py;
                let color = if 0 <= src_x && src_x < self.screen_width as i64 && 0 <= src_y && src_y
                    < self.screen_height as i64 {
                    magnifier_pixel(
                        data,
                        self.screen_width,
                        self.screen_height,
                        src_x as i32,
                        src_y as i32,
                    )
                } else {
                    (OUTSIDE_SCREEN_GRAY, OUTSIDE_SCREEN_GRAY, OUTSIDE_SCREEN_GRAY)
                };
                assert(0 <= px * zoom <= 21 * 50) by (nonlinear_arith)
                    requires
                        0 <= px <= 21,
                        0 <= zoom <= 50,
                ;
                assert(0 <= py * zoom <= 21 * 50) by (nonlinear_arith)
                    requires
                        0 <= py <= 21,
                        0 <= zoom <= 50,
                ;
                let cell = MagnifierCell {
                    left: cx - inner + px * zoom,
                    top: cy - inner + py * zoom,
                    size: zoom,
                    color,
                };
                let ghost before = cells@;
                cells.push(cell);
                proof {
                    assert(py * n + px + 1 == py * n + (px + 1)) by (nonlinear_arith);
                    assert forall|qy: int, qx: int|
                        0 <= qy < py && 0 <= qx < n implies cells@[qy * n + qx] == self.cell_spec(
                            data@,
                            qx,
                            qy,
                        ) by {
                        assert(qy * n + qx < py * n) by (nonlinear_arith)
                            requires
                                0 <= qy < py,
                                0 <= qx < n,
                        ;
                        assert(cells@[qy * n + qx] == before[qy * n + qx]);
                    }
                    assert(cell == self.cell_spec(data@, px as int, py as int));
                }
                px = px + 1;
            }
            assert((py + 1) * n == py * n + n) by (nonlinear_arith);
            py = py + 1;
        }
        assert(cells@.len() == self.captured * self.captured);
        cells
    }
}

/// One step up or down moves by exactly the step while it stays strictly inside the
/// bounds, and stops at the bound otherwise.
pub proof fn lemma_zoom_step_sizes(a: u32)
    ensures
        a + ZOOM_STEP < ZOOM_MAX ==> step_up(a, ZOOM_STEP, ZOOM_MAX) == a + 2,
        a + ZOOM_STEP >= ZOOM_MAX ==> step_up(a, ZOOM_STEP, ZOOM_MAX) == 50,
        a - ZOOM_STEP > ZOOM_MIN ==> step_down(a, ZOOM_STEP, ZOOM_MIN) == a - 2,
        a - ZOOM_STEP <= ZOOM_MIN ==> step_down(a, ZOOM_STEP, ZOOM_MIN) == 15,
        a + CAPTURED_PIXELS_STEP < CAPTURED_PIXELS_MAX ==> step_up(
            a,
            CAPTURED_PIXELS_STEP,
            CAPTURED_PIXELS_MAX,
        ) == a + 2,
        a + CAPTURED_PIXELS_STEP >= CAPTURED_PIXELS_MAX ==> step_up(
            a,
            CAPTURED_PIXELS_STEP,
            CAPTURED_PIXELS_MAX,
        ) == 21,
        a - CAPTURED_PIXELS_STEP > CAPTURED_PIXELS_MIN ==> step_down(
            a,
            CAPTURED_PIXELS_STEP,
            CAPTURED_PIXELS_MIN,
        ) == a - 2,
        a - CAPTURED_PIXELS_STEP <= CAPTURED_PIXELS_MIN ==> step_down(
            a,
            CAPTURED_PIXELS_STEP,
            CAPTURED_PIXELS_MIN,
        ) == 9,
{
}

/// Away from the bounds, zooming in then out (or out then in) returns to the same zoom and
/// captured square.
pub proof fn lemma_zoom_in_out_undo(zoom: u32, captured: u32)
    ensures
        17 <= zoom <= 48 ==> step_down(step_up(zoom, ZOOM_STEP, ZOOM_MAX), ZOOM_STEP, ZOOM_MIN)
            == zoom && step_up(step_down(zoom, ZOOM_STEP, ZOOM_MIN), ZOOM_STEP, ZOOM_MAX) == zoom,
        11 <= captured <= 19 ==> step_down(
            step_up(captured, CAPTURED_PIXELS_STEP, CAPTURED_PIXELS_MAX),
            CAPTURED_PIXELS_STEP,
            CAPTURED_PIXELS_MIN,
        ) == captured && step_up(
            step_down(captured, CAPTURED_PIXELS_STEP, CAPTURED_PIXELS_MIN),
            CAPTURED_PIXELS_STEP,
            CAPTURED_PIXELS_MAX,
        ) == captured,
{
}

/// The magnifier's disc has the radius of the current cell grid: half of the captured
/// square times the zoom, so the first cell starts one radius left of and above the
/// cursor; the ring adds the border width, the label box sits below the ring, and the
/// reticle is one cell wide around the cursor.
pub proof fn lemma_layout_fits_cells(s: PickerState, data: Seq<u8>)
    requires
        s.wf(),
    ensures
        s.layout_spec().inner_radius == (s.captured as int * s.zoom as int) / 2,
        s.layout_spec().outer_radius == (s.captured as int * s.zoom as int) / 2 + 20,
        s.cell_spec(data, 0, 0).left == s.cursor_x - s.layout_spec().inner_radius,
        s.cell_spec(data, 0, 0).top == s.cursor_y - s.layout_spec().inner_radius,
        s.cell_spec(data, 0, 0).size == s.zoom,
        s.layout_spec().label_box == (
            (s.cursor_x - 55) as i64,
            (s.cursor_y + (s.captured as int * s.zoom as int) / 2 + 25) as i64,
            110i64,
            22i64,
        ),
        s.layout_spec().reticle == (
            (s.cursor_x - s.zoom as int / 2) as i64,
            (s.cursor_y - s.zoom as int / 2) as i64,
            s.zoom as i64,
        ),
        s.layout_spec().badge_center is Some <==> s.continue_mode,
{
    assert(0 <= s.captured * s.zoom <= 21 * 50) by (nonlinear_arith)
        requires
            s.captured <= 21,
            s.zoom <= 50,
    ;
}

/// A cell's square lies `zoom` pixels right of its left neighbour and below its upper one.
pub proof fn lemma_cells_form_grid(s: PickerState, data: Seq<u8>, px: int, py: int)
    requires
        s.wf(),
        0 <= px,
        0 <= py,
        px + 1 < s.captured,
        py + 1 < s.captured,
    ensures
        s.cell_spec(data, px + 1, py).left == s.cell_spec(data, px, py).left + s.zoom,
        s.cell_spec(data, px, py + 1).top == s.cell_spec(data, px, py).top + s.zoom,
{
    assert((px + 1) * s.zoom == px * s.zoom + s.zoom) by (nonlinear_arith);
    assert((py + 1) * s.zoom == py * s.zoom + s.zoom) by (nonlinear_arith);
    assert(0 <= (px + 1) * s.zoom <= 21 * 50) by (nonlinear_arith)
        requires
            0 <= px + 1 <= 21,
            s.zoom <= 50,
    ;
    assert(0 <= (py + 1) * s.zoom <= 21 * 50) by (nonlinear_arith)
        requires
            0 <= py + 1 <= 21,
            s.zoom <= 50,
    ;
    assert(0 <= s.captured * s.zoom <= 21 * 50) by (nonlinear_arith)
        requires
            s.captured <= 21,
            s.zoom <= 50,
    ;
}

/// The colour read at an on-screen pixel is the three bytes stored for it, blue first,
/// at offset `4 * (y * width + x)` of the capture; off screen it is black.
pub proof fn lemma_pixel_color_reads_bgra(data: Seq<u8>, width: i32, height: i32, x: i32, y: i32)
    ensures
        0 <= x < width && 0 <= y < height && 4 * (y * width + x) + 2 < data.len() ==> {
            let i = 4 * (y * width + x);
            pixel_color_spec(data, width, height, x, y) == (data[i + 2], data[i + 1], data[i])
        },
        !(0 <= x < width && 0 <= y < height) ==> pixel_color_spec(data, width, height, x, y) == (
            0u8,
            0u8,
            0u8,
        ),
{
}

/// Choosing a colour stores the colour under the cursor in the slot of the current mode
/// and leaves the other slot alone; the session ends outside continue mode or when the
/// other colour was already chosen, and otherwise goes on in the other mode. Cursor,
/// colour under it, zoom, captured square, continue mode and screen are untouched.
pub proof fn lemma_select_effects(s: PickerState)
    ensures
        s.fg_mode ==> s.select_spec().fg_color == Some(s.color) && s.select_spec().bg_color
            == s.bg_color,
        !s.fg_mode ==> s.select_spec().bg_color == Some(s.color) && s.select_spec().fg_color
            == s.fg_color,
        (!s.continue_mode || (s.fg_mode && s.bg_color is Some) || (!s.fg_mode
            && s.fg_color is Some)) ==> s.select_spec().quit && s.select_spec().fg_mode
            == s.fg_mode,
        (s.continue_mode && ((s.fg_mode && s.bg_color is None) || (!s.fg_mode
            && s.fg_color is None))) ==> s.select_spec().quit == s.quit && s.select_spec().fg_mode
            == !s.fg_mode,
        s.select_spec().cursor_x == s.cursor_x && s.select_spec().cursor_y == s.cursor_y,
        s.select_spec().color == s.color && s.select_spec().continue_mode == s.continue_mode,
        s.select_spec().zoom == s.zoom && s.select_spec().captured == s.captured,
        s.select_spec().screen_width == s.screen_width && s.select_spec().screen_height
            == s.screen_height,
{
}

/// A session starts with nothing chosen, choosing the foreground, at zoom 20 with an
/// eight-pixel captured square, and not finished.
pub proof fn lemma_initial_state(w: i32, h: i32)
    ensures
        PickerState::initial_spec(w, h).fg_color is None,
        PickerState::initial_spec(w, h).bg_color is None,
        PickerState::initial_spec(w, h).fg_mode,
        !PickerState::initial_spec(w, h).continue_mode,
        !PickerState::initial_spec(w, h).quit,
        PickerState::initial_spec(w, h).zoom == 20,
        PickerState::initial_spec(w, h).captured == 8,
        PickerState::initial_spec(w, h).color == (0u8, 0u8, 0u8),
        PickerState::initial_spec(w, h).cursor_x == 0 && PickerState::initial_spec(w, h).cursor_y
            == 0,
        PickerState::initial_spec(w, h).screen_width == w
            && PickerState::initial_spec(w, h).screen_height == h,
{
}

/// Each arc shows the live colour while it is being chosen, its chosen colour otherwise,
/// and mid grey before that; an arc is drawn while being chosen or once chosen.
pub proof fn lemma_arc_colors(s: PickerState)
    ensures
        s.fg_mode ==> s.fg_arc_color() == s.color && s.shows_fg_arc(),
        !s.fg_mode ==> s.bg_arc_color() == s.color && s.shows_bg_arc(),
        !s.fg_mode ==> (s.fg_color matches Some(c) ==> s.fg_arc_color() == c) && (s.fg_color is None
            ==> s.fg_arc_color() == (128u8, 128u8, 128u8) && !s.shows_fg_arc()),
        s.fg_mode ==> (s.bg_color matches Some(c) ==> s.bg_arc_color() == c) && (s.bg_color is None
            ==> s.bg_arc_color() == (128u8, 128u8, 128u8) && !s.shows_bg_arc()),
{
}

/// A magnifier cell shows the captured pixel's colour; off screen dark grey (64), on
/// screen but missing from the capture mid grey (128).
pub proof fn lemma_magnifier_pixel_colors(data: Seq<u8>, width: i32, height: i32, x: i32, y: i32)
    ensures
        !(0 <= x < width && 0 <= y < height) ==> magnifier_pixel_spec(data, width, height, x, y)
            == (64u8, 64u8, 64u8),
        0 <= x < width && 0 <= y < height && 4 * (y * width + x) + 2 < data.len() ==> {
            let i = 4 * (y * width + x);
            magnifier_pixel_spec(data, width, height, x, y) == (data[i + 2], data[i + 1], data[i])
        },
        0 <= x < width && 0 <= y < height && 4 * (y * width + x) + 2 >= data.len()
            ==> magnifier_pixel_spec(data, width, height, x, y) == (128u8, 128u8, 128u8),
{
}

/// The cell in column `px` and row `py` shows the screen pixel `px - captured / 2`
/// columns and `py - captured / 2` rows from the cursor.
pub proof fn lemma_cell_shows_pixel(s: PickerState, data: Seq<u8>, px: int, py: int)
    requires
        0 <= px < s.captured,
        0 <= py < s.captured,
    ensures
        ({
            let x = s.cursor_x + px - s.captured / 2;
            let y = s.cursor_y + py - s.captured / 2;
            &&& (0 <= x < s.screen_width && 0 <= y < s.screen_height)
                ==> s.cell_spec(data, px, py).color == magnifier_pixel_spec(
                data,
                s.screen_width,
                s.screen_height,
                x as i32,
                y as i32,
            )
            &&& !(0 <= x < s.screen_width && 0 <= y < s.screen_height) ==> s.cell_spec(
                data,
                px,
                py,
            ).color == (64u8, 64u8, 64u8)
        }),
{
}

} // verus!
