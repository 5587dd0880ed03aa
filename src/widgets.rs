//! The overlay widgets' logic: the loading spinner's frames and the centred
//! popup area. Drawing them is left to the terminal front end.

use vstd::prelude::*;

verus! {

/// A rectangle of terminal cells.
#[derive(Clone, Copy, Debug, PartialEq, Eq, Structural)]
pub struct Area {
    pub x: u16,
    pub y: u16,
    pub width: u16,
    pub height: u16,
}

pub open spec fn clamp_spec(v: u16, max: u16, floor: u16) -> u16 {
    let m = if v < max { v } else { max };
    if m > floor { m } else { floor }
}

/// A popup of at most `max_width` by `max_height` cells (but at least 10 by
/// 5) centred in `area`.
pub open spec fn centered_spec(area: Area, max_width: u16, max_height: u16) -> Area {
    let width = clamp_spec(area.width, max_width, 10);
    let height = clamp_spec(area.height, max_height, 5);
    let free_w: int = if area.width > width { area.width - width } else { 0 };
    let free_h: int = if area.height > height { area.height - height } else { 0 };
    Area { x: (area.x + free_w / 2) as u16, y: (area.y + free_h / 2) as u16, width, height }
}

/// The popup area centred in `area`. The area must fit on a `u16` screen.
pub fn centered_rect(area: Area, max_width: u16, max_height: u16) -> (r: Area)
    requires
        area.x + area.width <= u16::MAX,
        area.y + area.height <= u16::MAX,
    ensures
        r == centered_spec(area, max_width, max_height),
{
    let w0 = if area.width < max_width { area.width } else { max_width };
    let width = if w0 > 10 { w0 } else { 10 };
    let h0 = if area.height < max_height { area.height } else { max_height };
    let height = if h0 > 5 { h0 } else { 5 };
    let free_w = if area.width > width { area.width - width } else { 0 };
    let free_h = if area.height > height { area.height - height } else { 0 };
    Area { x: area.x + free_w / 2, y: area.y + free_h / 2, width, height }
}

/// The spinner shown while a reply is awaited.
pub struct LoadingWidget {
    pub frame: usize,
}

/// The spinner's glyph for a frame: eight braille frames, in turn.
pub open spec fn spinner_glyph(frame: nat) -> char {
    let k = frame % 8;
    if k == 0 { '⣾' } else if k == 1 { '⣽' } else if k == 2 { '⣻' } else if k == 3 { '⢿' }
    else if k == 4 { '⡿' } else if k == 5 { '⣟' } else if k == 6 { '⣯' } else { '⣷' }
}

impl LoadingWidget {
    pub fn new(frame: usize) -> (r: LoadingWidget)
        ensures
            r.frame == frame,
    {
        LoadingWidget { frame }
    }

    /// The spinner glyph of the current frame.
    pub fn glyph(&self) -> (c: char)
        ensures
            c == spinner_glyph(self.frame as nat),
    {
        let k = self.frame % 8;
        if k == 0 { '⣾' } else if k == 1 { '⣽' } else if k == 2 { '⣻' } else if k == 3 { '⢿' }
        else if k == 4 { '⡿' } else if k == 5 { '⣟' } else if k == 6 { '⣯' } else { '⣷' }
    }
}

/// The help popup, listing key bindings and commands.
pub struct HelpWidget;

} // verus!
