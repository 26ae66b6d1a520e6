//! The settings the pipeline reads.

use vstd::prelude::*;

verus! {

/// The rectangle of the screen the user selected, in logical pixels relative
/// to the origin of the selected display.
#[derive(Clone, Copy, Debug, PartialEq, Eq, Structural)]
pub struct Region {
    pub x: u32,
    pub y: u32,
    pub w: u32,
    pub h: u32,
}

impl Region {
    /// A region is usable when it has a positive width and height.
    pub open spec fn is_valid(self) -> bool {
        self.w > 0 && self.h > 0
    }

    /// Whether this region can be captured at all.
    pub fn check(&self) -> (ok: bool)
        ensures
            ok == self.is_valid(),
    {
        self.w > 0 && self.h > 0
    }
}

/// The settings of the overlay and of the pipeline behind it.
#[derive(Clone, Debug)]
pub struct Config {
    /// The selected region; `None` until the user has selected one.
    pub region: Option<Region>,
    /// The id of the display that is captured.
    pub monitor: u32,
    pub text_color: String,
    pub text_align: String,
    pub text_size: u16,
    pub background_color: String,
    pub blur_background: bool,
    /// Seconds between two ticks of the runtime.
    pub interval: u8,
    /// The language that texts are translated into.
    pub lang: String,
}

impl Config {
    /// Whether these are the settings of a first start.
    pub open spec fn is_default(self) -> bool {
        &&& self.region is None
        &&& self.monitor == 0
        &&& self.text_align@ == "C:C"@
        &&& self.text_color@ == "#FFFFFF"@
        &&& self.text_size == 16
        &&& self.background_color@ == "#00000066"@
        &&& self.blur_background
        &&& self.interval == 1
        &&& self.lang@ == "en"@
    }
}

impl Default for Config {
    fn default() -> (config: Self)
        ensures
            config.is_default(),
    {
        Config {
            region: None,
            monitor: 0,
            text_align: String::from_str("C:C"),
            text_color: String::from_str("#FFFFFF"),
            text_size: 16,
            background_color: String::from_str("#00000066"),
            blur_background: true,
            interval: 1,
            lang: String::from_str("en"),
        }
    }
}

} // verus!
