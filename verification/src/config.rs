//! Engine configuration.

use vstd::prelude::*;

verus! {

/// The settings of the engine, read at startup and whenever the window is
/// resized.
#[derive(Debug, Clone)]
pub struct GameConfig {
    /// Width of the window, in physical pixels.
    pub window_width: u32,
    /// Height of the window, in physical pixels.
    pub window_height: u32,
    /// Width of the logical resolution.
    pub logical_width: u32,
    /// Height of the logical resolution.
    pub logical_height: u32,
    /// Title of the window.
    pub title: String,
    /// Frames per second that the engine aims for.
    pub target_fps: u32,
    /// Whether the picture is stretched to the window. If not, the logical
    /// resolution stays fixed and the picture is letterboxed.
    pub stretch_mode: bool,
}

impl Default for GameConfig {
    /// An 800 by 600 window showing an 800 by 600 logical resolution at 60
    /// frames per second, not stretched.
    fn default() -> (c: GameConfig)
        ensures
            c.window_width == 800,
            c.window_height == 600,
            c.logical_width == 800,
            c.logical_height == 600,
            c.title@ == "Mothra Engine"@,
            c.target_fps == 60,
            !c.stretch_mode,
    {
        GameConfig {
            window_width: 800,
            window_height: 600,
            logical_width: 800,
            logical_height: 600,
            title: "Mothra Engine".to_owned(),
            target_fps: 60,
            stretch_mode: false,
        }
    }
}

} // verus!
