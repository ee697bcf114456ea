//! The host-facing shell types: the configuration the host parses, the
//! status its loop runs on, and the application trait it implements.

use vstd::prelude::*;

verus! {

/// The host configuration: where the program image lives, which renderer to
/// use, and the window size.
pub struct AppConfiguration {
    pub rom: String,
    pub hardware_canvas: bool,
    pub width: u32,
    pub height: u32,
}

/// Whether the host loop should go on running.
#[derive(Clone, Copy, Debug, PartialEq, Eq, Structural)]
pub enum AppStatus {
    Continue,
    Exit,
}

/// One host application: update until it asks to exit, rendering after each
/// update.  Hosts implement all three; `run` is the loop that calls
/// `update` and `render` in turn until `update` asks to exit.  The loop
/// itself lives with the host, since nothing bounds how long it runs.
pub trait App {
    fn update(&mut self) -> AppStatus;

    fn render(&mut self);

    fn run(&mut self);
}

} // verus!
