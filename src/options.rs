use vstd::prelude::*;

verus! {

#[derive(Copy, Clone, Debug, PartialEq, Eq, Structural)]
pub enum DetailLevel {
    Low,
    High,
}

/// The player's settings that the renderer reads.
pub struct Options {
    pub detail: DetailLevel,
    pub show_messages: bool,
    pub mouse_sensitivity: i32,
    pub screen_size: i32,
}

impl Options {
    /// High detail, messages on, screen size 8.
    pub fn new() -> (r: Self)
        ensures
            r.detail == DetailLevel::High,
            r.show_messages,
            r.mouse_sensitivity == 0,
            r.screen_size == 8,
    {
        Options { detail: DetailLevel::High, show_messages: true, mouse_sensitivity: 0, screen_size: 8 }
    }
}

} // verus!
