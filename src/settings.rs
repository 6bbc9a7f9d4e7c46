use vstd::prelude::*;

verus! {

/// The window the application opens: its title and its inner size in pixels.
pub struct WindowSettings {
    pub title: String,
    pub size: (u32, u32),
}

impl WindowSettings {
    pub fn new(title: String, size: (u32, u32)) -> (s: Self)
        ensures
            s.title@ == title@,
            s.size == size,
    {
        WindowSettings { title, size }
    }
}

/// Handed to scene objects while they update; it collects nothing yet.
pub struct DataCollector {}

} // verus!
