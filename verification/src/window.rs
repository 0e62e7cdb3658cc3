//! Window settings as plain data. Creating the window and its graphics
//! context from them happens outside the library.

use vstd::prelude::*;

verus! {

/// Title and dimensions a window is created with.
pub struct WindowSettings {
    pub title: String,
    pub dimensions: (u32, u32),
}

impl WindowSettings {
    /// Settings for a window with the given title and dimensions.
    pub fn new(title: &str, dimensions: (u32, u32)) -> (r: WindowSettings)
        ensures
            r.title@ == title@,
            r.dimensions == dimensions,
    {
        WindowSettings { title: title.to_owned(), dimensions }
    }
}

} // verus!
