use vstd::prelude::*;
use crate::text::same_text;

verus! {

/// Fill colour of a planet's dot in the exported sky image; white for any
/// other name.
pub open spec fn planet_rgb_of(name: Seq<char>) -> (u8, u8, u8) {
    if name == "Mercury"@ {
        (128, 128, 128)
    } else if name == "Venus"@ {
        (255, 220, 100)
    } else if name == "Mars"@ {
        (200, 50, 50)
    } else if name == "Jupiter"@ {
        (220, 200, 180)
    } else if name == "Saturn"@ {
        (200, 180, 100)
    } else if name == "Uranus"@ {
        (100, 220, 220)
    } else if name == "Neptune"@ {
        (100, 100, 220)
    } else {
        (255, 255, 255)
    }
}

/// RGB colour used to draw the planet called `name`.
pub fn planet_color_rgb(name: &str) -> (c: (u8, u8, u8))
    ensures
        c == planet_rgb_of(name@),
{
    if same_text(name, "Mercury") {
        (128, 128, 128)
    } else if same_text(name, "Venus") {
        (255, 220, 100)
    } else if same_text(name, "Mars") {
        (200, 50, 50)
    } else if same_text(name, "Jupiter") {
        (220, 200, 180)
    } else if same_text(name, "Saturn") {
        (200, 180, 100)
    } else if same_text(name, "Uranus") {
        (100, 220, 220)
    } else if same_text(name, "Neptune") {
        (100, 100, 220)
    } else {
        (255, 255, 255)
    }
}

} // verus!
