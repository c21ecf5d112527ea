use vstd::prelude::*;

verus! {

/// An axis-aligned rectangle given by its side lengths.
pub struct Rectangle {
    pub width: u32,
    pub height: u32,
}

/// A square given by its side length.
pub struct Square {
    pub side: u32,
}

impl Rectangle {
    pub open spec fn area_spec(&self) -> int {
        self.width * self.height
    }

    pub open spec fn perimeter_spec(&self) -> int {
        2 * (self.width + self.height)
    }

    /// The line a rectangle introduces itself with.
    pub fn whoami() -> (r: &'static str)
        ensures
            r@ == "I am a rectangle"@,
    {
        "I am a rectangle"
    }

    pub fn area(&self) -> (r: u32)
        requires
            self.area_spec() <= u32::MAX,
        ensures
            r == self.area_spec(),
    {
        self.width * self.height
    }

    pub fn perimeter(&self) -> (r: u32)
        requires
            self.perimeter_spec() <= u32::MAX,
        ensures
            r == self.perimeter_spec(),
    {
        2 * (self.width + self.height)
    }
}

impl Square {
    pub open spec fn area_spec(&self) -> int {
        self.side * self.side
    }

    pub open spec fn perimeter_spec(&self) -> int {
        4 * self.side
    }

    /// The line a square introduces itself with.
    pub fn whoami() -> (r: &'static str)
        ensures
            r@ == "I am a square"@,
    {
        "I am a square"
    }

    pub fn area(&self) -> (r: u32)
        requires
            self.area_spec() <= u32::MAX,
        ensures
            r == self.area_spec(),
    {
        self.side * self.side
    }

    pub fn perimeter(&self) -> (r: u32)
        requires
            self.perimeter_spec() <= u32::MAX,
        ensures
            r == self.perimeter_spec(),
    {
        4 * self.side
    }
}

} // verus!
