//! Keyboard focus over the five fixed regions of the screen.

use vstd::prelude::*;

verus! {

/// One of the five regions of the screen. Exactly one of them holds the
/// keyboard focus at any time.
#[derive(Clone, Copy, Debug, PartialEq, Eq, Structural)]
pub enum FocusArea {
    Header,
    Navigation,
    Preview,
    Input,
    Footer,
}

/// A direction in which the focus can be asked to move.
#[derive(Clone, Copy, Debug, PartialEq, Eq, Structural)]
pub enum Direction {
    Left,
    Right,
    Up,
    Down,
}

impl FocusArea {
    /// The region left of `self` in the cycle
    /// Navigation -> Header -> Footer -> Preview -> Navigation.
    /// The input region is outside the cycle and stays where it is.
    pub open spec fn spec_left(self) -> FocusArea {
        match self {
            FocusArea::Navigation => FocusArea::Header,
            FocusArea::Preview => FocusArea::Navigation,
            FocusArea::Footer => FocusArea::Preview,
            FocusArea::Header => FocusArea::Footer,
            FocusArea::Input => FocusArea::Input,
        }
    }

    /// The region right of `self`: the cycle of `spec_left` walked backwards.
    pub open spec fn spec_right(self) -> FocusArea {
        match self {
            FocusArea::Header => FocusArea::Navigation,
            FocusArea::Navigation => FocusArea::Preview,
            FocusArea::Preview => FocusArea::Footer,
            FocusArea::Footer => FocusArea::Header,
            FocusArea::Input => FocusArea::Input,
        }
    }

    /// Where the focus goes from `self` in direction `dir`, as far as the
    /// focus alone decides it: down follows the cycle Header -> Navigation ->
    /// Preview -> Footer -> Header, up walks it backwards.
    pub open spec fn spec_neighbour(self, dir: Direction) -> FocusArea {
        match dir {
            Direction::Left | Direction::Up => self.spec_left(),
            Direction::Right | Direction::Down => self.spec_right(),
        }
    }

    /// The region that the function key with number `n` jumps to, if any.
    pub open spec fn spec_from_index(n: u8) -> Option<FocusArea> {
        if n == 1 {
            Some(FocusArea::Header)
        } else if n == 2 {
            Some(FocusArea::Navigation)
        } else if n == 3 {
            Some(FocusArea::Preview)
        } else if n == 4 {
            Some(FocusArea::Input)
        } else if n == 5 {
            Some(FocusArea::Footer)
        } else {
            None
        }
    }

    #[verifier::when_used_as_spec(spec_left)]
    pub fn left(self) -> (r: FocusArea)
        ensures
            r == self.spec_left(),
    {
        match self {
            FocusArea::Navigation => FocusArea::Header,
            FocusArea::Preview => FocusArea::Navigation,
            FocusArea::Footer => FocusArea::Preview,
            FocusArea::Header => FocusArea::Footer,
            FocusArea::Input => FocusArea::Input,
        }
    }

    #[verifier::when_used_as_spec(spec_right)]
    pub fn right(self) -> (r: FocusArea)
        ensures
            r == self.spec_right(),
    {
        match self {
            FocusArea::Header => FocusArea::Navigation,
            FocusArea::Navigation => FocusArea::Preview,
            FocusArea::Preview => FocusArea::Footer,
            FocusArea::Footer => FocusArea::Header,
            FocusArea::Input => FocusArea::Input,
        }
    }

    #[verifier::when_used_as_spec(spec_neighbour)]
    pub fn neighbour(self, dir: Direction) -> (r: FocusArea)
        ensures
            r == self.spec_neighbour(dir),
    {
        match dir {
            Direction::Left | Direction::Up => self.left(),
            Direction::Right | Direction::Down => self.right(),
        }
    }

    #[verifier::when_used_as_spec(spec_from_index)]
    pub fn from_index(n: u8) -> (r: Option<FocusArea>)
        ensures
            r == Self::spec_from_index(n),
    {
        if n == 1 {
            Some(FocusArea::Header)
        } else if n == 2 {
            Some(FocusArea::Navigation)
        } else if n == 3 {
            Some(FocusArea::Preview)
        } else if n == 4 {
            Some(FocusArea::Input)
        } else if n == 5 {
            Some(FocusArea::Footer)
        } else {
            None
        }
    }
}

/// Moving right undoes moving left, and the other way round.
pub proof fn lemma_left_right_inverse(area: FocusArea)
    ensures
        area.spec_left().spec_right() == area,
        area.spec_right().spec_left() == area,
{
}

/// Four steps in one direction lead back to where they began.
pub proof fn lemma_four_steps_cycle(area: FocusArea, dir: Direction)
    ensures
        area.spec_neighbour(dir).spec_neighbour(dir).spec_neighbour(dir).spec_neighbour(dir)
            == area,
{
}

/// No step in any direction enters or leaves the input region.
pub proof fn lemma_input_is_isolated(area: FocusArea, dir: Direction)
    ensures
        area.spec_neighbour(dir) == FocusArea::Input <==> area == FocusArea::Input,
{
}

} // verus!
