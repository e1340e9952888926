//! Where the pieces of a player's screen are placed.
//!
//! These are the plain choices that a layout is made of. Sizes and positions
//! themselves are computed by whoever draws the screen.

use vstd::prelude::*;

verus! {

/// Where a block stands between the left and the right edge of its parent.
#[allow(non_camel_case_types)]
#[derive(PartialEq, Eq, Clone, Copy, Debug)]
pub enum UIBlockContainerXConstraint {
    /// Nothing is asked for; the block stays at the left edge.
    NONE,
    LEFT,
    CENTER,
    RIGHT,
}

/// Where a block stands between the top and the bottom edge of its parent.
#[allow(non_camel_case_types)]
#[derive(PartialEq, Eq, Clone, Copy, Debug)]
pub enum UIBlockContainerYConstraint {
    /// Nothing is asked for; the block stays at the top edge.
    NONE,
    TOP,
    CENTER,
    BOTTOM,
}

/// The place of a block in both directions.
#[derive(PartialEq, Eq, Clone, Copy, Debug)]
pub struct UIBlockContainerContraints {
    pub x_constraint: UIBlockContainerXConstraint,
    pub y_constraint: UIBlockContainerYConstraint,
}

/// The direction in which a stack puts one child after the other.
#[allow(non_camel_case_types)]
#[derive(PartialEq, Eq, Clone, Copy, Debug)]
pub enum UIStackPaneOrientation {
    HORIZONTAL,
    VERTICAL,
}

/// The end of a stack from which its children are put down.
#[allow(non_camel_case_types)]
#[derive(PartialEq, Eq, Clone, Copy, Debug)]
pub enum UIStackPaneChildAlignment {
    START,
    END,
}

} // verus!
