use crate::mesh::{
    CIRCLE, CIRCLE_BORDER, RECTANGLE, RECTANGLE_BORDER, ROUNDED_RECTANGLE, ROUNDED_RECTANGLE_BORDER,
};
use vstd::prelude::*;

verus! {

/// The built-in shapes.
#[derive(Clone, Copy, Debug, PartialEq, Eq, Structural)]
pub enum ShapeType {
    Circle,
    CircleBorder,
    Rectangle,
    RectangleBorder,
    RoundedRectangle,
    RoundedRectangleBorder,
}

/// The mesh that draws a shape.
pub open spec fn shape_mesh(s: ShapeType) -> usize {
    match s {
        ShapeType::Circle => CIRCLE,
        ShapeType::CircleBorder => CIRCLE_BORDER,
        ShapeType::Rectangle => RECTANGLE,
        ShapeType::RectangleBorder => RECTANGLE_BORDER,
        ShapeType::RoundedRectangle => ROUNDED_RECTANGLE,
        ShapeType::RoundedRectangleBorder => ROUNDED_RECTANGLE_BORDER,
    }
}

impl ShapeType {
    pub fn object_index(&self) -> (r: usize)
        ensures
            r == shape_mesh(*self),
    {
        match self {
            ShapeType::Circle => CIRCLE,
            ShapeType::CircleBorder => CIRCLE_BORDER,
            ShapeType::Rectangle => RECTANGLE,
            ShapeType::RectangleBorder => RECTANGLE_BORDER,
            ShapeType::RoundedRectangle => ROUNDED_RECTANGLE,
            ShapeType::RoundedRectangleBorder => ROUNDED_RECTANGLE_BORDER,
        }
    }
}

/// `Locked`: the instance is offset by the camera position and moves with
/// the world. `Unlocked`: it stays where it is put on the screen.
#[derive(Clone, Copy, Debug, PartialEq, Eq, Structural)]
pub enum AnchorType {
    Locked,
    Unlocked,
}

impl AnchorType {
    /// Whether an instance with this anchor is offset by the camera position.
    pub fn follows_camera(&self) -> (r: bool)
        ensures
            r == (*self == AnchorType::Locked),
    {
        match self {
            AnchorType::Locked => true,
            AnchorType::Unlocked => false,
        }
    }
}

/// Whether the physics demo advances its models.
#[derive(Clone, Copy, Debug, PartialEq, Eq, Structural)]
pub enum SimulationState {
    Run,
    Paused,
}

impl SimulationState {
    /// The other state.
    pub fn switched(&self) -> (r: SimulationState)
        ensures
            *self == SimulationState::Run ==> r == SimulationState::Paused,
            *self == SimulationState::Paused ==> r == SimulationState::Run,
    {
        match self {
            SimulationState::Run => SimulationState::Paused,
            SimulationState::Paused => SimulationState::Run,
        }
    }
}

} // verus!
