//! Scheduling core of a GPU-resident falling-sand simulation.
//!
//! The grid of cells lives in one storage texture on the graphics device. Every
//! frame a brush pass may paint cells into it and an automata pass advances it by
//! one generation. This crate holds the decisions behind those passes: which
//! compute pipeline each stage dispatches, over how many workgroups, with which
//! push-constant payload, and in which order. Device work itself is left to the
//! caller, which hands in plain values and carries out the returned dispatches.

use vstd::prelude::*;

pub mod images;
pub mod input;
pub mod pipeline;

verus! {

/// Width of the simulation grid in cells.
pub const SIM_WIDTH: u32 = 1280;

/// Height of the simulation grid in cells.
pub const SIM_HEIGHT: u32 = 720;

/// Side length of the square tile that one compute workgroup covers.
pub const WORKGROUP_SIZE: u32 = 8;

/// The kind of cell the brush paints.
#[derive(Clone, Copy, Debug, PartialEq, Eq, Structural)]
pub enum CurrentElement {
    Air,
    Sand,
    Water,
    Rock,
}

impl CurrentElement {
    /// The integer by which the draw shader knows this element.
    pub open spec fn code(self) -> u32 {
        match self {
            CurrentElement::Air => 0,
            CurrentElement::Sand => 1,
            CurrentElement::Water => 2,
            CurrentElement::Rock => 3,
        }
    }

    /// The element that a shader-side integer stands for; an integer that names
    /// no element stands for air.
    pub open spec fn of_code(code: u32) -> CurrentElement {
        if code == 1 {
            CurrentElement::Sand
        } else if code == 2 {
            CurrentElement::Water
        } else if code == 3 {
            CurrentElement::Rock
        } else {
            CurrentElement::Air
        }
    }

    /// Encodes the element for the draw shader.
    pub fn index(&self) -> (code: u32)
        ensures
            code == self.code(),
    {
        match self {
            CurrentElement::Air => 0,
            CurrentElement::Sand => 1,
            CurrentElement::Water => 2,
            CurrentElement::Rock => 3,
        }
    }

    /// Decodes a shader-side integer, falling back to air when it names no
    /// element.
    pub fn from_index(code: u32) -> (element: CurrentElement)
        ensures
            element == Self::of_code(code),
    {
        if code == 1 {
            CurrentElement::Sand
        } else if code == 2 {
            CurrentElement::Water
        } else if code == 3 {
            CurrentElement::Rock
        } else {
            CurrentElement::Air
        }
    }

    /// Decoding undoes encoding, and every element's code is below four.
    pub proof fn code_round_trip(element: CurrentElement)
        ensures
            Self::of_code(element.code()) == element,
            element.code() < 4,
    {
    }
}

impl Default for CurrentElement {
    fn default() -> (element: CurrentElement)
        ensures
            element == CurrentElement::Air,
    {
        CurrentElement::Air
    }
}

} // verus!
