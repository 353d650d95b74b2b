use vstd::prelude::*;
use crate::reply::Coordinate;

verus! {

/// The body of `POST /`: the two points, each coordinate any JSON value. The
/// service never reads a coordinate itself: it hands it to `srvcs-floatsubtract`
/// and echoes it in its reply.
pub struct EvalRequest {
    pub x1: serde_json::Value,
    pub y1: serde_json::Value,
    pub z1: serde_json::Value,
    pub x2: serde_json::Value,
    pub y2: serde_json::Value,
    pub z2: serde_json::Value,
}

impl EvalRequest {
    /// The request's value of coordinate `c`.
    pub open spec fn value_of(&self, c: Coordinate) -> serde_json::Value {
        match c {
            Coordinate::X1 => self.x1,
            Coordinate::Y1 => self.y1,
            Coordinate::Z1 => self.z1,
            Coordinate::X2 => self.x2,
            Coordinate::Y2 => self.y2,
            Coordinate::Z2 => self.z2,
        }
    }

    /// The request's value of coordinate `c`.
    pub fn coordinate(&self, c: Coordinate) -> (value: &serde_json::Value)
        ensures
            *value == self.value_of(c),
    {
        match c {
            Coordinate::X1 => &self.x1,
            Coordinate::Y1 => &self.y1,
            Coordinate::Z1 => &self.z1,
            Coordinate::X2 => &self.x2,
            Coordinate::Y2 => &self.y2,
            Coordinate::Z2 => &self.z2,
        }
    }
}

} // verus!
