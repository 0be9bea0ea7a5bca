use vstd::prelude::*;

use crate::enums::OdrParkingSpaceAccess;

verus! {

/// The range of lanes, by id, that an object or signal applies to.
#[derive(Clone, Copy, Debug, PartialEq, Eq, Structural)]
pub struct OdrLaneValidity {
    pub from_lane: i32,
    pub to_lane: i32,
}

impl OdrLaneValidity {
    pub fn new(from_lane: i32, to_lane: i32) -> (r: Self)
        ensures
            r.from_lane == from_lane,
            r.to_lane == to_lane,
    {
        OdrLaneValidity { from_lane, to_lane }
    }
}

/// A corner of a marking, given by the id of an existing outline corner.
#[derive(Clone, Copy, Debug, PartialEq, Eq, Structural)]
pub struct OdrCornerReference {
    pub id: u32,
}

impl OdrCornerReference {
    pub fn new(id: u32) -> (r: Self)
        ensures
            r.id == id,
    {
        OdrCornerReference { id }
    }
}

/// Priority of one road over another inside a junction, by road id.
#[derive(Clone, Debug)]
pub struct OdrJunctionPriority {
    pub high: String,
    pub low: String,
}

impl OdrJunctionPriority {
    pub fn new(high: String, low: String) -> (r: Self)
        ensures
            r.high@ == high@,
            r.low@ == low@,
    {
        OdrJunctionPriority { high, low }
    }
}

/// A parking space: who may use it, and any further restrictions in words.
#[derive(Clone, Debug)]
pub struct OdrParkingSpace {
    pub access: OdrParkingSpaceAccess,
    pub restrictions: Option<String>,
}

impl OdrParkingSpace {
    pub fn new(access: OdrParkingSpaceAccess) -> (r: Self)
        ensures
            r.access == access,
            r.restrictions is None,
    {
        OdrParkingSpace { access, restrictions: None }
    }
}

} // verus!
