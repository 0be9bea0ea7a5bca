//! Road-network meshing core for OpenDRIVE maps: the discrete parts of the
//! pipeline (file bundles, XML enumerations, strip topology, lane ordering,
//! road-mark layouts and Apollo map framing), stated and proved with Verus.

pub mod text;
pub mod strip;
pub mod enums;
pub mod bundle;
pub mod lanes;
pub mod road_marks;
pub mod apollo;
pub mod objects;
