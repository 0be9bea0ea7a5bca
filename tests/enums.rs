use odr_mesh::enums::{
    OdrContactPoint, OdrElementDir, OdrJunctionType, OdrLaneAccessRule, OdrOrientation,
    OdrParamPoly3PRange, OdrRoadGeometryKind, OdrRoadLinkElementType, OdrRoadMarkColor,
    OdrRoadMarkLaneChange, OdrRoadMarkRule, OdrRoadMarkType, OdrRoadMarkWeight, OdrSpeedUnit,
    OdrTrafficRule, ParamPoly3PRange, TrafficRule,
};

#[test]
fn road_mark_types_read_their_spellings() {
    assert_eq!(OdrRoadMarkType::from_xml("solid solid"), OdrRoadMarkType::SolidSolid);
    assert_eq!(OdrRoadMarkType::from_xml("broken broken"), OdrRoadMarkType::BrokenBroken);
    assert_eq!(OdrRoadMarkType::from_xml("botts dots"), OdrRoadMarkType::BottsDots);
    assert_eq!(OdrRoadMarkType::from_xml("solid"), OdrRoadMarkType::Solid);
    assert_eq!(OdrRoadMarkType::from_xml("none"), OdrRoadMarkType::NoMark);
    assert_eq!(OdrRoadMarkType::from_xml("zigzag"), OdrRoadMarkType::NoMark);
    assert_eq!(OdrRoadMarkType::SolidBroken.as_xml(), "solid broken");
}

#[test]
fn unknown_spellings_fall_back_to_defaults() {
    assert_eq!(OdrRoadMarkColor::from_xml("pink"), OdrRoadMarkColor::Standard);
    assert_eq!(OdrRoadMarkWeight::from_xml(""), OdrRoadMarkWeight::Standard);
    assert_eq!(OdrRoadMarkLaneChange::from_xml("x"), OdrRoadMarkLaneChange::NoChange);
    assert_eq!(OdrRoadMarkRule::from_xml("x"), OdrRoadMarkRule::NoRule);
    assert_eq!(OdrSpeedUnit::from_xml("knots"), OdrSpeedUnit::KMH);
    assert_eq!(OdrContactPoint::from_xml("middle"), OdrContactPoint::Start);
    assert_eq!(OdrElementDir::from_xml("?"), OdrElementDir::Positive);
    assert_eq!(OdrJunctionType::from_xml("other"), OdrJunctionType::Default);
    assert_eq!(OdrTrafficRule::from_xml("rht"), OdrTrafficRule::RHT);
    assert_eq!(OdrRoadLinkElementType::from_xml("lane"), OdrRoadLinkElementType::Road);
    assert_eq!(OdrLaneAccessRule::from_xml("maybe"), OdrLaneAccessRule::Allow);
    assert_eq!(OdrParamPoly3PRange::from_xml("arclength"), OdrParamPoly3PRange::Normalized);
}

#[test]
fn known_spellings_are_read() {
    assert_eq!(OdrRoadMarkColor::from_xml("yellow"), OdrRoadMarkColor::Yellow);
    assert_eq!(OdrRoadMarkRule::from_xml("no passing"), OdrRoadMarkRule::NoPassing);
    assert_eq!(OdrSpeedUnit::from_xml("mph"), OdrSpeedUnit::MPH);
    assert_eq!(OdrSpeedUnit::from_xml("m/s"), OdrSpeedUnit::MPS);
    assert_eq!(OdrContactPoint::from_xml("end"), OdrContactPoint::End);
    assert_eq!(OdrElementDir::from_xml("-"), OdrElementDir::Negative);
    assert_eq!(OdrOrientation::from_xml("+"), OdrOrientation::Positive);
    assert_eq!(OdrJunctionType::from_xml("crossing"), OdrJunctionType::Crossing);
    assert_eq!(OdrTrafficRule::from_xml("LHT"), OdrTrafficRule::LHT);
    assert_eq!(TrafficRule::from_xml("LHT"), TrafficRule::LHT);
    assert_eq!(OdrRoadLinkElementType::from_xml("junction"), OdrRoadLinkElementType::Junction);
    assert_eq!(OdrLaneAccessRule::from_xml("deny"), OdrLaneAccessRule::Deny);
    assert_eq!(ParamPoly3PRange::from_xml("arcLength"), ParamPoly3PRange::ArcLength);
}

#[test]
fn geometry_kinds_come_from_element_names() {
    assert_eq!(OdrRoadGeometryKind::from_xml("paramPoly3"), Some(OdrRoadGeometryKind::ParamPoly3));
    assert_eq!(OdrRoadGeometryKind::from_xml("arc"), Some(OdrRoadGeometryKind::Arc));
    assert_eq!(OdrRoadGeometryKind::from_xml("poly3"), None);
    assert_eq!(OdrRoadGeometryKind::Spiral.as_xml(), "spiral");
}

#[test]
fn spellings_round_trip() {
    for c in [
        OdrRoadMarkColor::Black,
        OdrRoadMarkColor::Blue,
        OdrRoadMarkColor::Green,
        OdrRoadMarkColor::Orange,
        OdrRoadMarkColor::Red,
        OdrRoadMarkColor::Standard,
        OdrRoadMarkColor::Violet,
        OdrRoadMarkColor::White,
        OdrRoadMarkColor::Yellow,
    ] {
        assert_eq!(OdrRoadMarkColor::from_xml(c.as_xml()), c);
    }
    assert_eq!(OdrSpeedUnit::KMH.as_xml(), "km/h");
    assert_eq!(OdrOrientation::Unoriented.as_xml(), "none");
}

#[test]
fn defaults_follow_the_document_defaults() {
    assert_eq!(OdrTrafficRule::default(), OdrTrafficRule::RHT);
    assert_eq!(TrafficRule::default(), TrafficRule::RHT);
}
