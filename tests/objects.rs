use odr_mesh::enums::OdrParkingSpaceAccess;
use odr_mesh::objects::{OdrCornerReference, OdrJunctionPriority, OdrLaneValidity, OdrParkingSpace};

#[test]
fn small_records_keep_their_fields() {
    let v = OdrLaneValidity::new(-2, 3);
    assert_eq!((v.from_lane, v.to_lane), (-2, 3));
    assert_eq!(OdrCornerReference::new(7).id, 7);
    let p = OdrJunctionPriority::new("1".to_string(), "2".to_string());
    assert_eq!((p.high.as_str(), p.low.as_str()), ("1", "2"));
    let s = OdrParkingSpace::new(OdrParkingSpaceAccess::Bus);
    assert_eq!(s.access, OdrParkingSpaceAccess::Bus);
    assert!(s.restrictions.is_none());
}
