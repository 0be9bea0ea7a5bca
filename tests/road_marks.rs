use odr_mesh::enums::OdrRoadMarkType;
use odr_mesh::road_marks::{
    default_lines, mark_source, next_mark_index, DefaultLine, LinePattern, LineSlot, MarkSource,
};

#[test]
fn test_get_default_lines_for_solid() {
    let lines = default_lines(OdrRoadMarkType::Solid);
    assert_eq!(lines.len(), 1);
    // a solid line has no space between dashes
    assert_eq!(lines[0].pattern, LinePattern::Solid);
}

#[test]
fn test_get_default_lines_for_broken() {
    let lines = default_lines(OdrRoadMarkType::Broken);
    assert_eq!(lines.len(), 1);
    assert_eq!(lines[0].pattern, LinePattern::Broken);
}

#[test]
fn test_get_default_lines_for_double() {
    let lines = default_lines(OdrRoadMarkType::SolidSolid);
    assert_eq!(lines.len(), 2);
    // the two lines sit on opposite sides of the boundary
    assert_eq!(lines[0].slot, LineSlot::Inner);
    assert_eq!(lines[1].slot, LineSlot::Outer);
}

#[test]
fn test_get_default_lines_for_none() {
    assert!(default_lines(OdrRoadMarkType::NoMark).is_empty());
}

#[test]
fn solid_solid_is_two_solid_half_lines() {
    let lines = default_lines(OdrRoadMarkType::SolidSolid);
    assert_eq!(
        lines,
        vec![
            DefaultLine { pattern: LinePattern::Solid, slot: LineSlot::Inner },
            DefaultLine { pattern: LinePattern::Solid, slot: LineSlot::Outer },
        ]
    );
}

#[test]
fn mixed_double_lines_keep_inner_and_outer_patterns() {
    let sb = default_lines(OdrRoadMarkType::SolidBroken);
    assert_eq!(sb[0], DefaultLine { pattern: LinePattern::Solid, slot: LineSlot::Inner });
    assert_eq!(sb[1], DefaultLine { pattern: LinePattern::Broken, slot: LineSlot::Outer });
    let bs = default_lines(OdrRoadMarkType::BrokenSolid);
    assert_eq!(bs[0], DefaultLine { pattern: LinePattern::Broken, slot: LineSlot::Inner });
    assert_eq!(bs[1], DefaultLine { pattern: LinePattern::Solid, slot: LineSlot::Outer });
    let bb = default_lines(OdrRoadMarkType::BrokenBroken);
    assert!(bb.iter().all(|l| l.pattern == LinePattern::Broken));
}

#[test]
fn edge_and_dots_are_single_lines() {
    assert_eq!(
        default_lines(OdrRoadMarkType::Edge),
        vec![DefaultLine { pattern: LinePattern::Solid, slot: LineSlot::Middle }]
    );
    assert_eq!(
        default_lines(OdrRoadMarkType::BottsDots),
        vec![DefaultLine { pattern: LinePattern::Dots, slot: LineSlot::Middle }]
    );
}

#[test]
fn grass_curb_custom_draw_nothing() {
    assert!(default_lines(OdrRoadMarkType::Grass).is_empty());
    assert!(default_lines(OdrRoadMarkType::Curb).is_empty());
    assert!(default_lines(OdrRoadMarkType::Custom).is_empty());
}

#[test]
fn mark_source_priority() {
    let t = OdrRoadMarkType::Solid;
    assert_eq!(mark_source(t, true, true), Some(MarkSource::Explicit));
    assert_eq!(mark_source(t, false, true), Some(MarkSource::TypeDetail));
    assert_eq!(mark_source(t, false, false), Some(MarkSource::Default));
    assert_eq!(mark_source(OdrRoadMarkType::NoMark, true, true), None);
}

#[test]
fn mark_ranges_end_at_next_mark() {
    assert_eq!(next_mark_index(0, 3), Some(1));
    assert_eq!(next_mark_index(1, 3), Some(2));
    assert_eq!(next_mark_index(2, 3), None);
}
