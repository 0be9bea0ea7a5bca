use vstd::prelude::*;

use crate::enums::OdrRoadMarkType;

verus! {

/// How a line of a road mark repeats along the road.
#[derive(Clone, Copy, Debug, PartialEq, Eq, Structural)]
pub enum LinePattern {
    /// One unbroken line over the whole mark.
    Solid,
    /// Dashes of the default broken length, separated by the default space.
    Broken,
    /// Short dots of the botts-dots size and spacing.
    Dots,
}

/// Where a line of a road mark sits across the lane boundary.
#[derive(Clone, Copy, Debug, PartialEq, Eq, Structural)]
pub enum LineSlot {
    /// On the boundary itself, with the full mark width.
    Middle,
    /// The inner line of a double mark: half the mark width, shifted by half
    /// a width and half the double-line gap towards the lane.
    Inner,
    /// The outer line of a double mark: half the mark width, shifted by half
    /// a width and half the double-line gap away from the lane.
    Outer,
}

/// One line of the default layout of a road-mark type.
#[derive(Clone, Copy, Debug, PartialEq, Eq, Structural)]
pub struct DefaultLine {
    pub pattern: LinePattern,
    pub slot: LineSlot,
}

/// Which description of a road mark its geometry is built from.
#[derive(Clone, Copy, Debug, PartialEq, Eq, Structural)]
pub enum MarkSource {
    /// The literal line list of the `explicit` block.
    Explicit,
    /// The repeating lines of the detailed `type` block.
    TypeDetail,
    /// The default layout of the mark type.
    Default,
}

pub open spec fn line(pattern: LinePattern, slot: LineSlot) -> DefaultLine {
    DefaultLine { pattern, slot }
}

/// The default lines of each road-mark type.
pub open spec fn spec_default_lines(t: OdrRoadMarkType) -> Seq<DefaultLine> {
    match t {
        OdrRoadMarkType::Solid | OdrRoadMarkType::Edge => seq![
            line(LinePattern::Solid, LineSlot::Middle),
        ],
        OdrRoadMarkType::Broken => seq![line(LinePattern::Broken, LineSlot::Middle)],
        OdrRoadMarkType::SolidSolid => seq![
            line(LinePattern::Solid, LineSlot::Inner),
            line(LinePattern::Solid, LineSlot::Outer),
        ],
        OdrRoadMarkType::BrokenBroken => seq![
            line(LinePattern::Broken, LineSlot::Inner),
            line(LinePattern::Broken, LineSlot::Outer),
        ],
        OdrRoadMarkType::SolidBroken => seq![
            line(LinePattern::Solid, LineSlot::Inner),
            line(LinePattern::Broken, LineSlot::Outer),
        ],
        OdrRoadMarkType::BrokenSolid => seq![
            line(LinePattern::Broken, LineSlot::Inner),
            line(LinePattern::Solid, LineSlot::Outer),
        ],
        OdrRoadMarkType::BottsDots => seq![line(LinePattern::Dots, LineSlot::Middle)],
        OdrRoadMarkType::NoMark
        | OdrRoadMarkType::Grass
        | OdrRoadMarkType::Curb
        | OdrRoadMarkType::Custom => Seq::empty(),
    }
}

fn single_line(pattern: LinePattern) -> (v: Vec<DefaultLine>)
    ensures
        v@ == seq![line(pattern, LineSlot::Middle)],
{
    let mut v: Vec<DefaultLine> = Vec::new();
    v.push(DefaultLine { pattern, slot: LineSlot::Middle });
    assert(v@ =~= seq![line(pattern, LineSlot::Middle)]);
    v
}

fn double_line(inner: LinePattern, outer: LinePattern) -> (v: Vec<DefaultLine>)
    ensures
        v@ == seq![line(inner, LineSlot::Inner), line(outer, LineSlot::Outer)],
{
    let mut v: Vec<DefaultLine> = Vec::new();
    v.push(DefaultLine { pattern: inner, slot: LineSlot::Inner });
    v.push(DefaultLine { pattern: outer, slot: LineSlot::Outer });
    assert(v@ =~= seq![line(inner, LineSlot::Inner), line(outer, LineSlot::Outer)]);
    v
}

/// The lines that a road mark of type `mark_type` draws when it has neither
/// an explicit nor a detailed line list.
pub fn default_lines(mark_type: OdrRoadMarkType) -> (r: Vec<DefaultLine>)
    ensures
        r@ == spec_default_lines(mark_type),
{
    match mark_type {
        OdrRoadMarkType::Solid | OdrRoadMarkType::Edge => single_line(LinePattern::Solid),
        OdrRoadMarkType::Broken => single_line(LinePattern::Broken),
        OdrRoadMarkType::SolidSolid => double_line(LinePattern::Solid, LinePattern::Solid),
        OdrRoadMarkType::BrokenBroken => double_line(LinePattern::Broken, LinePattern::Broken),
        OdrRoadMarkType::SolidBroken => double_line(LinePattern::Solid, LinePattern::Broken),
        OdrRoadMarkType::BrokenSolid => double_line(LinePattern::Broken, LinePattern::Solid),
        OdrRoadMarkType::BottsDots => single_line(LinePattern::Dots),
        OdrRoadMarkType::NoMark
        | OdrRoadMarkType::Grass
        | OdrRoadMarkType::Curb
        | OdrRoadMarkType::Custom => Vec::new(),
    }
}

/// The description a road mark is built from: none for a mark of type
/// `none`; otherwise the explicit block if present, then the detailed type
/// block, then the default layout.
pub open spec fn spec_mark_source(
    mark_type: OdrRoadMarkType,
    has_explicit: bool,
    has_type_detail: bool,
) -> Option<MarkSource> {
    if mark_type == OdrRoadMarkType::NoMark {
        None
    } else if has_explicit {
        Some(MarkSource::Explicit)
    } else if has_type_detail {
        Some(MarkSource::TypeDetail)
    } else {
        Some(MarkSource::Default)
    }
}

pub fn mark_source(mark_type: OdrRoadMarkType, has_explicit: bool, has_type_detail: bool) -> (r:
    Option<MarkSource>)
    ensures
        r == spec_mark_source(mark_type, has_explicit, has_type_detail),
{
    if mark_type == OdrRoadMarkType::NoMark {
        None
    } else if has_explicit {
        Some(MarkSource::Explicit)
    } else if has_type_detail {
        Some(MarkSource::TypeDetail)
    } else {
        Some(MarkSource::Default)
    }
}

/// The mark whose offset ends mark `index` of a lane holding `count` marks:
/// the next one, or none for the last mark, which runs to the section's end.
pub fn next_mark_index(index: usize, count: usize) -> (r: Option<usize>)
    requires
        index < count,
    ensures
        index + 1 < count ==> r == Some((index + 1) as usize),
        index + 1 >= count ==> r is None,
{
    if index + 1 < count {
        Some(index + 1)
    } else {
        None
    }
}

} // verus!
