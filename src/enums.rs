use vstd::prelude::*;

use crate::text::str_eq;

verus! {

/// End of a linked element that a road or connection touches.
#[derive(Clone, Copy, Debug, PartialEq, Eq, Structural)]
pub enum OdrContactPoint {
    Start,
    End,
}

impl OdrContactPoint {
    /// The spelling of this value in an OpenDRIVE document.
    pub open spec fn spelling(self) -> Seq<char> {
        match self {
            OdrContactPoint::Start => "start"@,
            OdrContactPoint::End => "end"@,
        }
    }

    /// The value spelled `s`; an unknown spelling reads as `Start`.
    pub open spec fn spec_from_xml(s: Seq<char>) -> Self {
        if s == "start"@ {
            OdrContactPoint::Start
        } else if s == "end"@ {
            OdrContactPoint::End
        } else {
            OdrContactPoint::Start
        }
    }

    /// Reads the value from its document spelling.
    pub fn from_xml(s: &str) -> (r: Self)
        ensures
            r == Self::spec_from_xml(s@),
    {
        if str_eq(s, "start") {
            OdrContactPoint::Start
        } else if str_eq(s, "end") {
            OdrContactPoint::End
        } else {
            OdrContactPoint::Start
        }
    }

    /// The document spelling of this value.
    pub fn as_xml(&self) -> (r: &'static str)
        ensures
            r@ == self.spelling(),
    {
        match self {
            OdrContactPoint::Start => "start",
            OdrContactPoint::End => "end",
        }
    }

    /// Reading a value's own spelling gives the value back.
    pub proof fn lemma_spelling_round_trip(self)
        ensures
            Self::spec_from_xml(self.spelling()) == self,
    {
        reveal_strlit("start");
        reveal_strlit("end");
        assert("start"@.len() == 5);
        assert("end"@.len() == 3);
    }
}

/// Direction of a linked element relative to the road.
#[derive(Clone, Copy, Debug, PartialEq, Eq, Structural)]
pub enum OdrElementDir {
    Positive,
    Negative,
}

impl OdrElementDir {
    /// The spelling of this value in an OpenDRIVE document.
    pub open spec fn spelling(self) -> Seq<char> {
        match self {
            OdrElementDir::Positive => "+"@,
            OdrElementDir::Negative => "-"@,
        }
    }

    /// The value spelled `s`; an unknown spelling reads as `Positive`.
    pub open spec fn spec_from_xml(s: Seq<char>) -> Self {
        if s == "+"@ {
            OdrElementDir::Positive
        } else if s == "-"@ {
            OdrElementDir::Negative
        } else {
            OdrElementDir::Positive
        }
    }

    /// Reads the value from its document spelling.
    pub fn from_xml(s: &str) -> (r: Self)
        ensures
            r == Self::spec_from_xml(s@),
    {
        if str_eq(s, "+") {
            OdrElementDir::Positive
        } else if str_eq(s, "-") {
            OdrElementDir::Negative
        } else {
            OdrElementDir::Positive
        }
    }

    /// The document spelling of this value.
    pub fn as_xml(&self) -> (r: &'static str)
        ensures
            r@ == self.spelling(),
    {
        match self {
            OdrElementDir::Positive => "+",
            OdrElementDir::Negative => "-",
        }
    }

    /// Reading a value's own spelling gives the value back.
    pub proof fn lemma_spelling_round_trip(self)
        ensures
            Self::spec_from_xml(self.spelling()) == self,
    {
        reveal_strlit("+");
        reveal_strlit("-");
        assert("+"@.len() == 1);
        assert("+"@[0] == '+');
        assert("-"@.len() == 1);
        assert("-"@[0] == '-');
    }
}

/// Unit of a lane speed limit.
#[derive(Clone, Copy, Debug, PartialEq, Eq, Structural)]
pub enum OdrSpeedUnit {
    KMH,
    MPS,
    MPH,
}

impl OdrSpeedUnit {
    /// The spelling of this value in an OpenDRIVE document.
    pub open spec fn spelling(self) -> Seq<char> {
        match self {
            OdrSpeedUnit::KMH => "km/h"@,
            OdrSpeedUnit::MPS => "m/s"@,
            OdrSpeedUnit::MPH => "mph"@,
        }
    }

    /// The value spelled `s`; an unknown spelling reads as `KMH`.
    pub open spec fn spec_from_xml(s: Seq<char>) -> Self {
        if s == "km/h"@ {
            OdrSpeedUnit::KMH
        } else if s == "m/s"@ {
            OdrSpeedUnit::MPS
        } else if s == "mph"@ {
            OdrSpeedUnit::MPH
        } else {
            OdrSpeedUnit::KMH
        }
    }

    /// Reads the value from its document spelling.
    pub fn from_xml(s: &str) -> (r: Self)
        ensures
            r == Self::spec_from_xml(s@),
    {
        if str_eq(s, "km/h") {
            OdrSpeedUnit::KMH
        } else if str_eq(s, "m/s") {
            OdrSpeedUnit::MPS
        } else if str_eq(s, "mph") {
            OdrSpeedUnit::MPH
        } else {
            OdrSpeedUnit::KMH
        }
    }

    /// The document spelling of this value.
    pub fn as_xml(&self) -> (r: &'static str)
        ensures
            r@ == self.spelling(),
    {
        match self {
            OdrSpeedUnit::KMH => "km/h",
            OdrSpeedUnit::MPS => "m/s",
            OdrSpeedUnit::MPH => "mph",
        }
    }

    /// Reading a value's own spelling gives the value back.
    pub proof fn lemma_spelling_round_trip(self)
        ensures
            Self::spec_from_xml(self.spelling()) == self,
    {
        reveal_strlit("km/h");
        reveal_strlit("m/s");
        reveal_strlit("mph");
        assert("km/h"@.len() == 4);
        assert("km/h"@[1] == 'm');
        assert("m/s"@.len() == 3);
        assert("m/s"@[1] == '/');
        assert("mph"@.len() == 3);
        assert("mph"@[1] == 'p');
    }
}

/// Orientation of an object or signal relative to the reference line.
#[derive(Clone, Copy, Debug, PartialEq, Eq, Structural)]
pub enum OdrOrientation {
    Positive,
    Negative,
    Unoriented,
}

impl OdrOrientation {
    /// The spelling of this value in an OpenDRIVE document.
    pub open spec fn spelling(self) -> Seq<char> {
        match self {
            OdrOrientation::Positive => "+"@,
            OdrOrientation::Negative => "-"@,
            OdrOrientation::Unoriented => "none"@,
        }
    }

    /// The value spelled `s`; an unknown spelling reads as `Unoriented`.
    pub open spec fn spec_from_xml(s: Seq<char>) -> Self {
        if s == "+"@ {
            OdrOrientation::Positive
        } else if s == "-"@ {
            OdrOrientation::Negative
        } else if s == "none"@ {
            OdrOrientation::Unoriented
        } else {
            OdrOrientation::Unoriented
        }
    }

    /// Reads the value from its document spelling.
    pub fn from_xml(s: &str) -> (r: Self)
        ensures
            r == Self::spec_from_xml(s@),
    {
        if str_eq(s, "+") {
            OdrOrientation::Positive
        } else if str_eq(s, "-") {
            OdrOrientation::Negative
        } else if str_eq(s, "none") {
            OdrOrientation::Unoriented
        } else {
            OdrOrientation::Unoriented
        }
    }

    /// The document spelling of this value.
    pub fn as_xml(&self) -> (r: &'static str)
        ensures
            r@ == self.spelling(),
    {
        match self {
            OdrOrientation::Positive => "+",
            OdrOrientation::Negative => "-",
            OdrOrientation::Unoriented => "none",
        }
    }

    /// Reading a value's own spelling gives the value back.
    pub proof fn lemma_spelling_round_trip(self)
        ensures
            Self::spec_from_xml(self.spelling()) == self,
    {
        reveal_strlit("+");
        reveal_strlit("-");
        reveal_strlit("none");
        assert("+"@.len() == 1);
        assert("+"@[0] == '+');
        assert("-"@.len() == 1);
        assert("-"@[0] == '-');
        assert("none"@.len() == 4);
        assert("none"@[0] == 'n');
    }
}

/// Colour of a road mark or of one of its lines.
#[derive(Clone, Copy, Debug, PartialEq, Eq, Structural)]
pub enum OdrRoadMarkColor {
    Black,
    Blue,
    Green,
    Orange,
    Red,
    Standard,
    Violet,
    White,
    Yellow,
}

impl OdrRoadMarkColor {
    /// The spelling of this value in an OpenDRIVE document.
    pub open spec fn spelling(self) -> Seq<char> {
        match self {
            OdrRoadMarkColor::Black => "black"@,
            OdrRoadMarkColor::Blue => "blue"@,
            OdrRoadMarkColor::Green => "green"@,
            OdrRoadMarkColor::Orange => "orange"@,
            OdrRoadMarkColor::Red => "red"@,
            OdrRoadMarkColor::Standard => "standard"@,
            OdrRoadMarkColor::Violet => "violet"@,
            OdrRoadMarkColor::White => "white"@,
            OdrRoadMarkColor::Yellow => "yellow"@,
        }
    }

    /// The value spelled `s`; an unknown spelling reads as `Standard`.
    pub open spec fn spec_from_xml(s: Seq<char>) -> Self {
        if s == "black"@ {
            OdrRoadMarkColor::Black
        } else if s == "blue"@ {
            OdrRoadMarkColor::Blue
        } else if s == "green"@ {
            OdrRoadMarkColor::Green
        } else if s == "orange"@ {
            OdrRoadMarkColor::Orange
        } else if s == "red"@ {
            OdrRoadMarkColor::Red
        } else if s == "standard"@ {
            OdrRoadMarkColor::Standard
        } else if s == "violet"@ {
            OdrRoadMarkColor::Violet
        } else if s == "white"@ {
            OdrRoadMarkColor::White
        } else if s == "yellow"@ {
            OdrRoadMarkColor::Yellow
        } else {
            OdrRoadMarkColor::Standard
        }
    }

    /// Reads the value from its document spelling.
    pub fn from_xml(s: &str) -> (r: Self)
        ensures
            r == Self::spec_from_xml(s@),
    {
        if str_eq(s, "black") {
            OdrRoadMarkColor::Black
        } else if str_eq(s, "blue") {
            OdrRoadMarkColor::Blue
        } else if str_eq(s, "green") {
            OdrRoadMarkColor::Green
        } else if str_eq(s, "orange") {
            OdrRoadMarkColor::Orange
        } else if str_eq(s, "red") {
            OdrRoadMarkColor::Red
        } else if str_eq(s, "standard") {
            OdrRoadMarkColor::Standard
        } else if str_eq(s, "violet") {
            OdrRoadMarkColor::Violet
        } else if str_eq(s, "white") {
            OdrRoadMarkColor::White
        } else if str_eq(s, "yellow") {
            OdrRoadMarkColor::Yellow
        } else {
            OdrRoadMarkColor::Standard
        }
    }

    /// The document spelling of this value.
    pub fn as_xml(&self) -> (r: &'static str)
        ensures
            r@ == self.spelling(),
    {
        match self {
            OdrRoadMarkColor::Black => "black",
            OdrRoadMarkColor::Blue => "blue",
            OdrRoadMarkColor::Green => "green",
            OdrRoadMarkColor::Orange => "orange",
            OdrRoadMarkColor::Red => "red",
            OdrRoadMarkColor::Standard => "standard",
            OdrRoadMarkColor::Violet => "violet",
            OdrRoadMarkColor::White => "white",
            OdrRoadMarkColor::Yellow => "yellow",
        }
    }

    /// Reading a value's own spelling gives the value back.
    pub proof fn lemma_spelling_round_trip(self)
        ensures
            Self::spec_from_xml(self.spelling()) == self,
    {
        reveal_strlit("black");
        reveal_strlit("blue");
        reveal_strlit("green");
        reveal_strlit("orange");
        reveal_strlit("red");
        reveal_strlit("standard");
        reveal_strlit("violet");
        reveal_strlit("white");
        reveal_strlit("yellow");
        assert("black"@.len() == 5);
        assert("black"@[0] == 'b');
        assert("blue"@.len() == 4);
        assert("blue"@[0] == 'b');
        assert("green"@.len() == 5);
        assert("green"@[0] == 'g');
        assert("orange"@.len() == 6);
        assert("orange"@[0] == 'o');
        assert("red"@.len() == 3);
        assert("red"@[0] == 'r');
        assert("standard"@.len() == 8);
        assert("standard"@[0] == 's');
        assert("violet"@.len() == 6);
        assert("violet"@[0] == 'v');
        assert("white"@.len() == 5);
        assert("white"@[0] == 'w');
        assert("yellow"@.len() == 6);
        assert("yellow"@[0] == 'y');
    }
}

/// Weight of a road mark.
#[derive(Clone, Copy, Debug, PartialEq, Eq, Structural)]
pub enum OdrRoadMarkWeight {
    Bold,
    Standard,
}

impl OdrRoadMarkWeight {
    /// The spelling of this value in an OpenDRIVE document.
    pub open spec fn spelling(self) -> Seq<char> {
        match self {
            OdrRoadMarkWeight::Bold => "bold"@,
            OdrRoadMarkWeight::Standard => "standard"@,
        }
    }

    /// The value spelled `s`; an unknown spelling reads as `Standard`.
    pub open spec fn spec_from_xml(s: Seq<char>) -> Self {
        if s == "bold"@ {
            OdrRoadMarkWeight::Bold
        } else if s == "standard"@ {
            OdrRoadMarkWeight::Standard
        } else {
            OdrRoadMarkWeight::Standard
        }
    }

    /// Reads the value from its document spelling.
    pub fn from_xml(s: &str) -> (r: Self)
        ensures
            r == Self::spec_from_xml(s@),
    {
        if str_eq(s, "bold") {
            OdrRoadMarkWeight::Bold
        } else if str_eq(s, "standard") {
            OdrRoadMarkWeight::Standard
        } else {
            OdrRoadMarkWeight::Standard
        }
    }

    /// The document spelling of this value.
    pub fn as_xml(&self) -> (r: &'static str)
        ensures
            r@ == self.spelling(),
    {
        match self {
            OdrRoadMarkWeight::Bold => "bold",
            OdrRoadMarkWeight::Standard => "standard",
        }
    }

    /// Reading a value's own spelling gives the value back.
    pub proof fn lemma_spelling_round_trip(self)
        ensures
            Self::spec_from_xml(self.spelling()) == self,
    {
        reveal_strlit("bold");
        reveal_strlit("standard");
        assert("bold"@.len() == 4);
        assert("standard"@.len() == 8);
    }
}

/// Kind of a road mark; the default line pattern follows from it.
#[derive(Clone, Copy, Debug, PartialEq, Eq, Structural)]
pub enum OdrRoadMarkType {
    BottsDots,
    BrokenBroken,
    BrokenSolid,
    Broken,
    Curb,
    Custom,
    Edge,
    Grass,
    NoMark,
    SolidBroken,
    SolidSolid,
    Solid,
}

impl OdrRoadMarkType {
    /// The spelling of this value in an OpenDRIVE document.
    pub open spec fn spelling(self) -> Seq<char> {
        match self {
            OdrRoadMarkType::BottsDots => "botts dots"@,
            OdrRoadMarkType::BrokenBroken => "broken broken"@,
            OdrRoadMarkType::BrokenSolid => "broken solid"@,
            OdrRoadMarkType::Broken => "broken"@,
            OdrRoadMarkType::Curb => "curb"@,
            OdrRoadMarkType::Custom => "custom"@,
            OdrRoadMarkType::Edge => "edge"@,
            OdrRoadMarkType::Grass => "grass"@,
            OdrRoadMarkType::NoMark => "none"@,
            OdrRoadMarkType::SolidBroken => "solid broken"@,
            OdrRoadMarkType::SolidSolid => "solid solid"@,
            OdrRoadMarkType::Solid => "solid"@,
        }
    }

    /// The value spelled `s`; an unknown spelling reads as `NoMark`.
    pub open spec fn spec_from_xml(s: Seq<char>) -> Self {
        if s == "botts dots"@ {
            OdrRoadMarkType::BottsDots
        } else if s == "broken broken"@ {
            OdrRoadMarkType::BrokenBroken
        } else if s == "broken solid"@ {
            OdrRoadMarkType::BrokenSolid
        } else if s == "broken"@ {
            OdrRoadMarkType::Broken
        } else if s == "curb"@ {
            OdrRoadMarkType::Curb
        } else if s == "custom"@ {
            OdrRoadMarkType::Custom
        } else if s == "edge"@ {
            OdrRoadMarkType::Edge
        } else if s == "grass"@ {
            OdrRoadMarkType::Grass
        } else if s == "none"@ {
            OdrRoadMarkType::NoMark
        } else if s == "solid broken"@ {
            OdrRoadMarkType::SolidBroken
        } else if s == "solid solid"@ {
            OdrRoadMarkType::SolidSolid
        } else if s == "solid"@ {
            OdrRoadMarkType::Solid
        } else {
            OdrRoadMarkType::NoMark
        }
    }

    /// Reads the value from its document spelling.
    pub fn from_xml(s: &str) -> (r: Self)
        ensures
            r == Self::spec_from_xml(s@),
    {
        if str_eq(s, "botts dots") {
            OdrRoadMarkType::BottsDots
        } else if str_eq(s, "broken broken") {
            OdrRoadMarkType::BrokenBroken
        } else if str_eq(s, "broken solid") {
            OdrRoadMarkType::BrokenSolid
        } else if str_eq(s, "broken") {
            OdrRoadMarkType::Broken
        } else if str_eq(s, "curb") {
            OdrRoadMarkType::Curb
        } else if str_eq(s, "custom") {
            OdrRoadMarkType::Custom
        } else if str_eq(s, "edge") {
            OdrRoadMarkType::Edge
        } else if str_eq(s, "grass") {
            OdrRoadMarkType::Grass
        } else if str_eq(s, "none") {
            OdrRoadMarkType::NoMark
        } else if str_eq(s, "solid broken") {
            OdrRoadMarkType::SolidBroken
        } else if str_eq(s, "solid solid") {
            OdrRoadMarkType::SolidSolid
        } else if str_eq(s, "solid") {
            OdrRoadMarkType::Solid
        } else {
            OdrRoadMarkType::NoMark
        }
    }

    /// The document spelling of this value.
    pub fn as_xml(&self) -> (r: &'static str)
        ensures
            r@ == self.spelling(),
    {
        match self {
            OdrRoadMarkType::BottsDots => "botts dots",
            OdrRoadMarkType::BrokenBroken => "broken broken",
            OdrRoadMarkType::BrokenSolid => "broken solid",
            OdrRoadMarkType::Broken => "broken",
            OdrRoadMarkType::Curb => "curb",
            OdrRoadMarkType::Custom => "custom",
            OdrRoadMarkType::Edge => "edge",
            OdrRoadMarkType::Grass => "grass",
            OdrRoadMarkType::NoMark => "none",
            OdrRoadMarkType::SolidBroken => "solid broken",
            OdrRoadMarkType::SolidSolid => "solid solid",
            OdrRoadMarkType::Solid => "solid",
        }
    }

    /// Reading a value's own spelling gives the value back.
    pub proof fn lemma_spelling_round_trip(self)
        ensures
            Self::spec_from_xml(self.spelling()) == self,
    {
        reveal_strlit("botts dots");
        reveal_strlit("broken broken");
        reveal_strlit("broken solid");
        reveal_strlit("broken");
        reveal_strlit("curb");
        reveal_strlit("custom");
        reveal_strlit("edge");
        reveal_strlit("grass");
        reveal_strlit("none");
        reveal_strlit("solid broken");
        reveal_strlit("solid solid");
        reveal_strlit("solid");
        assert("botts dots"@.len() == 10);
        assert("botts dots"@[0] == 'b');
        assert("broken broken"@.len() == 13);
        assert("broken broken"@[0] == 'b');
        assert("broken solid"@.len() == 12);
        assert("broken solid"@[0] == 'b');
        assert("broken"@.len() == 6);
        assert("broken"@[0] == 'b');
        assert("curb"@.len() == 4);
        assert("curb"@[0] == 'c');
        assert("custom"@.len() == 6);
        assert("custom"@[0] == 'c');
        assert("edge"@.len() == 4);
        assert("edge"@[0] == 'e');
        assert("grass"@.len() == 5);
        assert("grass"@[0] == 'g');
        assert("none"@.len() == 4);
        assert("none"@[0] == 'n');
        assert("solid broken"@.len() == 12);
        assert("solid broken"@[0] == 's');
        assert("solid solid"@.len() == 11);
        assert("solid solid"@[0] == 's');
        assert("solid"@.len() == 5);
        assert("solid"@[0] == 's');
    }
}

/// Lane changes that a road mark allows.
#[derive(Clone, Copy, Debug, PartialEq, Eq, Structural)]
pub enum OdrRoadMarkLaneChange {
    Both,
    Decrease,
    Increase,
    NoChange,
}

impl OdrRoadMarkLaneChange {
    /// The spelling of this value in an OpenDRIVE document.
    pub open spec fn spelling(self) -> Seq<char> {
        match self {
            OdrRoadMarkLaneChange::Both => "both"@,
            OdrRoadMarkLaneChange::Decrease => "decrease"@,
            OdrRoadMarkLaneChange::Increase => "increase"@,
            OdrRoadMarkLaneChange::NoChange => "none"@,
        }
    }

    /// The value spelled `s`; an unknown spelling reads as `NoChange`.
    pub open spec fn spec_from_xml(s: Seq<char>) -> Self {
        if s == "both"@ {
            OdrRoadMarkLaneChange::Both
        } else if s == "decrease"@ {
            OdrRoadMarkLaneChange::Decrease
        } else if s == "increase"@ {
            OdrRoadMarkLaneChange::Increase
        } else if s == "none"@ {
            OdrRoadMarkLaneChange::NoChange
        } else {
            OdrRoadMarkLaneChange::NoChange
        }
    }

    /// Reads the value from its document spelling.
    pub fn from_xml(s: &str) -> (r: Self)
        ensures
            r == Self::spec_from_xml(s@),
    {
        if str_eq(s, "both") {
            OdrRoadMarkLaneChange::Both
        } else if str_eq(s, "decrease") {
            OdrRoadMarkLaneChange::Decrease
        } else if str_eq(s, "increase") {
            OdrRoadMarkLaneChange::Increase
        } else if str_eq(s, "none") {
            OdrRoadMarkLaneChange::NoChange
        } else {
            OdrRoadMarkLaneChange::NoChange
        }
    }

    /// The document spelling of this value.
    pub fn as_xml(&self) -> (r: &'static str)
        ensures
            r@ == self.spelling(),
    {
        match self {
            OdrRoadMarkLaneChange::Both => "both",
            OdrRoadMarkLaneChange::Decrease => "decrease",
            OdrRoadMarkLaneChange::Increase => "increase",
            OdrRoadMarkLaneChange::NoChange => "none",
        }
    }

    /// Reading a value's own spelling gives the value back.
    pub proof fn lemma_spelling_round_trip(self)
        ensures
            Self::spec_from_xml(self.spelling()) == self,
    {
        reveal_strlit("both");
        reveal_strlit("decrease");
        reveal_strlit("increase");
        reveal_strlit("none");
        assert("both"@.len() == 4);
        assert("both"@[0] == 'b');
        assert("decrease"@.len() == 8);
        assert("decrease"@[0] == 'd');
        assert("increase"@.len() == 8);
        assert("increase"@[0] == 'i');
        assert("none"@.len() == 4);
        assert("none"@[0] == 'n');
    }
}

/// Traffic rule that a road-mark line carries.
#[derive(Clone, Copy, Debug, PartialEq, Eq, Structural)]
pub enum OdrRoadMarkRule {
    Caution,
    NoPassing,
    NoRule,
}

impl OdrRoadMarkRule {
    /// The spelling of this value in an OpenDRIVE document.
    pub open spec fn spelling(self) -> Seq<char> {
        match self {
            OdrRoadMarkRule::Caution => "caution"@,
            OdrRoadMarkRule::NoPassing => "no passing"@,
            OdrRoadMarkRule::NoRule => "none"@,
        }
    }

    /// The value spelled `s`; an unknown spelling reads as `NoRule`.
    pub open spec fn spec_from_xml(s: Seq<char>) -> Self {
        if s == "caution"@ {
            OdrRoadMarkRule::Caution
        } else if s == "no passing"@ {
            OdrRoadMarkRule::NoPassing
        } else if s == "none"@ {
            OdrRoadMarkRule::NoRule
        } else {
            OdrRoadMarkRule::NoRule
        }
    }

    /// Reads the value from its document spelling.
    pub fn from_xml(s: &str) -> (r: Self)
        ensures
            r == Self::spec_from_xml(s@),
    {
        if str_eq(s, "caution") {
            OdrRoadMarkRule::Caution
        } else if str_eq(s, "no passing") {
            OdrRoadMarkRule::NoPassing
        } else if str_eq(s, "none") {
            OdrRoadMarkRule::NoRule
        } else {
            OdrRoadMarkRule::NoRule
        }
    }

    /// The document spelling of this value.
    pub fn as_xml(&self) -> (r: &'static str)
        ensures
            r@ == self.spelling(),
    {
        match self {
            OdrRoadMarkRule::Caution => "caution",
            OdrRoadMarkRule::NoPassing => "no passing",
            OdrRoadMarkRule::NoRule => "none",
        }
    }

    /// Reading a value's own spelling gives the value back.
    pub proof fn lemma_spelling_round_trip(self)
        ensures
            Self::spec_from_xml(self.spelling()) == self,
    {
        reveal_strlit("caution");
        reveal_strlit("no passing");
        reveal_strlit("none");
        assert("caution"@.len() == 7);
        assert("no passing"@.len() == 10);
        assert("none"@.len() == 4);
    }
}

/// Kind of a junction.
#[derive(Clone, Copy, Debug, PartialEq, Eq, Structural)]
pub enum OdrJunctionType {
    Default,
    Direct,
    Virtual,
    Crossing,
}

impl OdrJunctionType {
    /// The spelling of this value in an OpenDRIVE document.
    pub open spec fn spelling(self) -> Seq<char> {
        match self {
            OdrJunctionType::Default => "default"@,
            OdrJunctionType::Direct => "direct"@,
            OdrJunctionType::Virtual => "virtual"@,
            OdrJunctionType::Crossing => "crossing"@,
        }
    }

    /// The value spelled `s`; an unknown spelling reads as `Default`.
    pub open spec fn spec_from_xml(s: Seq<char>) -> Self {
        if s == "default"@ {
            OdrJunctionType::Default
        } else if s == "direct"@ {
            OdrJunctionType::Direct
        } else if s == "virtual"@ {
            OdrJunctionType::Virtual
        } else if s == "crossing"@ {
            OdrJunctionType::Crossing
        } else {
            OdrJunctionType::Default
        }
    }

    /// Reads the value from its document spelling.
    pub fn from_xml(s: &str) -> (r: Self)
        ensures
            r == Self::spec_from_xml(s@),
    {
        if str_eq(s, "default") {
            OdrJunctionType::Default
        } else if str_eq(s, "direct") {
            OdrJunctionType::Direct
        } else if str_eq(s, "virtual") {
            OdrJunctionType::Virtual
        } else if str_eq(s, "crossing") {
            OdrJunctionType::Crossing
        } else {
            OdrJunctionType::Default
        }
    }

    /// The document spelling of this value.
    pub fn as_xml(&self) -> (r: &'static str)
        ensures
            r@ == self.spelling(),
    {
        match self {
            OdrJunctionType::Default => "default",
            OdrJunctionType::Direct => "direct",
            OdrJunctionType::Virtual => "virtual",
            OdrJunctionType::Crossing => "crossing",
        }
    }

    /// Reading a value's own spelling gives the value back.
    pub proof fn lemma_spelling_round_trip(self)
        ensures
            Self::spec_from_xml(self.spelling()) == self,
    {
        reveal_strlit("default");
        reveal_strlit("direct");
        reveal_strlit("virtual");
        reveal_strlit("crossing");
        assert("default"@.len() == 7);
        assert("default"@[0] == 'd');
        assert("direct"@.len() == 6);
        assert("direct"@[0] == 'd');
        assert("virtual"@.len() == 7);
        assert("virtual"@[0] == 'v');
        assert("crossing"@.len() == 8);
        assert("crossing"@[0] == 'c');
    }
}

/// Side of the road that traffic keeps to.
#[derive(Clone, Copy, Debug, PartialEq, Eq, Structural)]
pub enum OdrTrafficRule {
    LHT,
    RHT,
}

impl OdrTrafficRule {
    /// The spelling of this value in an OpenDRIVE document.
    pub open spec fn spelling(self) -> Seq<char> {
        match self {
            OdrTrafficRule::LHT => "LHT"@,
            OdrTrafficRule::RHT => "RHT"@,
        }
    }

    /// The value spelled `s`; an unknown spelling reads as `RHT`.
    pub open spec fn spec_from_xml(s: Seq<char>) -> Self {
        if s == "LHT"@ {
            OdrTrafficRule::LHT
        } else if s == "RHT"@ {
            OdrTrafficRule::RHT
        } else {
            OdrTrafficRule::RHT
        }
    }

    /// Reads the value from its document spelling.
    pub fn from_xml(s: &str) -> (r: Self)
        ensures
            r == Self::spec_from_xml(s@),
    {
        if str_eq(s, "LHT") {
            OdrTrafficRule::LHT
        } else if str_eq(s, "RHT") {
            OdrTrafficRule::RHT
        } else {
            OdrTrafficRule::RHT
        }
    }

    /// The document spelling of this value.
    pub fn as_xml(&self) -> (r: &'static str)
        ensures
            r@ == self.spelling(),
    {
        match self {
            OdrTrafficRule::LHT => "LHT",
            OdrTrafficRule::RHT => "RHT",
        }
    }

    /// Reading a value's own spelling gives the value back.
    pub proof fn lemma_spelling_round_trip(self)
        ensures
            Self::spec_from_xml(self.spelling()) == self,
    {
        reveal_strlit("LHT");
        reveal_strlit("RHT");
        assert("LHT"@.len() == 3);
        assert("LHT"@[0] == 'L');
        assert("RHT"@.len() == 3);
        assert("RHT"@[0] == 'R');
    }
}

impl Default for OdrTrafficRule {
    fn default() -> (r: Self)
        ensures
            r == OdrTrafficRule::RHT,
    {
        OdrTrafficRule::RHT
    }
}

/// Side of the road that traffic keeps to, in the plain road model.
#[derive(Clone, Copy, Debug, PartialEq, Eq, Structural)]
pub enum TrafficRule {
    LHT,
    RHT,
}

impl TrafficRule {
    /// The spelling of this value in an OpenDRIVE document.
    pub open spec fn spelling(self) -> Seq<char> {
        match self {
            TrafficRule::LHT => "LHT"@,
            TrafficRule::RHT => "RHT"@,
        }
    }

    /// The value spelled `s`; an unknown spelling reads as `RHT`.
    pub open spec fn spec_from_xml(s: Seq<char>) -> Self {
        if s == "LHT"@ {
            TrafficRule::LHT
        } else if s == "RHT"@ {
            TrafficRule::RHT
        } else {
            TrafficRule::RHT
        }
    }

    /// Reads the value from its document spelling.
    pub fn from_xml(s: &str) -> (r: Self)
        ensures
            r == Self::spec_from_xml(s@),
    {
        if str_eq(s, "LHT") {
            TrafficRule::LHT
        } else if str_eq(s, "RHT") {
            TrafficRule::RHT
        } else {
            TrafficRule::RHT
        }
    }

    /// The document spelling of this value.
    pub fn as_xml(&self) -> (r: &'static str)
        ensures
            r@ == self.spelling(),
    {
        match self {
            TrafficRule::LHT => "LHT",
            TrafficRule::RHT => "RHT",
        }
    }

    /// Reading a value's own spelling gives the value back.
    pub proof fn lemma_spelling_round_trip(self)
        ensures
            Self::spec_from_xml(self.spelling()) == self,
    {
        reveal_strlit("LHT");
        reveal_strlit("RHT");
        assert("LHT"@.len() == 3);
        assert("LHT"@[0] == 'L');
        assert("RHT"@.len() == 3);
        assert("RHT"@[0] == 'R');
    }
}

impl Default for TrafficRule {
    fn default() -> (r: Self)
        ensures
            r == TrafficRule::RHT,
    {
        TrafficRule::RHT
    }
}

/// Kind of element that a road link points to.
#[derive(Clone, Copy, Debug, PartialEq, Eq, Structural)]
pub enum OdrRoadLinkElementType {
    Junction,
    Road,
}

impl OdrRoadLinkElementType {
    /// The spelling of this value in an OpenDRIVE document.
    pub open spec fn spelling(self) -> Seq<char> {
        match self {
            OdrRoadLinkElementType::Junction => "junction"@,
            OdrRoadLinkElementType::Road => "road"@,
        }
    }

    /// The value spelled `s`; an unknown spelling reads as `Road`.
    pub open spec fn spec_from_xml(s: Seq<char>) -> Self {
        if s == "junction"@ {
            OdrRoadLinkElementType::Junction
        } else if s == "road"@ {
            OdrRoadLinkElementType::Road
        } else {
            OdrRoadLinkElementType::Road
        }
    }

    /// Reads the value from its document spelling.
    pub fn from_xml(s: &str) -> (r: Self)
        ensures
            r == Self::spec_from_xml(s@),
    {
        if str_eq(s, "junction") {
            OdrRoadLinkElementType::Junction
        } else if str_eq(s, "road") {
            OdrRoadLinkElementType::Road
        } else {
            OdrRoadLinkElementType::Road
        }
    }

    /// The document spelling of this value.
    pub fn as_xml(&self) -> (r: &'static str)
        ensures
            r@ == self.spelling(),
    {
        match self {
            OdrRoadLinkElementType::Junction => "junction",
            OdrRoadLinkElementType::Road => "road",
        }
    }

    /// Reading a value's own spelling gives the value back.
    pub proof fn lemma_spelling_round_trip(self)
        ensures
            Self::spec_from_xml(self.spelling()) == self,
    {
        reveal_strlit("junction");
        reveal_strlit("road");
        assert("junction"@.len() == 8);
        assert("road"@.len() == 4);
    }
}

/// Whether a lane access entry allows or denies its restrictions.
#[derive(Clone, Copy, Debug, PartialEq, Eq, Structural)]
pub enum OdrLaneAccessRule {
    Allow,
    Deny,
}

impl OdrLaneAccessRule {
    /// The spelling of this value in an OpenDRIVE document.
    pub open spec fn spelling(self) -> Seq<char> {
        match self {
            OdrLaneAccessRule::Allow => "allow"@,
            OdrLaneAccessRule::Deny => "deny"@,
        }
    }

    /// The value spelled `s`; an unknown spelling reads as `Allow`.
    pub open spec fn spec_from_xml(s: Seq<char>) -> Self {
        if s == "allow"@ {
            OdrLaneAccessRule::Allow
        } else if s == "deny"@ {
            OdrLaneAccessRule::Deny
        } else {
            OdrLaneAccessRule::Allow
        }
    }

    /// Reads the value from its document spelling.
    pub fn from_xml(s: &str) -> (r: Self)
        ensures
            r == Self::spec_from_xml(s@),
    {
        if str_eq(s, "allow") {
            OdrLaneAccessRule::Allow
        } else if str_eq(s, "deny") {
            OdrLaneAccessRule::Deny
        } else {
            OdrLaneAccessRule::Allow
        }
    }

    /// The document spelling of this value.
    pub fn as_xml(&self) -> (r: &'static str)
        ensures
            r@ == self.spelling(),
    {
        match self {
            OdrLaneAccessRule::Allow => "allow",
            OdrLaneAccessRule::Deny => "deny",
        }
    }

    /// Reading a value's own spelling gives the value back.
    pub proof fn lemma_spelling_round_trip(self)
        ensures
            Self::spec_from_xml(self.spelling()) == self,
    {
        reveal_strlit("allow");
        reveal_strlit("deny");
        assert("allow"@.len() == 5);
        assert("deny"@.len() == 4);
    }
}

/// Range of the parameter of a cubic parametric geometry.
#[derive(Clone, Copy, Debug, PartialEq, Eq, Structural)]
pub enum OdrParamPoly3PRange {
    ArcLength,
    Normalized,
}

impl OdrParamPoly3PRange {
    /// The spelling of this value in an OpenDRIVE document.
    pub open spec fn spelling(self) -> Seq<char> {
        match self {
            OdrParamPoly3PRange::ArcLength => "arcLength"@,
            OdrParamPoly3PRange::Normalized => "normalized"@,
        }
    }

    /// The value spelled `s`; an unknown spelling reads as `Normalized`.
    pub open spec fn spec_from_xml(s: Seq<char>) -> Self {
        if s == "arcLength"@ {
            OdrParamPoly3PRange::ArcLength
        } else if s == "normalized"@ {
            OdrParamPoly3PRange::Normalized
        } else {
            OdrParamPoly3PRange::Normalized
        }
    }

    /// Reads the value from its document spelling.
    pub fn from_xml(s: &str) -> (r: Self)
        ensures
            r == Self::spec_from_xml(s@),
    {
        if str_eq(s, "arcLength") {
            OdrParamPoly3PRange::ArcLength
        } else if str_eq(s, "normalized") {
            OdrParamPoly3PRange::Normalized
        } else {
            OdrParamPoly3PRange::Normalized
        }
    }

    /// The document spelling of this value.
    pub fn as_xml(&self) -> (r: &'static str)
        ensures
            r@ == self.spelling(),
    {
        match self {
            OdrParamPoly3PRange::ArcLength => "arcLength",
            OdrParamPoly3PRange::Normalized => "normalized",
        }
    }

    /// Reading a value's own spelling gives the value back.
    pub proof fn lemma_spelling_round_trip(self)
        ensures
            Self::spec_from_xml(self.spelling()) == self,
    {
        reveal_strlit("arcLength");
        reveal_strlit("normalized");
        assert("arcLength"@.len() == 9);
        assert("normalized"@.len() == 10);
    }
}

/// Range of the parameter of a cubic parametric geometry, in the plain road model.
#[derive(Clone, Copy, Debug, PartialEq, Eq, Structural)]
pub enum ParamPoly3PRange {
    ArcLength,
    Normalized,
}

impl ParamPoly3PRange {
    /// The spelling of this value in an OpenDRIVE document.
    pub open spec fn spelling(self) -> Seq<char> {
        match self {
            ParamPoly3PRange::ArcLength => "arcLength"@,
            ParamPoly3PRange::Normalized => "normalized"@,
        }
    }

    /// The value spelled `s`; an unknown spelling reads as `Normalized`.
    pub open spec fn spec_from_xml(s: Seq<char>) -> Self {
        if s == "arcLength"@ {
            ParamPoly3PRange::ArcLength
        } else if s == "normalized"@ {
            ParamPoly3PRange::Normalized
        } else {
            ParamPoly3PRange::Normalized
        }
    }

    /// Reads the value from its document spelling.
    pub fn from_xml(s: &str) -> (r: Self)
        ensures
            r == Self::spec_from_xml(s@),
    {
        if str_eq(s, "arcLength") {
            ParamPoly3PRange::ArcLength
        } else if str_eq(s, "normalized") {
            ParamPoly3PRange::Normalized
        } else {
            ParamPoly3PRange::Normalized
        }
    }

    /// The document spelling of this value.
    pub fn as_xml(&self) -> (r: &'static str)
        ensures
            r@ == self.spelling(),
    {
        match self {
            ParamPoly3PRange::ArcLength => "arcLength",
            ParamPoly3PRange::Normalized => "normalized",
        }
    }

    /// Reading a value's own spelling gives the value back.
    pub proof fn lemma_spelling_round_trip(self)
        ensures
            Self::spec_from_xml(self.spelling()) == self,
    {
        reveal_strlit("arcLength");
        reveal_strlit("normalized");
        assert("arcLength"@.len() == 9);
        assert("normalized"@.len() == 10);
    }
}

/// Kind of a plan-view geometry segment, named after its element.
#[derive(Clone, Copy, Debug, PartialEq, Eq, Structural)]
pub enum OdrRoadGeometryKind {
    Line,
    Spiral,
    Arc,
    ParamPoly3,
}

impl OdrRoadGeometryKind {
    /// The spelling of this value in an OpenDRIVE document.
    pub open spec fn spelling(self) -> Seq<char> {
        match self {
            OdrRoadGeometryKind::Line => "line"@,
            OdrRoadGeometryKind::Spiral => "spiral"@,
            OdrRoadGeometryKind::Arc => "arc"@,
            OdrRoadGeometryKind::ParamPoly3 => "paramPoly3"@,
        }
    }

    /// The value spelled `s`, if any.
    pub open spec fn spec_from_xml(s: Seq<char>) -> Option<Self> {
        if s == "line"@ {
            Some(OdrRoadGeometryKind::Line)
        } else if s == "spiral"@ {
            Some(OdrRoadGeometryKind::Spiral)
        } else if s == "arc"@ {
            Some(OdrRoadGeometryKind::Arc)
        } else if s == "paramPoly3"@ {
            Some(OdrRoadGeometryKind::ParamPoly3)
        } else {
            None
        }
    }

    /// Reads the value from its element name; other names give `None`.
    pub fn from_xml(s: &str) -> (r: Option<Self>)
        ensures
            r == Self::spec_from_xml(s@),
    {
        if str_eq(s, "line") {
            Some(OdrRoadGeometryKind::Line)
        } else if str_eq(s, "spiral") {
            Some(OdrRoadGeometryKind::Spiral)
        } else if str_eq(s, "arc") {
            Some(OdrRoadGeometryKind::Arc)
        } else if str_eq(s, "paramPoly3") {
            Some(OdrRoadGeometryKind::ParamPoly3)
        } else {
            None
        }
    }

    /// The document spelling of this value.
    pub fn as_xml(&self) -> (r: &'static str)
        ensures
            r@ == self.spelling(),
    {
        match self {
            OdrRoadGeometryKind::Line => "line",
            OdrRoadGeometryKind::Spiral => "spiral",
            OdrRoadGeometryKind::Arc => "arc",
            OdrRoadGeometryKind::ParamPoly3 => "paramPoly3",
        }
    }

    /// Reading a value's own spelling gives the value back.
    pub proof fn lemma_spelling_round_trip(self)
        ensures
            Self::spec_from_xml(self.spelling()) == Some(self),
    {
        reveal_strlit("line");
        reveal_strlit("spiral");
        reveal_strlit("arc");
        reveal_strlit("paramPoly3");
        assert("line"@.len() == 4);
        assert("spiral"@.len() == 6);
        assert("arc"@.len() == 3);
        assert("paramPoly3"@.len() == 10);
    }
}

/// Surface that fills the inside of an object outline.
#[derive(Clone, Copy, Debug, PartialEq, Eq, Structural)]
pub enum OdrOutlineFillType {
    Grass,
    Concrete,
    Cobble,
    Asphalt,
    Pavement,
    Gravel,
    Soil,
}

/// Kind of an object border.
#[derive(Clone, Copy, Debug, PartialEq, Eq, Structural)]
pub enum OdrBorderType {
    Concrete,
    Curb,
}

/// Vehicles that a parking space is meant for.
#[derive(Clone, Copy, Debug, PartialEq, Eq, Structural)]
pub enum OdrParkingSpaceAccess {
    All,
    Car,
    Women,
    Handicapped,
    Bus,
    Truck,
    Electric,
    Residents,
}

/// Side of an object that a marking is painted on.
#[derive(Clone, Copy, Debug, PartialEq, Eq, Structural)]
pub enum OdrSideType {
    Left,
    Right,
    Front,
    Rear,
}

/// Format of a map held by a file bundle.
#[derive(Clone, Copy, Debug, PartialEq, Eq, Structural)]
pub enum MapFormatType {
    OpenDrive,
    Apollo,
}

} // verus!
