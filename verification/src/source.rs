//! One frame's sample of an input source, and the gestures read from it.

use vstd::prelude::*;
use crate::scalar::Scalar;
use crate::tuning::{CAPTURE_DISTANCE, GRIP_THRESHOLD, PINCH_GAP, SELECT_THRESHOLD};

verus! {

/// A position, one coordinate after the other.
#[derive(Clone, Copy, Debug, PartialEq, Eq, Structural)]
pub struct Point {
    pub x: Scalar,
    pub y: Scalar,
    pub z: Scalar,
}

/// A named number of a source's payload.
#[derive(Debug)]
pub struct Entry {
    pub key: String,
    pub value: Scalar,
}

/// What kind of device a source is, with the geometry that the controller
/// reads from that kind. Positions are in real space: the tracking space
/// without the locomotion offset.
#[derive(Clone, Copy, Debug, PartialEq, Eq, Structural)]
pub enum SourceKind {
    /// An articulated hand: the distance from its thumb tip to its index tip,
    /// and the position of its palm.
    Hand { pinch_gap: Scalar, palm: Point },
    /// A pointer or tool tip, with its origin.
    Tip { origin: Point },
    /// Anything else. Such a source makes no gesture.
    Other,
}

/// The state of one input source in one frame.
#[derive(Debug)]
pub struct Source {
    /// Names the source across frames.
    pub id: u64,
    pub kind: SourceKind,
    /// Distance from the source to the capture volume.
    pub distance: Scalar,
    /// The payload: named numbers such as `grab_strength`, `grab`, `select`.
    pub datamap: Vec<Entry>,
}

/// The value of the first entry at or after `from` that is named `key`.
pub open spec fn lookup(entries: Seq<Entry>, key: Seq<char>, from: int) -> Option<Scalar>
    decreases entries.len() - from,
{
    if from < 0 || from >= entries.len() {
        None
    } else if entries[from].key@ == key {
        Some(entries[from].value)
    } else {
        lookup(entries, key, from + 1)
    }
}

impl Source {
    /// The payload's number under `key`, if it has one.
    pub open spec fn reading(&self, key: Seq<char>) -> Option<Scalar> {
        lookup(self.datamap@, key, 0)
    }

    /// Whether the payload has a number under `key` that is greater than the
    /// number encoded by `threshold`. A missing key answers no.
    pub open spec fn reads_above(&self, key: Seq<char>, threshold: u32) -> bool {
        match self.reading(key) {
            Some(value) => value.gt(Scalar { bits: threshold }),
            None => false,
        }
    }

    /// The capture predicate: the source is no farther from the capture volume
    /// than the capture distance.
    pub open spec fn reaches(&self) -> bool {
        self.distance.le(Scalar { bits: CAPTURE_DISTANCE })
    }

    /// The grab-strength predicate: a hand's `grab_strength`, or a tip's
    /// `grab`, exceeds the grip threshold.
    pub open spec fn grips(&self) -> bool {
        match self.kind {
            SourceKind::Hand { .. } => self.reads_above("grab_strength"@, GRIP_THRESHOLD),
            SourceKind::Tip { .. } => self.reads_above("grab"@, GRIP_THRESHOLD),
            SourceKind::Other => false,
        }
    }

    /// Whether the source qualifies as grab actor: it reaches and grips.
    pub open spec fn grabs(&self) -> bool {
        self.reaches() && self.grips()
    }

    /// The glide predicate: a hand pinches thumb and index closer than the
    /// pinch gap, or a tip's `select` exceeds the select threshold. Distance to
    /// the capture volume plays no part.
    pub open spec fn glides(&self) -> bool {
        match self.kind {
            SourceKind::Hand { pinch_gap, .. } => pinch_gap.lt(Scalar { bits: PINCH_GAP }),
            SourceKind::Tip { .. } => self.reads_above("select"@, SELECT_THRESHOLD),
            SourceKind::Other => false,
        }
    }

    /// Where the source holds the handle: a hand at its palm, a tip at its
    /// origin.
    pub open spec fn handle(&self) -> Option<Point> {
        match self.kind {
            SourceKind::Hand { palm, .. } => Some(palm),
            SourceKind::Tip { origin } => Some(origin),
            SourceKind::Other => None,
        }
    }

    /// Looks `key` up in the payload.
    pub fn read(&self, key: &str) -> (value: Option<Scalar>)
        ensures
            value == self.reading(key@),
    {
        let wanted: String = key.to_owned();
        let mut i: usize = 0;
        while i < self.datamap.len()
            invariant
                i <= self.datamap.len(),
                wanted@ == key@,
                self.reading(key@) == lookup(self.datamap@, key@, i as int),
            decreases self.datamap.len() - i,
        {
            if self.datamap[i].key == wanted {
                return Some(self.datamap[i].value);
            }
            i += 1;
        }
        None
    }

    fn is_reading_above(&self, key: &str, threshold: u32) -> (r: bool)
        ensures
            r == self.reads_above(key@, threshold),
    {
        match self.read(key) {
            Some(value) => value.exceeds(Scalar { bits: threshold }),
            None => false,
        }
    }

    /// Tests the capture predicate.
    pub fn is_reaching(&self) -> (r: bool)
        ensures
            r == self.reaches(),
    {
        self.distance.at_most(Scalar { bits: CAPTURE_DISTANCE })
    }

    /// Tests the grab-strength predicate.
    pub fn is_gripping(&self) -> (r: bool)
        ensures
            r == self.grips(),
    {
        match self.kind {
            SourceKind::Hand { .. } => self.is_reading_above("grab_strength", GRIP_THRESHOLD),
            SourceKind::Tip { .. } => self.is_reading_above("grab", GRIP_THRESHOLD),
            SourceKind::Other => false,
        }
    }

    /// Tests whether the source qualifies as grab actor.
    pub fn is_grabbing(&self) -> (r: bool)
        ensures
            r == self.grabs(),
    {
        self.is_reaching() && self.is_gripping()
    }

    /// Tests the glide predicate.
    pub fn is_gliding(&self) -> (r: bool)
        ensures
            r == self.glides(),
    {
        match self.kind {
            SourceKind::Hand { pinch_gap, .. } => pinch_gap.less(Scalar { bits: PINCH_GAP }),
            SourceKind::Tip { .. } => self.is_reading_above("select", SELECT_THRESHOLD),
            SourceKind::Other => false,
        }
    }

    /// The position at which the source holds the handle.
    pub fn handle_position(&self) -> (p: Option<Point>)
        ensures
            p == self.handle(),
    {
        match self.kind {
            SourceKind::Hand { palm, .. } => Some(palm),
            SourceKind::Tip { origin } => Some(origin),
            SourceKind::Other => None,
        }
    }
}

} // verus!
