use crate::musical_time::MusicalTime;
use crate::super_time::SuperSampleTime;
use vstd::prelude::*;

verus! {

/// The moment of an event on the timeline, in musical time or in sample time.
#[derive(Debug, Clone, Copy, PartialEq, Eq, Hash)]
pub enum Timestamp {
    Musical(MusicalTime),
    Sample(SuperSampleTime),
}

} // verus!
