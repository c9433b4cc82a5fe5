//! Measurements, dew points and the verdict on the window.
//!
//! A dew point is a double, carried as its 64-bit pattern like every double
//! in this crate. The caller derives it from a
//! [`Measurement`](measurement::Measurement); what is decided here is what
//! two dew points mean for the window.

use vstd::prelude::*;
use crate::binary64::{exceeds, greater_than, is_number, same_number};

pub mod measurement;
pub mod relative_humidity;
pub mod temperature;

verus! {

/// Holds the two dew points together with the "open window" verdict drawn
/// from them.
#[derive(Debug, Clone, Copy)]
pub struct OpenWindowResult {
    /// Indoor dew point.
    pub indoor_dew_point: u64,
    /// Outdoor dew point.
    pub outdoor_dew_point: u64,
    /// Open window verdict.
    pub open_window: bool,
}

impl OpenWindowResult {
    /// The verdict is to open exactly if the indoor dew point is above the
    /// outdoor one.
    pub open spec fn is_consistent(self) -> bool {
        self.open_window == exceeds(self.indoor_dew_point, self.outdoor_dew_point)
    }
}

/// Answers the question whether one should open the windows in order to
/// decrease indoor humidity: yes exactly if the indoor dew point is strictly
/// above the outdoor one. Equal dew points, or one that is not a number, leave
/// the windows closed.
pub fn open_window(indoor_dew_point: u64, outdoor_dew_point: u64) -> (open: bool)
    ensures
        open == exceeds(indoor_dew_point, outdoor_dew_point),
{
    open_window_result(indoor_dew_point, outdoor_dew_point).open_window
}

/// Answers the same question as [`open_window`] and hands the two dew points
/// back beside the verdict.
pub fn open_window_result(indoor_dew_point: u64, outdoor_dew_point: u64) -> (result: OpenWindowResult)
    ensures
        result.indoor_dew_point == indoor_dew_point,
        result.outdoor_dew_point == outdoor_dew_point,
        result.open_window == exceeds(indoor_dew_point, outdoor_dew_point),
        result.is_consistent(),
{
    let open_window = greater_than(indoor_dew_point, outdoor_dew_point);
    OpenWindowResult { indoor_dew_point, outdoor_dew_point, open_window }
}

/// The verdict never says to open both ways round: if the windows are to be
/// opened, they would stay closed with indoor and outdoor exchanged.
pub proof fn lemma_verdict_one_way(indoor_dew_point: u64, outdoor_dew_point: u64)
    ensures
        !(exceeds(indoor_dew_point, outdoor_dew_point)
            && exceeds(outdoor_dew_point, indoor_dew_point)),
{
}

/// Exchanging indoor and outdoor keeps the verdict exactly if the two dew
/// points are the same number, and the verdict is then to keep the windows
/// closed.
pub proof fn lemma_verdict_exchanged(indoor_dew_point: u64, outdoor_dew_point: u64)
    requires
        is_number(indoor_dew_point),
        is_number(outdoor_dew_point),
    ensures
        exceeds(indoor_dew_point, outdoor_dew_point) == exceeds(outdoor_dew_point, indoor_dew_point)
            <==> same_number(indoor_dew_point, outdoor_dew_point),
        same_number(indoor_dew_point, outdoor_dew_point)
            ==> !exceeds(indoor_dew_point, outdoor_dew_point),
{
}

} // verus!
