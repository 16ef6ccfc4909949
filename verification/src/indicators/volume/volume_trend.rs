//! Volume trend: classification of recent volume against the longer average.
use vstd::prelude::*;
use crate::signals::text::same_text;

verus! {

/// How the average volume of the last 5 days compares with that of the last 20.
#[derive(Debug, Clone, Copy, PartialEq, Eq, Structural)]
pub enum VolumeTrend {
    Surging,
    Increasing,
    Stable,
    Declining,
    DryingUp,
    InsufficientData,
}

/// Where the ratio of the 5-day to the 20-day average volume stands against the
/// thresholds of the classification.
#[derive(Debug, Clone, Copy, PartialEq, Eq, Structural)]
pub struct VolumeRatioReading {
    /// ratio > 1.5
    pub above_1_5: bool,
    /// ratio > 1.1
    pub above_1_1: bool,
    /// ratio > 0.9
    pub above_0_9: bool,
    /// ratio > 0.5
    pub above_0_5: bool,
}

/// The text a volume trend is shown as.
pub open spec fn volume_label(v: VolumeTrend) -> Seq<char> {
    match v {
        VolumeTrend::Surging => "surging"@,
        VolumeTrend::Increasing => "increasing"@,
        VolumeTrend::Stable => "stable"@,
        VolumeTrend::Declining => "declining"@,
        VolumeTrend::DryingUp => "drying up"@,
        VolumeTrend::InsufficientData => "insufficient data"@,
    }
}

/// The trend for a ratio: surging above 1.5, increasing above 1.1, stable above 0.9,
/// declining above 0.5, drying up otherwise.
pub open spec fn trend_for_ratio(r: VolumeRatioReading) -> VolumeTrend {
    if r.above_1_5 {
        VolumeTrend::Surging
    } else if r.above_1_1 {
        VolumeTrend::Increasing
    } else if r.above_0_9 {
        VolumeTrend::Stable
    } else if r.above_0_5 {
        VolumeTrend::Declining
    } else {
        VolumeTrend::DryingUp
    }
}

/// The trend needs the last 20 volumes.
pub open spec fn volume_has_data(len: nat) -> bool {
    len >= 20
}

impl VolumeTrend {
    /// The text the trend is shown as: "surging", "increasing", "stable", "declining",
    /// "drying up" or "insufficient data".
    pub fn as_str(self) -> (r: &'static str)
        ensures
            r@ == volume_label(self),
    {
        match self {
            VolumeTrend::Surging => "surging",
            VolumeTrend::Increasing => "increasing",
            VolumeTrend::Stable => "stable",
            VolumeTrend::Declining => "declining",
            VolumeTrend::DryingUp => "drying up",
            VolumeTrend::InsufficientData => "insufficient data",
        }
    }

    /// The trend a text names, if it names one.
    pub fn from_label(label: &str) -> (r: Option<VolumeTrend>)
        ensures
            match r {
                Some(v) => label@ == volume_label(v),
                None => forall|v: VolumeTrend| label@ != #[trigger] volume_label(v),
            },
    {
        if same_text(label, "surging") {
            Some(VolumeTrend::Surging)
        } else if same_text(label, "increasing") {
            Some(VolumeTrend::Increasing)
        } else if same_text(label, "stable") {
            Some(VolumeTrend::Stable)
        } else if same_text(label, "declining") {
            Some(VolumeTrend::Declining)
        } else if same_text(label, "drying up") {
            Some(VolumeTrend::DryingUp)
        } else if same_text(label, "insufficient data") {
            Some(VolumeTrend::InsufficientData)
        } else {
            None
        }
    }

    /// The trend for a ratio of averages (when there are 20 volumes whose average is
    /// not zero).
    pub fn for_ratio(r: VolumeRatioReading) -> (v: VolumeTrend)
        ensures
            v == trend_for_ratio(r),
    {
        if r.above_1_5 {
            VolumeTrend::Surging
        } else if r.above_1_1 {
            VolumeTrend::Increasing
        } else if r.above_0_9 {
            VolumeTrend::Stable
        } else if r.above_0_5 {
            VolumeTrend::Declining
        } else {
            VolumeTrend::DryingUp
        }
    }
}

/// Whether `len` volumes are enough to classify the trend (the last 20 are needed).
pub fn volume_enough_data(len: usize) -> (r: bool)
    ensures
        r == volume_has_data(len as nat),
{
    len >= 20
}

/// Every trend is named by its own text: reading back the text a trend is shown as
/// gives that trend.
pub proof fn lemma_labels_distinct(a: VolumeTrend, b: VolumeTrend)
    ensures
        volume_label(a) == volume_label(b) <==> a == b,
{
    reveal_strlit("surging");
    reveal_strlit("increasing");
    reveal_strlit("stable");
    reveal_strlit("declining");
    reveal_strlit("drying up");
    reveal_strlit("insufficient data");
    if a != b {
        assert(volume_label(a).len() != volume_label(b).len() || volume_label(a)[0] != volume_label(b)[0]
            || volume_label(a)[1] != volume_label(b)[1]);
    }
}

/// A classified ratio is one of the five trends, never "insufficient data".
pub proof fn lemma_ratio_trend_has_data(r: VolumeRatioReading)
    ensures
        trend_for_ratio(r) != VolumeTrend::InsufficientData,
{
}

} // verus!
