use crate::data_definition::DataLabel;
use vstd::prelude::*;

verus! {

/// What a click on the plot does.
#[derive(PartialEq, Eq, Clone, Copy, Debug, Structural)]
pub enum ClickMode {
    AddPoints,
    DeletePoints,
}

impl ClickMode {
    #[must_use]
    pub fn is_delete_points(&self) -> (r: bool)
        ensures
            r == (*self == ClickMode::DeletePoints),
    {
        matches!(self, Self::DeletePoints)
    }

    /// The mode for a choice of whether clicks remove points.
    pub fn from_delete_points(delete_points: bool) -> (r: Self)
        ensures
            r == (if delete_points {
                ClickMode::DeletePoints
            } else {
                ClickMode::AddPoints
            }),
    {
        if delete_points {
            ClickMode::DeletePoints
        } else {
            ClickMode::AddPoints
        }
    }

    /// Changes from adding to deleting and back.
    pub fn toggle_click_mode(&mut self)
        ensures
            *final(self) == (match *old(self) {
                ClickMode::AddPoints => ClickMode::DeletePoints,
                ClickMode::DeletePoints => ClickMode::AddPoints,
            }),
    {
        *self = match self {
            ClickMode::AddPoints => ClickMode::DeletePoints,
            ClickMode::DeletePoints => ClickMode::AddPoints,
        }
    }
}

/// The label that a secondary click stands for: the other one than the primary
/// click's.
pub fn secondary_click_label(primary_click_label: DataLabel) -> (r: DataLabel)
    ensures
        r == (match primary_click_label {
            DataLabel::Normal => DataLabel::Anomaly,
            DataLabel::Anomaly => DataLabel::Normal,
        }),
{
    match primary_click_label {
        DataLabel::Normal => DataLabel::Anomaly,
        DataLabel::Anomaly => DataLabel::Normal,
    }
}

} // verus!
