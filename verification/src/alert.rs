//! The price alert: when it goes off, and the part of it that outlives the program.

use crate::clock::{spec_waited, waited};
use crate::price::Price;
use vstd::prelude::*;

verus! {

/// Seconds for which an alert stays silent after it went off.
pub const ALERT_DEBOUNCE_SECS: u64 = 5;

/// The side of the threshold on which an alert goes off.
#[derive(Clone, Copy, Debug, PartialEq, Eq, Structural)]
pub enum AlertDirection {
    /// At the threshold or over it.
    Above,
    /// At the threshold or under it.
    Below,
}

impl AlertDirection {
    /// The word shown for the direction.
    pub open spec fn spec_label(self) -> Seq<char> {
        match self {
            AlertDirection::Above => "ABOVE"@,
            AlertDirection::Below => "BELOW"@,
        }
    }

    /// The other direction.
    pub open spec fn spec_toggled(self) -> AlertDirection {
        match self {
            AlertDirection::Above => AlertDirection::Below,
            AlertDirection::Below => AlertDirection::Above,
        }
    }

    /// The word shown for the direction.
    pub fn label(self) -> (text: &'static str)
        ensures
            text@ == self.spec_label(),
    {
        match self {
            AlertDirection::Above => "ABOVE",
            AlertDirection::Below => "BELOW",
        }
    }

    /// The other direction.
    pub fn toggled(self) -> (other: AlertDirection)
        ensures
            other == self.spec_toggled(),
    {
        match self {
            AlertDirection::Above => AlertDirection::Below,
            AlertDirection::Below => AlertDirection::Above,
        }
    }
}

/// The part of an alert that is kept on disk.
#[derive(Clone, Copy, Debug, PartialEq, Eq, Structural)]
pub struct SavedAlert {
    /// The threshold.
    pub price: Price,
    /// The side of the threshold on which the alert goes off.
    pub direction: AlertDirection,
}

/// An alert that is armed.
#[derive(Clone, Copy, Debug, PartialEq, Eq, Structural)]
pub struct Alert {
    /// The threshold.
    pub price: Price,
    /// The side of the threshold on which the alert goes off.
    pub direction: AlertDirection,
    /// When the alert last went off.
    pub last_triggered: Option<u128>,
}

impl Alert {
    /// Whether `price` is on the alert's side of the threshold.
    pub open spec fn spec_reached_by(self, price: Price) -> bool {
        match self.direction {
            AlertDirection::Above => price.spec_at_least(self.price),
            AlertDirection::Below => price.spec_at_most(self.price),
        }
    }

    /// Whether the alert goes off when `price` comes in at `now`.
    pub open spec fn spec_goes_off(self, price: Price, now: u128) -> bool {
        spec_waited(self.last_triggered, now, ALERT_DEBOUNCE_SECS) && self.spec_reached_by(price)
    }

    /// The alert as it was set, before it ever went off.
    pub open spec fn rearmed(self) -> Alert {
        Alert { last_triggered: None, ..self }
    }

    /// What is kept on disk of the alert.
    pub open spec fn spec_saved(self) -> SavedAlert {
        SavedAlert { price: self.price, direction: self.direction }
    }

    /// Whether `price` is on the alert's side of the threshold.
    pub fn reached_by(&self, price: Price) -> (reached: bool)
        ensures
            reached == self.spec_reached_by(price),
    {
        match self.direction {
            AlertDirection::Above => price.at_least(self.price),
            AlertDirection::Below => price.at_most(self.price),
        }
    }

    /// Whether the alert goes off when `price` comes in at `now`.
    pub fn goes_off(&self, price: Price, now: u128) -> (off: bool)
        ensures
            off == self.spec_goes_off(price, now),
    {
        waited(self.last_triggered, now, ALERT_DEBOUNCE_SECS) && self.reached_by(price)
    }

    /// What is kept on disk of the alert.
    pub fn saved(&self) -> (saved: SavedAlert)
        ensures
            saved == self.spec_saved(),
    {
        SavedAlert { price: self.price, direction: self.direction }
    }
}

/// An alert goes off at a price exactly when both are numbers, the price is at the threshold or
/// beyond it on the alert's side, and five seconds have gone by since the alert last went off, if
/// it ever did. Having gone off before makes no difference to the first two.
pub proof fn law_goes_off_at_the_threshold(alert: Alert, price: Price, now: u128)
    ensures
        alert.spec_goes_off(price, now) ==> !price.is_nan() && !alert.price.is_nan(),
        alert.spec_goes_off(price, now) && alert.direction is Above ==> price.units()
            >= alert.price.units(),
        alert.spec_goes_off(price, now) && alert.direction is Below ==> price.units()
            <= alert.price.units(),
        alert.spec_goes_off(price, now) ==> (alert.last_triggered matches Some(last) ==> now - last
            >= 5_000_000_000),
        ({
            &&& !price.is_nan()
            &&& !alert.price.is_nan()
            &&& alert.direction is Above ==> price.units() >= alert.price.units()
            &&& alert.direction is Below ==> price.units() <= alert.price.units()
            &&& alert.last_triggered matches Some(last) ==> now - last >= 5_000_000_000
        }) ==> alert.spec_goes_off(price, now),
{
}

/// An alert that went off is silent while the price is back on the other side of the threshold, no
/// matter how long ago it went off.
pub proof fn law_silent_on_the_other_side(alert: Alert, price: Price, now: u128)
    requires
        match alert.direction {
            AlertDirection::Above => price.units() < alert.price.units(),
            AlertDirection::Below => price.units() > alert.price.units(),
        },
    ensures
        !alert.spec_goes_off(price, now),
        !alert.spec_reached_by(price),
{
}

/// Whether an alert is reached depends on the threshold, the direction and the price alone, and is
/// the comparison of the two numbers.
pub proof fn law_reach_is_a_comparison(alert: Alert, price: Price)
    requires
        !price.is_nan(),
        !alert.price.is_nan(),
    ensures
        alert.direction is Above ==> (alert.spec_reached_by(price) <==> price.units()
            >= alert.price.units()),
        alert.direction is Below ==> (alert.spec_reached_by(price) <==> price.units()
            <= alert.price.units()),
{
}

/// The record of an alert has its threshold and its direction, and an alert that is rearmed keeps
/// them and has not gone off.
pub proof fn law_record_has_the_settings(alert: Alert)
    ensures
        alert.spec_saved().price == alert.price,
        alert.spec_saved().direction == alert.direction,
        alert.rearmed().price == alert.price,
        alert.rearmed().direction == alert.direction,
        alert.rearmed().last_triggered is None,
{
}

/// The two directions have different words, which are the ones that a reader expects.
pub proof fn law_directions_are_told_apart()
    ensures
        AlertDirection::Above.spec_label() == seq!['A', 'B', 'O', 'V', 'E'],
        AlertDirection::Below.spec_label() == seq!['B', 'E', 'L', 'O', 'W'],
        AlertDirection::Above.spec_label() != AlertDirection::Below.spec_label(),
{
    reveal_strlit("ABOVE");
    reveal_strlit("BELOW");
    assert(AlertDirection::Above.spec_label() =~= seq!['A', 'B', 'O', 'V', 'E']);
    assert(AlertDirection::Below.spec_label() =~= seq!['B', 'E', 'L', 'O', 'W']);
    assert(AlertDirection::Above.spec_label()[0] != AlertDirection::Below.spec_label()[0]);
}

/// A price that is not a number sets off no alert.
pub proof fn law_nan_sets_off_nothing(alert: Alert, price: Price, now: u128)
    requires
        price.is_nan(),
    ensures
        !alert.spec_goes_off(price, now),
{
}

/// A price at the threshold is on both sides of it.
pub proof fn law_threshold_counts_for_both_sides(alert: Alert, price: Price)
    requires
        !price.is_nan(),
        !alert.price.is_nan(),
        price.units() == alert.price.units(),
    ensures
        alert.spec_reached_by(price),
        (Alert { direction: alert.direction.spec_toggled(), ..alert }).spec_reached_by(price),
{
}

/// Beyond the threshold an alert keeps being reached: a price further out on the alert's side
/// reaches the alert whenever a nearer one does.
pub proof fn law_reach_extends_outwards(alert: Alert, near: Price, far: Price)
    requires
        alert.spec_reached_by(near),
        match alert.direction {
            AlertDirection::Above => far.spec_at_least(near),
            AlertDirection::Below => far.spec_at_most(near),
        },
    ensures
        alert.spec_reached_by(far),
{
}

/// Toggling twice gives the first direction back.
pub proof fn law_toggle_twice(direction: AlertDirection)
    ensures
        direction.spec_toggled().spec_toggled() == direction,
        direction.spec_toggled() != direction,
{
}

} // verus!
