//! Keeping the alert across runs of the program.
//!
//! The alert lives in one file, as a record of its threshold and direction.

use crate::alert::{Alert, SavedAlert};
use crate::price::Price;
use vstd::prelude::*;

verus! {

/// The alert that a run starts with, from what the file held. A file that is missing or cannot be
/// read counts as one that holds nothing. A threshold at or below zero is dropped.
pub open spec fn spec_load_alert(saved: Option<SavedAlert>) -> Option<Alert> {
    match saved {
        Some(saved) => if saved.price.spec_at_most_zero() {
            None
        } else {
            Some(Alert { price: saved.price, direction: saved.direction, last_triggered: None })
        },
        None => None,
    }
}

/// The name by which the directory of the file is found.
pub fn application_name() -> (name: &'static str)
    ensures
        name@ == "btc-price-alert"@,
{
    "btc-price-alert"
}

/// The name of the file.
pub fn alerts_file_name() -> (name: &'static str)
    ensures
        name@ == "alerts.json"@,
{
    "alerts.json"
}

/// The extension that the temporary file has in place of that of the file.
pub fn temporary_extension() -> (extension: &'static str)
    ensures
        extension@ == "json.tmp"@,
{
    "json.tmp"
}

/// What the file is to hold for `alert`.
pub open spec fn spec_saved_form(alert: Option<Alert>) -> Option<SavedAlert> {
    match alert {
        Some(alert) => Some(alert.spec_saved()),
        None => None,
    }
}

/// The alert that a run starts with, from what the file held.
pub fn load_alert(saved: Option<SavedAlert>) -> (alert: Option<Alert>)
    ensures
        alert == spec_load_alert(saved),
        alert matches Some(set) ==> !set.price.spec_at_most_zero(),
        saved matches Some(record) && record.price.is_finite() ==> (alert matches Some(set)
            ==> set.price.is_finite() && set.price.spec_above_zero()
            && set.last_triggered is None),
{
    match saved {
        Some(saved) => {
            if saved.price.at_most_zero() {
                return None;
            }
            Some(Alert { price: saved.price, direction: saved.direction, last_triggered: None })
        },
        None => None,
    }
}

/// What the file is to hold for `alert`.
pub fn saved_form(alert: Option<&Alert>) -> (saved: Option<SavedAlert>)
    ensures
        saved == spec_saved_form(
            match alert {
                Some(alert) => Some(*alert),
                None => None,
            },
        ),
{
    match alert {
        Some(alert) => Some(alert.saved()),
        None => None,
    }
}

/// The record of an alert loads as the alert as it was set, for every alert whose threshold is not
/// at or below zero; and where there is no record, no alert is loaded. What the file makes of a
/// record is not part of this: its text has no way to write an infinite threshold.
pub proof fn law_load_gives_back_what_was_saved(alert: Option<Alert>)
    requires
        alert matches Some(set) ==> !set.price.spec_at_most_zero(),
    ensures
        spec_load_alert(spec_saved_form(alert)) == (match alert {
            Some(set) => Some(set.rearmed()),
            None => None,
        }),
{
}

/// An alert that is loaded is one that can be trusted, whatever the file held: its threshold is
/// finite and above zero, it has not gone off, and it goes off at the first price that reaches it.
/// The numbers that the text of the file can hold are all finite, and a file that cannot be read
/// counts as one that holds nothing.
pub proof fn law_loaded_alert_is_sound(saved: Option<SavedAlert>, price: Price, now: u128)
    requires
        saved matches Some(record) ==> record.price.is_finite(),
    ensures
        spec_load_alert(saved) matches Some(alert) ==> {
            &&& alert.price.is_finite()
            &&& alert.price.spec_above_zero()
            &&& alert.last_triggered is None
            &&& alert.spec_goes_off(price, now) <==> alert.spec_reached_by(price)
        },
        spec_load_alert(saved) is Some <==> (saved matches Some(record)
            && record.price.spec_above_zero()),
{
}

/// What is loaded is the record: the same threshold and the same direction, for every record whose
/// threshold is above zero or no number, and nothing for the others.
pub proof fn law_load_keeps_the_record(saved: Option<SavedAlert>)
    ensures
        saved is None ==> spec_load_alert(saved) is None,
        saved is Some && (saved->0.price.is_nan() || saved->0.price.units() > 0) ==> {
            &&& spec_load_alert(saved) is Some
            &&& spec_load_alert(saved)->0.price == saved->0.price
            &&& spec_load_alert(saved)->0.direction == saved->0.direction
            &&& spec_load_alert(saved)->0.last_triggered is None
        },
        saved is Some && !saved->0.price.is_nan() && saved->0.price.units() <= 0
            ==> spec_load_alert(saved) is None,
{
}

/// The record that is kept is that of the alert, and there is one exactly when there is an alert.
pub proof fn law_record_is_kept(alert: Option<Alert>)
    ensures
        spec_saved_form(alert) is Some <==> alert is Some,
        alert is Some ==> spec_saved_form(alert)->0.price == alert->0.price
            && spec_saved_form(alert)->0.direction == alert->0.direction,
{
}

} // verus!
