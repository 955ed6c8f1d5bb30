use btc_price_alert::alert::{Alert, AlertDirection, SavedAlert, ALERT_DEBOUNCE_SECS};
use btc_price_alert::clock::{waited, NANOS_PER_SEC};
use btc_price_alert::price::Price;
use btc_price_alert::saving::{Save, SaveStep};
use btc_price_alert::store::{
    alerts_file_name, application_name, load_alert, saved_form, temporary_extension,
};

fn price(value: f64) -> Price {
    Price::from_bits(value.to_bits())
}

fn alert(value: f64, direction: AlertDirection) -> Alert {
    Alert { price: price(value), direction, last_triggered: None }
}

#[test]
fn labels_of_directions() {
    assert_eq!(AlertDirection::Above.label(), "ABOVE");
    assert_eq!(AlertDirection::Below.label(), "BELOW");
}

#[test]
fn toggling_twice_gives_the_direction_back() {
    assert_eq!(AlertDirection::Above.toggled(), AlertDirection::Below);
    assert_eq!(AlertDirection::Below.toggled(), AlertDirection::Above);
}

#[test]
fn above_is_reached_at_and_over_the_threshold() {
    let above = alert(50000.0, AlertDirection::Above);
    assert!(above.reached_by(price(50000.0)));
    assert!(above.reached_by(price(50000.01)));
    assert!(!above.reached_by(price(49999.99)));
    assert!(!above.reached_by(price(f64::NAN)));
}

#[test]
fn below_is_reached_at_and_under_the_threshold() {
    let below = alert(50000.0, AlertDirection::Below);
    assert!(below.reached_by(price(50000.0)));
    assert!(below.reached_by(price(49999.99)));
    assert!(!below.reached_by(price(50000.01)));
    assert!(!below.reached_by(price(f64::NAN)));
}

#[test]
fn debounce_lasts_five_seconds() {
    assert_eq!(ALERT_DEBOUNCE_SECS, 5);
    let mut above = alert(100.0, AlertDirection::Above);
    assert!(above.goes_off(price(100.0), 7));
    above.last_triggered = Some(7);
    assert!(!above.goes_off(price(100.0), 7 + 5 * NANOS_PER_SEC - 1));
    assert!(above.goes_off(price(100.0), 7 + 5 * NANOS_PER_SEC));
    assert!(!above.goes_off(price(99.0), 7 + 5 * NANOS_PER_SEC));
}

#[test]
fn waiting_counts_from_the_last_time() {
    assert!(waited(None, 0, 5));
    assert!(!waited(Some(10), 3, 5));
    assert!(waited(Some(10), 3, 0));
    assert!(waited(Some(0), 5_000_000_000, 5));
    assert!(!waited(Some(1), 5_000_000_000, 5));
}

#[test]
fn a_saved_alert_loads_rearmed() {
    let set = Alert {
        price: price(65000.5),
        direction: AlertDirection::Below,
        last_triggered: Some(99),
    };
    let saved = saved_form(Some(&set));
    assert_eq!(
        saved,
        Some(SavedAlert { price: price(65000.5), direction: AlertDirection::Below })
    );
    assert_eq!(load_alert(saved), Some(alert(65000.5, AlertDirection::Below)));
    assert_eq!(saved_form(None), None);
    assert_eq!(load_alert(None), None);
}

#[test]
fn thresholds_at_or_below_zero_are_not_loaded() {
    for value in [0.0, -0.0, -1.0, f64::NEG_INFINITY] {
        let saved = SavedAlert { price: price(value), direction: AlertDirection::Above };
        assert_eq!(load_alert(Some(saved)), None);
    }
    let tiny = SavedAlert { price: price(5e-324), direction: AlertDirection::Above };
    assert!(load_alert(Some(tiny)).is_some());
}

#[test]
fn a_loaded_alert_goes_off_at_once() {
    let saved = SavedAlert { price: price(30000.0), direction: AlertDirection::Below };
    let loaded = load_alert(Some(saved)).unwrap();
    assert!(loaded.price.above_zero());
    assert_eq!(loaded.last_triggered, None);
    assert!(loaded.goes_off(price(30000.0), 0));
    assert!(!loaded.goes_off(price(30000.5), 0));
}

#[test]
fn a_save_without_failures_takes_five_steps() {
    let mut step = SaveStep::Locate;
    let mut seen = Vec::new();
    while step != SaveStep::Saved {
        seen.push(step);
        step = step.next(true);
    }
    assert_eq!(
        seen,
        vec![
            SaveStep::Locate,
            SaveStep::CreateDirectory,
            SaveStep::Encode,
            SaveStep::WriteTemporary,
            SaveStep::Replace,
        ]
    );
    assert_eq!(SaveStep::Saved.next(true), SaveStep::Saved);
    assert_eq!(SaveStep::Saved.next(false), SaveStep::Saved);
}

#[test]
fn a_failed_step_ends_a_save() {
    let mut step = SaveStep::Locate;
    while step != SaveStep::Saved {
        assert_eq!(step.next(false), SaveStep::Failed);
        step = step.next(true);
    }
    assert_eq!(SaveStep::Failed.next(true), SaveStep::Failed);
}

#[test]
fn a_save_without_failures_ends_well() {
    let mut save: Save<&str> = Save::new();
    for _ in 0..5 {
        assert!(!save.step.over());
        save.advance(Ok(()));
    }
    assert_eq!(save.step, SaveStep::Saved);
    assert!(save.step.over());
    assert_eq!(save.into_result(), Ok(()));
}

#[test]
fn a_save_ends_with_its_first_failure() {
    for failing in 0..5 {
        let mut save: Save<&str> = Save::new();
        for _ in 0..failing {
            save.advance(Ok(()));
        }
        assert!(!save.step.over());
        save.advance(Err("first"));
        assert_eq!(save.step, SaveStep::Failed);
        save.advance(Err("second"));
        save.advance(Ok(()));
        assert_eq!(save.step, SaveStep::Failed);
        assert_eq!(save.into_result(), Err("first"));
    }
}

/// Takes the steps of a save on two files in memory. Step `failing` fails; a write that fails leaves
/// half of the text behind.
fn save_in_memory(file: &mut String, text: &str, failing: usize) -> Result<(), usize> {
    let mut temporary = String::new();
    let mut save: Save<usize> = Save::new();
    let mut taken = 0;
    while !save.step.over() {
        let well = taken != failing;
        match save.step {
            SaveStep::WriteTemporary if well => temporary = text.to_string(),
            SaveStep::WriteTemporary => temporary = text[..text.len() / 2].to_string(),
            SaveStep::Replace if well => *file = temporary.clone(),
            _ => {}
        }
        save.advance(if well { Ok(()) } else { Err(taken) });
        taken += 1;
    }
    save.into_result()
}

#[test]
fn the_file_is_old_or_new() {
    for failing in 0..5 {
        let mut file = "old".to_string();
        assert_eq!(save_in_memory(&mut file, "new text", failing), Err(failing));
        assert_eq!(file, "old");
    }
    let mut file = "old".to_string();
    assert_eq!(save_in_memory(&mut file, "new text", 5), Ok(()));
    assert_eq!(file, "new text");
}

#[test]
fn names_of_the_store() {
    assert_eq!(application_name(), "btc-price-alert");
    assert_eq!(alerts_file_name(), "alerts.json");
    assert_eq!(temporary_extension(), "json.tmp");
}
