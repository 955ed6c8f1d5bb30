use btc_price_alert::alert::AlertDirection;
use btc_price_alert::sound::{
    alert_sound, disconnect_sound, fade, sample_count, swell, Loudness, Sound,
};

fn frequencies(sound: &[Sound]) -> Vec<u32> {
    let mut found = Vec::new();
    for part in sound {
        if let Sound::Tone { centihertz, .. } = part {
            found.push(*centihertz);
        }
    }
    found
}

fn length(sound: &[Sound]) -> u64 {
    let mut total = 0;
    for part in sound {
        total += match part {
            Sound::Tone { millis, .. } => *millis,
            Sound::Silence { millis } => *millis,
        };
    }
    total
}

#[test]
fn an_alert_above_rises() {
    let sound = alert_sound(AlertDirection::Above);
    assert_eq!(frequencies(&sound), vec![52325, 65925, 78399, 52325, 65925, 78399]);
    assert_eq!(sound.len(), 14);
    assert_eq!(
        sound[0],
        Sound::Tone { centihertz: 52325, millis: 150, volume_tenths: 4, fade_out_millis: None }
    );
    assert_eq!(sound[1], Sound::Silence { millis: 30 });
    assert_eq!(sound[5], Sound::Silence { millis: 30 });
    assert_eq!(sound[6], Sound::Silence { millis: 200 });
    assert_eq!(sound[13], Sound::Silence { millis: 200 });
}

#[test]
fn an_alert_below_falls() {
    let sound = alert_sound(AlertDirection::Below);
    assert_eq!(frequencies(&sound), vec![78399, 65925, 52325, 78399, 65925, 52325]);
}

#[test]
fn a_lost_connection_has_two_notes() {
    assert_eq!(
        disconnect_sound(),
        vec![
            Sound::Tone { centihertz: 52325, millis: 200, volume_tenths: 5, fade_out_millis: None },
            Sound::Tone {
                centihertz: 39200,
                millis: 300,
                volume_tenths: 5,
                fade_out_millis: Some(50)
            },
        ]
    );
}

#[test]
fn sounds_are_shorter_than_their_distance() {
    assert_eq!(length(&alert_sound(AlertDirection::Above)), 1480);
    assert_eq!(length(&alert_sound(AlertDirection::Below)), 1480);
    assert_eq!(length(&disconnect_sound()), 500);
}

#[test]
fn samples_are_counted_rounding_down() {
    assert_eq!(sample_count(0), 0);
    assert_eq!(sample_count(1), 44);
    assert_eq!(sample_count(150), 6615);
    assert_eq!(sample_count(1000), 44100);
}

#[test]
fn a_swell_rises_for_a_tenth() {
    let shape = swell(1);
    assert_eq!(shape.len(), 44);
    assert_eq!(shape[0], Loudness::Rising(0));
    assert_eq!(shape[3], Loudness::Rising(3));
    assert_eq!(shape[4], Loudness::Falling(0));
    assert_eq!(shape[43], Loudness::Falling(39));
    assert_eq!(swell(0), vec![]);
}

#[test]
fn a_fade_counts_down_to_the_last_sample() {
    let shape = fade(3, 1);
    assert_eq!(shape.len(), 132);
    assert_eq!(shape[0], Loudness::Steady);
    assert_eq!(shape[87], Loudness::Steady);
    assert_eq!(shape[88], Loudness::Fading(44));
    assert_eq!(shape[131], Loudness::Fading(1));
}

#[test]
fn a_fade_of_no_length_stays_steady() {
    for loudness in fade(1, 0) {
        assert_eq!(loudness, Loudness::Steady);
    }
}

#[test]
fn a_fade_longer_than_the_note_starts_within_it() {
    let shape = fade(1, 2);
    assert_eq!(shape.len(), 44);
    assert_eq!(shape[0], Loudness::Fading(44));
}
