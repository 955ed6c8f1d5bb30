//! The sounds: which notes they are made of, and how loud each sample of a note is.
//!
//! A sound is a list of tones and silences that are played one after the other. The loudness of a
//! sample is a fraction of whole numbers here; the wave itself is computed where it is played.

use crate::alert::AlertDirection;
use crate::session::debounce;
use crate::ticker::sound_interval;
use vstd::prelude::*;

verus! {

/// Samples per second.
pub const SAMPLE_RATE: u64 = 44100;

/// How often the notes of an alert are played.
pub const ALERT_REPEATS: usize = 2;

/// A part of a sound.
#[derive(Clone, Copy, Debug, PartialEq, Eq, Structural)]
pub enum Sound {
    /// A note.
    Tone {
        /// The frequency in hundredths of a hertz.
        centihertz: u32,
        /// The length in milliseconds.
        millis: u64,
        /// The volume in tenths.
        volume_tenths: u32,
        /// The length of the fade at the end in milliseconds. A note without one swells over its
        /// first tenth and then dies away.
        fade_out_millis: Option<u64>,
    },
    /// A pause.
    Silence {
        /// The length in milliseconds.
        millis: u64,
    },
}

/// The frequency of note `k` of the triad C5, E5, G5, counted upwards.
pub open spec fn triad(k: int) -> u32 {
    if k == 0 {
        52325
    } else if k == 1 {
        65925
    } else {
        78399
    }
}

/// The frequency of note `k` of an alert: upwards for an alert above the threshold, downwards for
/// one below it.
pub open spec fn alert_note(direction: AlertDirection, k: int) -> u32 {
    match direction {
        AlertDirection::Above => triad(k),
        AlertDirection::Below => triad(2 - k),
    }
}

/// Part `i` of one repeat of an alert: three notes, each with a short pause after it, and a longer
/// pause at the end.
pub open spec fn alert_part_at(direction: AlertDirection, i: int) -> Sound {
    if i == 6 {
        Sound::Silence { millis: 200 }
    } else if i % 2 == 1 {
        Sound::Silence { millis: 30 }
    } else {
        Sound::Tone {
            centihertz: alert_note(direction, i / 2),
            millis: 150,
            volume_tenths: 4,
            fade_out_millis: None,
        }
    }
}

/// The sound of an alert.
pub open spec fn spec_alert_sound(direction: AlertDirection) -> Seq<Sound> {
    Seq::new(7 * ALERT_REPEATS as nat, |i: int| alert_part_at(direction, i % 7))
}

/// The sound of a lost connection: C5, then G4, which fades out quickly.
pub open spec fn spec_disconnect_sound() -> Seq<Sound> {
    seq![
        Sound::Tone { centihertz: 52325, millis: 200, volume_tenths: 5, fade_out_millis: None },
        Sound::Tone { centihertz: 39200, millis: 300, volume_tenths: 5, fade_out_millis: Some(50) },
    ]
}

/// The sound of an alert.
pub fn alert_sound(direction: AlertDirection) -> (sound: Vec<Sound>)
    ensures
        sound@ == spec_alert_sound(direction),
{
    let notes: [u32; 3] = match direction {
        AlertDirection::Above => [52325, 65925, 78399],
        AlertDirection::Below => [78399, 65925, 52325],
    };
    assert(forall|k: int| 0 <= k < 3 ==> notes@[k] == alert_note(direction, k));
    let mut sound: Vec<Sound> = Vec::new();
    let mut repeat: usize = 0;
    while repeat < ALERT_REPEATS
        invariant
            repeat <= ALERT_REPEATS,
            notes@.len() == 3,
            forall|k: int| 0 <= k < 3 ==> notes@[k] == alert_note(direction, k),
            sound@.len() == 7 * repeat,
            forall|i: int|
                0 <= i < sound@.len() ==> #[trigger] sound@[i] == alert_part_at(direction, i % 7),
        decreases ALERT_REPEATS - repeat,
    {
        let mut k: usize = 0;
        while k < 3
            invariant
                k <= 3,
                repeat < ALERT_REPEATS,
                notes@.len() == 3,
                forall|k: int| 0 <= k < 3 ==> notes@[k] == alert_note(direction, k),
                sound@.len() == 7 * repeat + 2 * k,
                forall|i: int|
                    0 <= i < sound@.len() ==> #[trigger] sound@[i] == alert_part_at(
                        direction,
                        i % 7,
                    ),
            decreases 3 - k,
        {
            sound.push(
                Sound::Tone {
                    centihertz: notes[k],
                    millis: 150,
                    volume_tenths: 4,
                    fade_out_millis: None,
                },
            );
            sound.push(Sound::Silence { millis: 30 });
            k = k + 1;
        }
        sound.push(Sound::Silence { millis: 200 });
        repeat = repeat + 1;
    }
    assert(sound@ =~= spec_alert_sound(direction));
    sound
}

/// The sound of a lost connection.
pub fn disconnect_sound() -> (sound: Vec<Sound>)
    ensures
        sound@ == spec_disconnect_sound(),
{
    let mut sound: Vec<Sound> = Vec::new();
    sound.push(
        Sound::Tone { centihertz: 52325, millis: 200, volume_tenths: 5, fade_out_millis: None },
    );
    sound.push(
        Sound::Tone { centihertz: 39200, millis: 300, volume_tenths: 5, fade_out_millis: Some(50) },
    );
    assert(sound@ =~= spec_disconnect_sound());
    sound
}

/// How loud a sample of a note is, against the loudest that the note gets.
#[derive(Clone, Copy, Debug, PartialEq, Eq, Structural)]
pub enum Loudness {
    /// In the first tenth of the note, this many samples after its start.
    Rising(usize),
    /// After the first tenth of the note, this many samples after its end.
    Falling(usize),
    /// As loud as the note gets.
    Steady,
    /// In the fade at the end of the note, with this many samples left, this one counted.
    Fading(usize),
}

/// The number of samples in `millis` milliseconds, rounded down.
pub open spec fn samples_in(millis: u64) -> int {
    SAMPLE_RATE * millis / 1000
}

/// Whether so many milliseconds can be counted in samples on this machine.
pub open spec fn countable(millis: u64) -> bool {
    SAMPLE_RATE * millis <= u64::MAX && samples_in(millis) <= usize::MAX
}

/// How loud sample `i` of a note of `samples` samples is, where the note swells and dies away: it
/// rises over the first tenth and falls over the rest.
pub open spec fn swell_at(i: int, samples: int) -> Loudness {
    if i < samples / 10 {
        Loudness::Rising(i as usize)
    } else {
        Loudness::Falling((i - samples / 10) as usize)
    }
}

/// How loud sample `i` of a note of `samples` samples is, where the last `fade` samples fade out.
pub open spec fn fade_at(i: int, samples: int, fade: int) -> Loudness {
    if i + fade >= samples {
        Loudness::Fading((samples - i) as usize)
    } else {
        Loudness::Steady
    }
}

/// The loudness of each sample of a note that swells and dies away.
pub open spec fn spec_swell(duration_ms: u64) -> Seq<Loudness> {
    Seq::new(samples_in(duration_ms) as nat, |i: int| swell_at(i, samples_in(duration_ms)))
}

/// The loudness of each sample of a note that fades out at its end.
pub open spec fn spec_fade(duration_ms: u64, fade_out_ms: u64) -> Seq<Loudness> {
    Seq::new(
        samples_in(duration_ms) as nat,
        |i: int| fade_at(i, samples_in(duration_ms), samples_in(fade_out_ms)),
    )
}

/// The number of samples in `millis` milliseconds, rounded down.
pub fn sample_count(millis: u64) -> (samples: usize)
    requires
        countable(millis),
    ensures
        samples == samples_in(millis),
{
    (SAMPLE_RATE * millis / 1000) as usize
}

/// The loudness of each sample of a note that swells and dies away.
pub fn swell(duration_ms: u64) -> (shape: Vec<Loudness>)
    requires
        countable(duration_ms),
    ensures
        shape@ == spec_swell(duration_ms),
{
    let samples: usize = sample_count(duration_ms);
    let mut shape: Vec<Loudness> = Vec::new();
    let mut i: usize = 0;
    while i < samples
        invariant
            i <= samples,
            samples == samples_in(duration_ms),
            shape@.len() == i,
            forall|j: int| 0 <= j < i ==> #[trigger] shape@[j] == swell_at(j, samples as int),
        decreases samples - i,
    {
        shape.push(
            if i < samples / 10 {
                Loudness::Rising(i)
            } else {
                Loudness::Falling(i - samples / 10)
            },
        );
        i = i + 1;
    }
    assert(shape@ =~= spec_swell(duration_ms));
    shape
}

/// The loudness of each sample of a note that fades out at its end.
pub fn fade(duration_ms: u64, fade_out_ms: u64) -> (shape: Vec<Loudness>)
    requires
        countable(duration_ms),
        countable(fade_out_ms),
        samples_in(duration_ms) > 0 ==> samples_in(duration_ms) - 1 + samples_in(fade_out_ms)
            <= usize::MAX,
    ensures
        shape@ == spec_fade(duration_ms, fade_out_ms),
{
    let samples: usize = sample_count(duration_ms);
    let fade_samples: usize = sample_count(fade_out_ms);
    let mut shape: Vec<Loudness> = Vec::new();
    let mut i: usize = 0;
    while i < samples
        invariant
            i <= samples,
            samples == samples_in(duration_ms),
            fade_samples == samples_in(fade_out_ms),
            samples > 0 ==> samples - 1 + fade_samples <= usize::MAX,
            shape@.len() == i,
            forall|j: int|
                0 <= j < i ==> #[trigger] shape@[j] == fade_at(
                    j,
                    samples as int,
                    fade_samples as int,
                ),
        decreases samples - i,
    {
        shape.push(
            if i + fade_samples >= samples {
                Loudness::Fading(samples - i)
            } else {
                Loudness::Steady
            },
        );
        i = i + 1;
    }
    assert(shape@ =~= spec_fade(duration_ms, fade_out_ms));
    shape
}

/// The numerator and the denominator of a loudness, for a note of `samples` samples of which `fade`
/// fade out: a tenth of the samples brings it up from nothing, and the nine tenths after that bring
/// it down.
pub open spec fn level(loudness: Loudness, samples: int, fade: int) -> (int, int) {
    match loudness {
        Loudness::Rising(step) => (10 * step, samples),
        Loudness::Falling(step) => (9 * samples - 10 * step, 9 * samples),
        Loudness::Steady => (1, 1),
        Loudness::Fading(left) => (left as int, fade),
    }
}

/// Whether a level is a fraction from nothing to one.
pub open spec fn is_fraction(level: (int, int)) -> bool {
    0 <= level.0 <= level.1 && 0 < level.1
}

/// A note that swells starts from silence if it is ten samples long or longer, is never louder than
/// its volume, and never dies away entirely.
pub proof fn law_swell_is_within_volume(duration_ms: u64, i: int)
    requires
        countable(duration_ms),
        0 <= i < samples_in(duration_ms),
    ensures
        is_fraction(level(spec_swell(duration_ms)[i], samples_in(duration_ms), 0)),
        samples_in(duration_ms) >= 10 ==> spec_swell(duration_ms)[0] == Loudness::Rising(0),
        spec_swell(duration_ms)[i] is Falling ==> level(
            spec_swell(duration_ms)[i],
            samples_in(duration_ms),
            0,
        ).0 > 0,
{
}

/// A note that swells gets louder from sample to sample at first, and then quieter to its end.
pub proof fn law_swell_rises_and_falls(duration_ms: u64, i: int, j: int)
    requires
        countable(duration_ms),
        0 <= i < j < samples_in(duration_ms),
    ensures
        ({
            let n = samples_in(duration_ms);
            let a = spec_swell(duration_ms)[i];
            let b = spec_swell(duration_ms)[j];
            &&& b is Rising ==> a is Rising && level(a, n, 0).0 < level(b, n, 0).0
            &&& a is Falling ==> b is Falling && level(a, n, 0).0 > level(b, n, 0).0
        }),
{
}

/// A note that fades out is never louder than its volume, is as loud as that until the fade, and
/// fades down to its last sample, where one part of the fade is left.
pub proof fn law_fade_is_within_volume(duration_ms: u64, fade_out_ms: u64, i: int)
    requires
        countable(duration_ms),
        0 <= i < samples_in(duration_ms),
    ensures
        ({
            let n = samples_in(duration_ms);
            let f = samples_in(fade_out_ms);
            let shape = spec_fade(duration_ms, fade_out_ms);
            &&& is_fraction(level(shape[i], n, f))
            &&& i + f < n ==> shape[i] is Steady
            &&& f > 0 ==> shape[n - 1] == Loudness::Fading(1)
        }),
{
}

/// The length of a part of a sound in milliseconds.
pub open spec fn part_millis(part: Sound) -> int {
    match part {
        Sound::Tone { millis, .. } => millis as int,
        Sound::Silence { millis } => millis as int,
    }
}

/// The length of a sound in milliseconds.
pub open spec fn sound_millis(sound: Seq<Sound>) -> int
    decreases sound.len(),
{
    if sound.len() == 0 {
        0
    } else {
        sound_millis(sound.drop_last()) + part_millis(sound.last())
    }
}

/// The notes of an alert rise above the threshold and fall below it, and are the same notes in
/// opposite order.
pub proof fn law_alert_notes_mirror(k: int)
    requires
        0 <= k < 3,
    ensures
        alert_note(AlertDirection::Below, k) == alert_note(AlertDirection::Above, 2 - k),
        k < 2 ==> alert_note(AlertDirection::Above, k) < alert_note(AlertDirection::Above, k + 1),
        k < 2 ==> alert_note(AlertDirection::Below, k) > alert_note(AlertDirection::Below, k + 1),
{
}

/// A sound is over before the next one of its kind can begin.
pub proof fn law_sounds_end_before_the_next(direction: AlertDirection)
    ensures
        sound_millis(spec_alert_sound(direction)) == 1480,
        sound_millis(spec_disconnect_sound()) == 500,
        sound_millis(spec_alert_sound(direction)) * 1_000_000 < debounce(),
        sound_millis(spec_disconnect_sound()) * 1_000_000 < sound_interval(),
{
    let sound = spec_alert_sound(direction);
    reveal_with_fuel(sound_millis, 15);
    assert(sound.len() == 14);
    assert(sound_millis(sound) == 1480);
    assert(sound_millis(spec_disconnect_sound()) == 500);
}

/// The sound of an alert, in either direction: fourteen parts, of which those at the even places
/// before the end of a repeat are notes of the same length and the same audible volume, and the
/// others are pauses. The second half repeats the first.
pub proof fn law_alert_sound_is_audible(direction: AlertDirection, i: int)
    requires
        0 <= i < 7,
    ensures
        ({
            let sound = spec_alert_sound(direction);
            &&& sound.len() == 14
            &&& sound[i + 7] == sound[i]
            &&& i == 0 || i == 2 || i == 4 ==> {
                &&& sound[i] is Tone
                &&& sound[i]->volume_tenths == 4
                &&& sound[i]->Tone_millis == 150
                &&& sound[i]->fade_out_millis is None
            }
            &&& i == 1 || i == 3 || i == 5 ==> sound[i] == Sound::Silence { millis: 30 }
            &&& i == 6 ==> sound[i] == Sound::Silence { millis: 200 }
        }),
{
}

/// The notes of an alert are C5, E5 and G5, upwards above the threshold and downwards below it: the
/// one sound is the other with its notes in opposite order and nothing else changed.
pub proof fn law_alert_sounds_are_reversed(i: int)
    requires
        i == 0 || i == 2 || i == 4,
    ensures
        ({
            let above = spec_alert_sound(AlertDirection::Above);
            let below = spec_alert_sound(AlertDirection::Below);
            &&& above[0]->centihertz == 52325
            &&& above[2]->centihertz == 65925
            &&& above[4]->centihertz == 78399
            &&& below[i] == above[4 - i]
            &&& below[i + 1] == above[i + 1]
            &&& below[6] == above[6]
        }),
{
}

/// The sound of a lost connection is two notes of one audible volume, the second lower than the
/// first and the only one that fades out.
pub proof fn law_disconnect_sound_is_audible()
    ensures
        ({
            let sound = spec_disconnect_sound();
            &&& sound.len() == 2
            &&& sound[0] is Tone && sound[1] is Tone
            &&& sound[0]->volume_tenths == 5 && sound[1]->volume_tenths == 5
            &&& sound[0]->centihertz == 52325 && sound[1]->centihertz == 39200
            &&& sound[0]->Tone_millis == 200 && sound[1]->Tone_millis == 300
            &&& sound[0]->fade_out_millis is None && sound[1]->fade_out_millis == Some(50u64)
        }),
{
}

/// There are 44.1 samples to a millisecond, and only whole ones are counted.
pub proof fn law_samples_are_whole(millis: u64)
    ensures
        10 * samples_in(millis) <= 441 * millis < 10 * (samples_in(millis) + 1),
{
}

/// A note that swells has a loudness for each of its samples. A sample that rises is in the first
/// tenth, and so many samples in; one that falls is after it, and so many samples past it.
pub proof fn law_swell_by_sample(duration_ms: u64, i: int)
    requires
        countable(duration_ms),
        0 <= i < samples_in(duration_ms),
    ensures
        ({
            let n = samples_in(duration_ms);
            let shape = spec_swell(duration_ms);
            &&& shape.len() == n
            &&& 10 * (i + 1) <= n ==> shape[i] == Loudness::Rising(i as usize)
            &&& 10 * (i + 1) > n ==> shape[i] is Falling && shape[i]->Falling_0 + n / 10 == i
        }),
{
}

/// A note that fades out has a loudness for each of its samples. One that fades is among the last
/// of the note, as many as the fade has, and knows how many are left; the others are steady.
pub proof fn law_fade_by_sample(duration_ms: u64, fade_out_ms: u64, i: int)
    requires
        countable(duration_ms),
        0 <= i < samples_in(duration_ms),
    ensures
        ({
            let n = samples_in(duration_ms);
            let f = samples_in(fade_out_ms);
            let shape = spec_fade(duration_ms, fade_out_ms);
            &&& shape.len() == n
            &&& n - i <= f ==> shape[i] is Fading && shape[i]->Fading_0 + i == n
            &&& n - i > f ==> shape[i] is Steady
        }),
{
}

/// What can be counted: every length whose samples fit in the machine's numbers.
pub proof fn law_what_is_countable(millis: u64)
    ensures
        countable(millis) <==> 44100 * millis <= u64::MAX && 441 * millis / 10 <= usize::MAX,
{
}

} // verus!
