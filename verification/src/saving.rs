//! The steps of saving the alert.
//!
//! A new version of the file is first written to a temporary file beside it and then put in its
//! place. What this does to the two files is modelled by [`Disk`], and the laws below speak of the
//! model. It takes two things of the file system for granted: that writing the temporary file does
//! not touch the file, and that putting one file in the place of another either happens in full or
//! not at all.

use crate::alert::{Alert, SavedAlert};
use crate::price::Price;
use crate::store::{
    law_load_gives_back_what_was_saved, law_loaded_alert_is_sound, spec_load_alert, spec_saved_form,
};
use vstd::prelude::*;

verus! {

/// A step of saving the alert.
#[derive(Clone, Copy, Debug, PartialEq, Eq, Structural)]
pub enum SaveStep {
    /// Find out where the file belongs.
    Locate,
    /// Create the directory of the file.
    CreateDirectory,
    /// Turn the alert into the text of the file.
    Encode,
    /// Write the text to a temporary file beside the file.
    WriteTemporary,
    /// Put the temporary file in the place of the file.
    Replace,
    /// Nothing is left to do: every step went well.
    Saved,
    /// Nothing is left to do: a step failed.
    Failed,
}

impl SaveStep {
    /// How many steps come before this one in a save without failures.
    pub open spec fn position(self) -> int {
        match self {
            SaveStep::Locate => 0,
            SaveStep::CreateDirectory => 1,
            SaveStep::Encode => 2,
            SaveStep::WriteTemporary => 3,
            SaveStep::Replace => 4,
            SaveStep::Saved => 5,
            SaveStep::Failed => 5,
        }
    }

    /// Whether saving is over.
    pub open spec fn spec_over(self) -> bool {
        self is Saved || self is Failed
    }

    /// The step after this one, by whether this one went well.
    pub open spec fn spec_next(self, went_well: bool) -> SaveStep {
        match self {
            SaveStep::Saved => SaveStep::Saved,
            SaveStep::Failed => SaveStep::Failed,
            _ if !went_well => SaveStep::Failed,
            SaveStep::Locate => SaveStep::CreateDirectory,
            SaveStep::CreateDirectory => SaveStep::Encode,
            SaveStep::Encode => SaveStep::WriteTemporary,
            SaveStep::WriteTemporary => SaveStep::Replace,
            SaveStep::Replace => SaveStep::Saved,
        }
    }

    /// Whether saving is over.
    pub fn over(self) -> (over: bool)
        ensures
            over == self.spec_over(),
    {
        match self {
            SaveStep::Saved | SaveStep::Failed => true,
            _ => false,
        }
    }

    /// The step after this one, by whether this one went well.
    pub fn next(self, went_well: bool) -> (step: SaveStep)
        ensures
            step == self.spec_next(went_well),
    {
        match self {
            SaveStep::Saved => SaveStep::Saved,
            SaveStep::Failed => SaveStep::Failed,
            _ if !went_well => SaveStep::Failed,
            SaveStep::Locate => SaveStep::CreateDirectory,
            SaveStep::CreateDirectory => SaveStep::Encode,
            SaveStep::Encode => SaveStep::WriteTemporary,
            SaveStep::WriteTemporary => SaveStep::Replace,
            SaveStep::Replace => SaveStep::Saved,
        }
    }
}

/// A save in progress.
#[derive(Debug)]
pub struct Save<E> {
    /// The step to take next.
    pub step: SaveStep,
    /// What went wrong, once a step failed.
    pub failure: Option<E>,
}

impl<E> Save<E> {
    /// A save of which no step was taken yet.
    pub open spec fn fresh() -> Save<E> {
        Save { step: SaveStep::Locate, failure: None }
    }

    /// The save after its step was taken with this result. Once it is over it stays as it is.
    pub open spec fn after(self, result: Result<(), E>) -> Save<E> {
        if self.step.spec_over() {
            self
        } else {
            Save {
                step: self.step.spec_next(result is Ok),
                failure: match result {
                    Ok(_) => self.failure,
                    Err(failure) => Some(failure),
                },
            }
        }
    }

    /// What came of the save: the failure, if there was one.
    pub open spec fn spec_result(self) -> Result<(), E> {
        match self.failure {
            Some(failure) => Err(failure),
            None => Ok(()),
        }
    }

    /// A save of which no step was taken yet.
    pub fn new() -> (save: Save<E>)
        ensures
            save == Save::<E>::fresh(),
    {
        Save { step: SaveStep::Locate, failure: None }
    }

    /// Goes on to the next step, by the result of the one that was taken. Once the save is over it
    /// stays as it is.
    pub fn advance(&mut self, result: Result<(), E>)
        ensures
            *final(self) == old(self).after(result),
    {
        if !self.step.over() {
            match result {
                Ok(_) => {
                    self.step = self.step.next(true);
                },
                Err(failure) => {
                    self.step = SaveStep::Failed;
                    self.failure = Some(failure);
                },
            }
        }
    }

    /// What came of the save: the failure, if there was one.
    pub fn into_result(self) -> (result: Result<(), E>)
        ensures
            result == (match self.failure {
                Some(failure) => Err(failure),
                None => Ok(()),
            }),
            result == self.spec_result(),
    {
        match self.failure {
            Some(failure) => Err(failure),
            None => Ok(()),
        }
    }
}

/// The save once its steps were taken with these results.
pub open spec fn save_run<E>(results: Seq<Result<(), E>>) -> Save<E>
    decreases results.len(),
{
    if results.len() == 0 {
        Save::fresh()
    } else {
        save_run(results.drop_last()).after(results.last())
    }
}

/// Whether the first `count` of the results are all good.
pub open spec fn all_well<E>(results: Seq<Result<(), E>>, count: int) -> bool {
    forall|i: int| 0 <= i < count ==> (#[trigger] results[i]) is Ok
}

/// As long as every step goes well, a save takes one step after the other and has no failure.
proof fn lemma_going_well<E>(results: Seq<Result<(), E>>)
    requires
        results.len() <= 5,
        all_well(results, results.len() as int),
    ensures
        save_run(results).step !is Failed,
        save_run(results).step.position() == results.len(),
        save_run(results).failure is None,
    decreases results.len(),
{
    if results.len() > 0 {
        let before = results.drop_last();
        assert forall|i: int| 0 <= i < before.len() implies (#[trigger] before[i]) is Ok by {
            assert(results[i] is Ok);
        }
        lemma_going_well(before);
        assert(results[results.len() - 1] is Ok);
    }
}

/// Once a save is over, further results change nothing.
proof fn lemma_over_stays<E>(results: Seq<Result<(), E>>, count: int)
    requires
        0 <= count <= results.len(),
        save_run(results.take(count)).step.spec_over(),
    ensures
        save_run(results) == save_run(results.take(count)),
    decreases results.len(),
{
    if count == results.len() {
        assert(results.take(count) =~= results);
    } else {
        assert(results.drop_last().take(count) =~= results.take(count));
        lemma_over_stays(results.drop_last(), count);
    }
}

/// The first step that fails ends the save, and its failure is what comes of the save, whatever
/// results might follow.
pub proof fn law_first_failure_is_the_result<E>(results: Seq<Result<(), E>>, i: int)
    requires
        0 <= i < results.len(),
        i < 5,
        all_well(results, i),
        results[i] is Err,
    ensures
        save_run(results.take(i)).step.position() == i,
        save_run(results) == (Save { step: SaveStep::Failed, failure: Some(results[i]->Err_0) }),
{
    let before = results.take(i);
    assert forall|j: int| 0 <= j < before.len() implies (#[trigger] before[j]) is Ok by {
        assert(results[j] is Ok);
    }
    lemma_going_well(before);
    let failed = results.take(i + 1);
    assert(failed.drop_last() =~= before);
    assert(failed.last() == results[i]);
    lemma_over_stays(results, i + 1);
}

/// A save never takes more than five steps. It ends well exactly when each of them went well, and
/// there is a failure exactly when it did not.
pub proof fn law_save_takes_five_steps<E>(results: Seq<Result<(), E>>)
    requires
        results.len() >= 5,
    ensures
        save_run(results).step.spec_over(),
        save_run(results).step is Saved <==> all_well(results, 5),
        save_run(results).failure is None <==> all_well(results, 5),
{
    if all_well(results, 5) {
        let first = results.take(5);
        assert forall|i: int| 0 <= i < first.len() implies (#[trigger] first[i]) is Ok by {
            assert(results[i] is Ok);
        }
        lemma_going_well(first);
        lemma_over_stays(results, 5);
    } else {
        let i = lemma_first_failure(results, 5);
        law_first_failure_is_the_result(results, i);
    }
}

/// Where not all of the first `count` results are good, there is a first one that is not.
proof fn lemma_first_failure<E>(results: Seq<Result<(), E>>, count: int) -> (i: int)
    requires
        0 <= count <= results.len(),
        !all_well(results, count),
    ensures
        0 <= i < count,
        all_well(results, i),
        results[i] is Err,
    decreases count,
{
    if all_well(results, count - 1) {
        count - 1
    } else {
        lemma_first_failure(results, count - 1)
    }
}

/// The file is replaced only after the temporary file beside it was written, and the temporary file
/// is written only after the alert was turned into text.
pub proof fn law_replace_follows_write<E>(results: Seq<Result<(), E>>)
    requires
        save_run(results).step is Replace,
    ensures
        results.len() == 4,
        results[SaveStep::Encode.position()] is Ok,
        results[SaveStep::WriteTemporary.position()] is Ok,
{
    let count = if results.len() < 5 {
        results.len() as int
    } else {
        5
    };
    if !all_well(results, count) {
        let i = lemma_first_failure(results, count);
        law_first_failure_is_the_result(results, i);
    } else if results.len() < 5 {
        lemma_going_well(results);
    } else {
        law_save_takes_five_steps(results);
    }
}

/// The text of the file and of the temporary file, where they exist.
pub struct Disk {
    /// The text of the file.
    pub file: Option<Seq<char>>,
    /// The text of the temporary file.
    pub temporary: Option<Seq<char>>,
}

impl Disk {
    /// The disk after a step was taken, by whether it went well. `text` is what the alert was
    /// turned into. A write that fails may leave anything in the temporary file, or nothing:
    /// `leftover` is what it leaves.
    pub open spec fn after(
        self,
        step: SaveStep,
        went_well: bool,
        text: Seq<char>,
        leftover: Option<Seq<char>>,
    ) -> Disk {
        match step {
            SaveStep::WriteTemporary => Disk {
                temporary: if went_well {
                    Some(text)
                } else {
                    leftover
                },
                ..self
            },
            SaveStep::Replace if went_well => Disk { file: self.temporary, temporary: None },
            _ => self,
        }
    }
}

/// The disk once the steps of a save were taken with these results.
pub open spec fn disk_after<E>(
    disk: Disk,
    results: Seq<Result<(), E>>,
    text: Seq<char>,
    leftover: Option<Seq<char>>,
) -> Disk
    decreases results.len(),
{
    if results.len() == 0 {
        disk
    } else {
        let before = results.drop_last();
        disk_after(disk, before, text, leftover).after(
            save_run(before).step,
            results.last() is Ok,
            text,
            leftover,
        )
    }
}

/// The file is never half written. At every point of a save, whatever went wrong, it holds what it
/// held before, until the save has ended well; then it holds the new text in full.
pub proof fn law_file_is_old_or_new<E>(
    disk: Disk,
    results: Seq<Result<(), E>>,
    text: Seq<char>,
    leftover: Option<Seq<char>>,
)
    ensures
        disk_after(disk, results, text, leftover).file == (if save_run(results).step is Saved {
            Some(text)
        } else {
            disk.file
        }),
        save_run(results).step is Replace ==> disk_after(disk, results, text, leftover).temporary
            == Some(text),
    decreases results.len(),
{
    if results.len() > 0 {
        law_file_is_old_or_new(disk, results.drop_last(), text, leftover);
    }
}

/// The alert that a run would start with, where `read` says what record a text of the file holds. A
/// file that is not there holds none.
pub open spec fn loaded_from(
    disk: Disk,
    read: spec_fn(Seq<char>) -> Option<SavedAlert>,
) -> Option<Alert> {
    match disk.file {
        Some(text) => spec_load_alert(read(text)),
        None => None,
    }
}

/// Whatever the disk holds, and however damaged the file is, an alert that is loaded from it is
/// finite and above zero, has not gone off, and goes off at the first price that reaches it. `read`
/// may be any way to read a text that gives finite thresholds only, as a text of decimal numbers
/// does.
pub proof fn law_any_file_loads_soundly(
    disk: Disk,
    read: spec_fn(Seq<char>) -> Option<SavedAlert>,
    price: Price,
    now: u128,
)
    requires
        forall|text: Seq<char>|
            (#[trigger] read(text)) matches Some(record) ==> record.price.is_finite(),
    ensures
        loaded_from(disk, read) matches Some(alert) ==> {
            &&& alert.price.is_finite()
            &&& alert.price.spec_above_zero()
            &&& alert.last_triggered is None
            &&& alert.spec_goes_off(price, now) <==> alert.spec_reached_by(price)
        },
{
    if let Some(text) = disk.file {
        law_loaded_alert_is_sound(read(text), price, now);
    }
}

/// A save that fails ends with the failure of the step that failed, and loading gives what it gave
/// before.
pub proof fn law_failed_save_changes_nothing<E>(
    disk: Disk,
    results: Seq<Result<(), E>>,
    i: int,
    text: Seq<char>,
    leftover: Option<Seq<char>>,
    read: spec_fn(Seq<char>) -> Option<SavedAlert>,
)
    requires
        0 <= i < results.len(),
        i < 5,
        all_well(results, i),
        results[i] is Err,
    ensures
        save_run(results).failure == Some(results[i]->Err_0),
        disk_after(disk, results, text, leftover).file == disk.file,
        loaded_from(disk_after(disk, results, text, leftover), read) == loaded_from(disk, read),
{
    law_first_failure_is_the_result(results, i);
    law_file_is_old_or_new(disk, results, text, leftover);
}

/// After a save that ended well, loading gives the alert as it was set, or none where none was
/// saved, provided that the text reads as the record that it was made from.
pub proof fn law_saved_alert_is_loaded<E>(
    disk: Disk,
    results: Seq<Result<(), E>>,
    alert: Option<Alert>,
    text: Seq<char>,
    leftover: Option<Seq<char>>,
    read: spec_fn(Seq<char>) -> Option<SavedAlert>,
)
    requires
        save_run(results).step is Saved,
        read(text) == spec_saved_form(alert),
        alert matches Some(set) ==> !set.price.spec_at_most_zero(),
    ensures
        loaded_from(disk_after(disk, results, text, leftover), read) == (match alert {
            Some(set) => Some(set.rearmed()),
            None => None,
        }),
{
    law_file_is_old_or_new(disk, results, text, leftover);
    law_load_gives_back_what_was_saved(alert);
}

/// The order of the steps: find the place, make the directory, make the text, write it beside the
/// file, put it in place. A step that fails, or comes after the end, leads nowhere else.
pub proof fn law_order_of_steps(step: SaveStep, went_well: bool)
    ensures
        step is Saved || step is Failed ==> step.spec_next(went_well) == step,
        !(step is Saved) && !went_well ==> step.spec_next(went_well) is Failed,
        step is Locate && went_well ==> step.spec_next(went_well) is CreateDirectory,
        step is CreateDirectory && went_well ==> step.spec_next(went_well) is Encode,
        step is Encode && went_well ==> step.spec_next(went_well) is WriteTemporary,
        step is WriteTemporary && went_well ==> step.spec_next(went_well) is Replace,
        step is Replace && went_well ==> step.spec_next(went_well) is Saved,
        step.spec_over() <==> step is Saved || step is Failed,
{
}

/// One result moves a save on: a good one to the next step without a failure, a bad one to the end
/// with its failure. A save that is over keeps its end and its failure.
pub proof fn law_result_moves_a_save_on<E>(save: Save<E>, result: Result<(), E>)
    ensures
        Save::<E>::fresh().step is Locate,
        Save::<E>::fresh().failure is None,
        save.step is Saved || save.step is Failed ==> save.after(result) == save,
        !(save.step is Saved) && !(save.step is Failed) && result is Ok ==> save.after(
            result,
        ).failure == save.failure && save.after(result).step == save.step.spec_next(true),
        !(save.step is Saved) && !(save.step is Failed) && result is Err ==> save.after(
            result,
        ).failure == Some(result->Err_0) && save.after(result).step is Failed,
{
}

/// A save that is over comes to a good end exactly when its five steps did, and else to the first
/// failure among them, whatever came after it.
pub proof fn law_result_of_a_save<E>(results: Seq<Result<(), E>>)
    requires
        results.len() >= 5,
    ensures
        save_run(results).spec_result() is Ok <==> forall|i: int|
            0 <= i < 5 ==> (#[trigger] results[i]) is Ok,
        save_run(results).spec_result() is Err ==> exists|i: int|
            {
                &&& 0 <= i < 5
                &&& #[trigger] results[i] == save_run(results).spec_result()
                &&& forall|j: int| 0 <= j < i ==> (#[trigger] results[j]) is Ok
            },
{
    law_save_takes_five_steps(results);
    if !all_well(results, 5) {
        let i = lemma_first_failure(results, 5);
        law_first_failure_is_the_result(results, i);
        assert(results[i] == save_run(results).spec_result());
    }
}

} // verus!
