//! Bundles of a watch inbox and the marker files that guard them.
//!
//! A bundle is a direct subdirectory of the inbox. Four marker files at its
//! root tell its state: `.ready`, `.processing`, `.processed` and `.failed`.
//! A bundle can be claimed only while it is ready and carries none of the
//! other three. The claim is the creation of `.processing`, which succeeds
//! for one actor only.
//!
//! The functions here decide; they do not touch the file system. What has to
//! be done to the marker files is handed out as `MarkerAction`s, and what
//! came of it is handed back as `ActionOutcome`s. `BundleMarkers` is the
//! state of one bundle's markers, on which the same actions can be played.

use vstd::prelude::*;
use vstd::seq_lib::*;
use vstd::string::*;
use crate::text::{
    joined, lemma_lex_le_antisymmetric, lemma_lex_le_total, lemma_lex_le_transitive, lex_le,
    result_view, str_eq, text_le, views,
};

verus! {

/// The four marker files of a bundle.
#[derive(Clone, Copy, Debug, PartialEq, Eq, Structural)]
pub enum Marker {
    Ready,
    Processing,
    Processed,
    Failed,
}

/// The file name of a marker.
pub open spec fn marker_name(marker: Marker) -> Seq<char> {
    match marker {
        Marker::Ready => ".ready"@,
        Marker::Processing => ".processing"@,
        Marker::Processed => ".processed"@,
        Marker::Failed => ".failed"@,
    }
}

/// The file name of a marker.
pub fn marker_filename(marker: Marker) -> (name: &'static str)
    ensures
        name@ == marker_name(marker),
{
    match marker {
        Marker::Ready => ".ready",
        Marker::Processing => ".processing",
        Marker::Processed => ".processed",
        Marker::Failed => ".failed",
    }
}

/// Whether `file_name` is the name of a marker file. Marker files stay behind
/// when a bundle's contents are copied into a job root.
pub fn is_marker_filename(file_name: &str) -> (is_marker: bool)
    ensures
        is_marker == exists|marker: Marker| file_name@ == #[trigger] marker_name(marker),
{
    let is_marker = str_eq(file_name, ".ready") || str_eq(file_name, ".processing") || str_eq(
        file_name,
        ".processed",
    ) || str_eq(file_name, ".failed");
    proof {
        if is_marker {
            if file_name@ == ".ready"@ {
                assert(file_name@ == marker_name(Marker::Ready));
            } else if file_name@ == ".processing"@ {
                assert(file_name@ == marker_name(Marker::Processing));
            } else if file_name@ == ".processed"@ {
                assert(file_name@ == marker_name(Marker::Processed));
            } else {
                assert(file_name@ == marker_name(Marker::Failed));
            }
        }
    }
    is_marker
}

/// Which marker files a bundle carries.
#[derive(Clone, Copy, Debug, PartialEq, Eq, Structural)]
pub struct BundleMarkers {
    pub ready: bool,
    pub processing: bool,
    pub processed: bool,
    pub failed: bool,
}

/// Where a bundle stands, as its markers tell.
#[derive(Clone, Copy, Debug, PartialEq, Eq, Structural)]
pub enum BundleState {
    /// No marker: the bundle is still being filled.
    Unclaimed,
    /// The ready marker and no other: the bundle waits to be claimed.
    Ready,
    /// The processing marker: an actor holds the bundle.
    Claimed,
    /// The processed marker: a job was created from the bundle.
    Processed,
    /// The failed marker: no job could be created from the bundle.
    Failed,
}

/// One step on the marker files of a bundle.
#[derive(Debug, Clone)]
pub enum MarkerAction {
    /// Create the marker file unless it exists; creation and the test for
    /// existence are one step.
    CreateNew(Marker),
    /// Write the marker file with the given content, whether it exists or not.
    Write(Marker, String),
    /// Remove the marker file if it is there. Failure to remove it is ignored.
    RemoveIfPresent(Marker),
}

/// A `MarkerAction` as plain values.
pub enum MarkerStep {
    CreateNew(Marker),
    Write(Marker, Seq<char>),
    RemoveIfPresent(Marker),
}

impl View for MarkerAction {
    type V = MarkerStep;

    open spec fn view(&self) -> MarkerStep {
        match *self {
            MarkerAction::CreateNew(marker) => MarkerStep::CreateNew(marker),
            MarkerAction::Write(marker, content) => MarkerStep::Write(marker, content@),
            MarkerAction::RemoveIfPresent(marker) => MarkerStep::RemoveIfPresent(marker),
        }
    }
}

/// What came of a `MarkerAction`.
#[derive(Debug, Clone)]
pub enum ActionOutcome {
    /// The action was carried out.
    Done,
    /// The marker to create was there already.
    AlreadyPresent,
    /// The action failed for another reason, described by the text.
    Failed(String),
}

/// An `ActionOutcome` as plain values.
pub enum StepOutcome {
    Done,
    AlreadyPresent,
    Failed(Seq<char>),
}

impl View for ActionOutcome {
    type V = StepOutcome;

    open spec fn view(&self) -> StepOutcome {
        match *self {
            ActionOutcome::Done => StepOutcome::Done,
            ActionOutcome::AlreadyPresent => StepOutcome::AlreadyPresent,
            ActionOutcome::Failed(reason) => StepOutcome::Failed(reason@),
        }
    }
}

impl BundleMarkers {
    /// A bundle without marker files.
    pub fn new() -> (markers: Self)
        ensures
            markers == (BundleMarkers {
                ready: false,
                processing: false,
                processed: false,
                failed: false,
            }),
    {
        BundleMarkers { ready: false, processing: false, processed: false, failed: false }
    }

    /// Whether the bundle can be claimed: it is ready and carries no other
    /// marker.
    pub open spec fn eligible(self) -> bool {
        self.ready && !self.processing && !self.processed && !self.failed
    }

    /// Where the bundle stands. A failed or processed marker is final; short
    /// of these, a processing marker tells that the bundle is held.
    pub open spec fn state(self) -> BundleState {
        if self.failed {
            BundleState::Failed
        } else if self.processed {
            BundleState::Processed
        } else if self.processing {
            BundleState::Claimed
        } else if self.ready {
            BundleState::Ready
        } else {
            BundleState::Unclaimed
        }
    }

    /// Where the bundle stands.
    pub fn bundle_state(&self) -> (state: BundleState)
        ensures
            state == self.state(),
    {
        if self.failed {
            BundleState::Failed
        } else if self.processed {
            BundleState::Processed
        } else if self.processing {
            BundleState::Claimed
        } else if self.ready {
            BundleState::Ready
        } else {
            BundleState::Unclaimed
        }
    }

    /// Whether the bundle can be claimed.
    pub fn is_eligible(&self) -> (eligible: bool)
        ensures
            eligible == self.eligible(),
    {
        self.ready && !self.processing && !self.processed && !self.failed
    }

    /// Whether the bundle carries `marker`.
    pub open spec fn has(self, marker: Marker) -> bool {
        match marker {
            Marker::Ready => self.ready,
            Marker::Processing => self.processing,
            Marker::Processed => self.processed,
            Marker::Failed => self.failed,
        }
    }

    /// The markers with `marker` present or absent as `present` says.
    pub open spec fn with(self, marker: Marker, present: bool) -> BundleMarkers {
        match marker {
            Marker::Ready => BundleMarkers { ready: present, ..self },
            Marker::Processing => BundleMarkers { processing: present, ..self },
            Marker::Processed => BundleMarkers { processed: present, ..self },
            Marker::Failed => BundleMarkers { failed: present, ..self },
        }
    }

    /// The markers after `step` was carried out on a working file system.
    pub open spec fn after(self, step: MarkerStep) -> BundleMarkers {
        match step {
            MarkerStep::CreateNew(marker) => self.with(marker, true),
            MarkerStep::Write(marker, _) => self.with(marker, true),
            MarkerStep::RemoveIfPresent(marker) => self.with(marker, false),
        }
    }

    /// What comes of `step` on a working file system.
    pub open spec fn outcome_of(self, step: MarkerStep) -> StepOutcome {
        match step {
            MarkerStep::CreateNew(marker) => if self.has(marker) {
                StepOutcome::AlreadyPresent
            } else {
                StepOutcome::Done
            },
            _ => StepOutcome::Done,
        }
    }

    /// The markers after all of `steps` were carried out, one after the other.
    pub open spec fn after_all(self, steps: Seq<MarkerStep>) -> BundleMarkers
        decreases steps.len(),
    {
        if steps.len() == 0 {
            self
        } else {
            self.after(steps[0]).after_all(steps.drop_first())
        }
    }

    /// Whether the bundle carries `marker`.
    pub fn contains(&self, marker: Marker) -> (present: bool)
        ensures
            present == self.has(marker),
    {
        match marker {
            Marker::Ready => self.ready,
            Marker::Processing => self.processing,
            Marker::Processed => self.processed,
            Marker::Failed => self.failed,
        }
    }

    fn set(&mut self, marker: Marker, present: bool)
        ensures
            *final(self) == old(self).with(marker, present),
    {
        match marker {
            Marker::Ready => {
                self.ready = present;
            },
            Marker::Processing => {
                self.processing = present;
            },
            Marker::Processed => {
                self.processed = present;
            },
            Marker::Failed => {
                self.failed = present;
            },
        }
    }

    /// Carries out `action` on these markers, as a working file system would.
    pub fn perform(&mut self, action: &MarkerAction) -> (outcome: ActionOutcome)
        ensures
            *final(self) == old(self).after(action@),
            outcome@ == old(self).outcome_of(action@),
    {
        match action {
            MarkerAction::CreateNew(marker) => {
                if self.contains(*marker) {
                    ActionOutcome::AlreadyPresent
                } else {
                    self.set(*marker, true);
                    ActionOutcome::Done
                }
            },
            MarkerAction::Write(marker, _) => {
                self.set(*marker, true);
                ActionOutcome::Done
            },
            MarkerAction::RemoveIfPresent(marker) => {
                self.set(*marker, false);
                ActionOutcome::Done
            },
        }
    }
}

/// An entry of the inbox directory.
#[derive(Debug, Clone)]
pub struct InboxEntry {
    pub path: String,
    pub is_directory: bool,
    pub markers: BundleMarkers,
}

/// What was found at the inbox path.
#[derive(Debug, Clone)]
pub enum InboxProbe {
    /// Nothing exists at the path.
    Missing,
    /// The path exists and is no directory.
    NotADirectory,
    /// The directory could not be read; the text says why.
    Unreadable(String),
    /// The entries of the directory, in any order.
    Entries(Vec<InboxEntry>),
}

/// Whether an inbox entry is a bundle that can be claimed.
pub open spec fn entry_is_ready(entry: InboxEntry) -> bool {
    entry.is_directory && entry.markers.eligible()
}

/// The paths of the entries that can be claimed, in the order of the entries.
pub open spec fn ready_paths(entries: Seq<InboxEntry>) -> Seq<Seq<char>>
    decreases entries.len(),
{
    if entries.len() == 0 {
        Seq::empty()
    } else if entry_is_ready(entries.last()) {
        ready_paths(entries.drop_last()).push(entries.last().path@)
    } else {
        ready_paths(entries.drop_last())
    }
}

/// The ready paths are exactly the paths of the ready entries.
pub proof fn lemma_ready_paths_are_ready_entries(entries: Seq<InboxEntry>, path: Seq<char>)
    ensures
        ready_paths(entries).contains(path) <==> exists|i: int|
            0 <= i < entries.len() && entry_is_ready(#[trigger] entries[i]) && entries[i].path@
                == path,
    decreases entries.len(),
{
    if entries.len() > 0 {
        let before = entries.drop_last();
        lemma_ready_paths_are_ready_entries(before, path);
        if ready_paths(entries).contains(path) {
            if entry_is_ready(entries.last()) && entries.last().path@ == path {
                assert(entry_is_ready(entries[entries.len() - 1]));
            } else {
                if entry_is_ready(entries.last()) {
                    let k = choose|k: int|
                        0 <= k < ready_paths(entries).len() && ready_paths(entries)[k] == path;
                    assert(ready_paths(before)[k] == path);
                }
                let i = choose|i: int|
                    0 <= i < before.len() && entry_is_ready(#[trigger] before[i]) && before[i].path@
                        == path;
                assert(entry_is_ready(entries[i]));
            }
        }
        if exists|i: int|
            0 <= i < entries.len() && entry_is_ready(#[trigger] entries[i]) && entries[i].path@
                == path {
            let i = choose|i: int|
                0 <= i < entries.len() && entry_is_ready(#[trigger] entries[i]) && entries[i].path@
                    == path;
            if i < entries.len() - 1 {
                assert(entry_is_ready(before[i]));
                let k = choose|k: int|
                    0 <= k < ready_paths(before).len() && ready_paths(before)[k] == path;
                assert(ready_paths(entries)[k] == path);
            } else {
                let last = ready_paths(entries).len() - 1;
                assert(ready_paths(entries)[last] == path);
            }
        }
    }
}

/// Whether `paths` stand in the order of `lex_le`.
pub open spec fn is_sorted(paths: Seq<Seq<char>>) -> bool {
    forall|i: int, j: int| 0 <= i < j < paths.len() ==> lex_le(paths[i], paths[j])
}

/// Two sorted listings of the same paths are the same listing: the order in
/// which bundles are taken up does not depend on the order of the directory
/// entries.
pub proof fn lemma_sorted_listing_is_unique(a: Seq<Seq<char>>, b: Seq<Seq<char>>)
    requires
        is_sorted(a),
        is_sorted(b),
        a.to_multiset() == b.to_multiset(),
    ensures
        a == b,
{
    let leq = |x: Seq<char>, y: Seq<char>| lex_le(x, y);
    assert forall|x: Seq<char>, y: Seq<char>| #[trigger] leq(x, y) || #[trigger] leq(y, x) by {
        lemma_lex_le_total(x, y);
    }
    assert forall|x: Seq<char>| #[trigger] leq(x, x) by {
        lemma_lex_le_total(x, x);
    }
    assert forall|x: Seq<char>, y: Seq<char>| #[trigger] leq(x, y) && #[trigger] leq(y, x) implies x
        == y by {
        lemma_lex_le_antisymmetric(x, y);
    }
    assert forall|x: Seq<char>, y: Seq<char>, z: Seq<char>| #[trigger]
        leq(x, y) && #[trigger] leq(y, z) implies leq(x, z) by {
        lemma_lex_le_transitive(x, y, z);
    }
    assert(vstd::relations::sorted_by(a, leq));
    assert(vstd::relations::sorted_by(b, leq));
    lemma_sorted_unique(a, b, leq);
}

fn insert_sorted(sorted: &mut Vec<String>, path: String)
    requires
        is_sorted(views(old(sorted)@)),
    ensures
        is_sorted(views(final(sorted)@)),
        views(final(sorted)@).to_multiset() == views(old(sorted)@).to_multiset().insert(path@),
{
    let mut position: usize = 0;
    while position < sorted.len() && text_le(sorted[position].as_str(), path.as_str())
        invariant
            position <= sorted.len(),
            forall|k: int| 0 <= k < position ==> lex_le(#[trigger] sorted@[k]@, path@),
        decreases sorted.len() - position,
    {
        position += 1;
    }
    let ghost before = views(sorted@);
    proof {
        assert forall|k: int| position <= k < before.len() implies lex_le(path@, #[trigger] before[k]) by {
            lemma_lex_le_total(before[position as int], path@);
            if k > position {
                assert(lex_le(before[position as int], before[k]));
                lemma_lex_le_transitive(path@, before[position as int], before[k]);
            }
        }
    }
    sorted.insert(position, path);
    proof {
        let after = views(sorted@);
        assert(after =~= before.insert(position as int, path@));
        to_multiset_insert(before, position as int, path@);
        assert forall|i: int, j: int| 0 <= i < j < after.len() implies lex_le(after[i], after[j]) by {
            if i < position && j > position {
                assert(after[i] == before[i]);
                assert(after[j] == before[j - 1]);
            } else if i < position && j < position {
                assert(lex_le(before[i], before[j]));
            } else if i < position && j == position {
                assert(after[i] == sorted@[i]@);
            } else if i == position {
                assert(after[j] == before[j - 1]);
            } else {
                assert(lex_le(before[i - 1], before[j - 1]));
            }
        }
    }
}

/// What listing the ready bundles of the inbox at `inbox_directory_path`
/// gives, for what was found there.
pub open spec fn listing_matches(
    inbox_directory_path: Seq<char>,
    probe: InboxProbe,
    listed: Result<Vec<String>, String>,
) -> bool {
    match probe {
        InboxProbe::Missing => listed matches Err(message) && message@
            == "Inbox directory does not exist: "@ + inbox_directory_path,
        InboxProbe::NotADirectory => listed matches Err(message) && message@
            == "Inbox path is not a directory: "@ + inbox_directory_path,
        InboxProbe::Unreadable(reason) => listed matches Err(message) && message@ == reason@,
        InboxProbe::Entries(entries) => listed matches Ok(paths) && is_sorted(views(paths@))
            && views(paths@).to_multiset() == ready_paths(entries@).to_multiset(),
    }
}

/// Lists the bundles of the inbox that can be claimed, sorted by path.
///
/// An entry is listed if it is a directory that carries the ready marker and
/// none of the other three. An inbox that is missing, is no directory or
/// cannot be read gives an error.
pub fn list_ready_bundle_directories(inbox_directory_path: &str, probe: &InboxProbe) -> (listed:
    Result<Vec<String>, String>)
    ensures
        listing_matches(inbox_directory_path@, *probe, listed),
{
    let entries = match probe {
        InboxProbe::Missing => {
            return Err(joined("Inbox directory does not exist: ", inbox_directory_path));
        },
        InboxProbe::NotADirectory => {
            return Err(joined("Inbox path is not a directory: ", inbox_directory_path));
        },
        InboxProbe::Unreadable(reason) => {
            return Err(reason.clone());
        },
        InboxProbe::Entries(entries) => entries,
    };
    let mut candidates: Vec<String> = Vec::new();
    assert(views(candidates@) =~= ready_paths(entries@.take(0)));
    let mut i: usize = 0;
    while i < entries.len()
        invariant
            i <= entries.len(),
            is_sorted(views(candidates@)),
            views(candidates@).to_multiset() == ready_paths(entries@.take(i as int)).to_multiset(),
        decreases entries.len() - i,
    {
        let entry = &entries[i];
        proof {
            assert(entries@.take(i + 1).drop_last() =~= entries@.take(i as int));
            assert(entries@.take(i + 1).last() == entries@[i as int]);
            to_multiset_build(ready_paths(entries@.take(i as int)), entry.path@);
        }
        if entry.is_directory && entry.markers.is_eligible() {
            insert_sorted(&mut candidates, entry.path.clone());
        }
        i += 1;
    }
    assert(entries@.take(entries@.len() as int) =~= entries@);
    Ok(candidates)
}

/// The action that claims a bundle: creating its processing marker.
pub fn claim_action() -> (action: MarkerAction)
    ensures
        action@ == MarkerStep::CreateNew(Marker::Processing),
{
    MarkerAction::CreateNew(Marker::Processing)
}

/// What a claim amounts to, given what came of `claim_action`: claimed,
/// claimed by another actor, or an error.
pub open spec fn claim_result(outcome: StepOutcome) -> Result<bool, Seq<char>> {
    match outcome {
        StepOutcome::Done => Ok(true),
        StepOutcome::AlreadyPresent => Ok(false),
        StepOutcome::Failed(_) => Err("Failed to create .processing marker"@),
    }
}

/// Tells whether the bundle was claimed, from what came of `claim_action`.
///
/// A marker that was there already means that another actor holds the
/// bundle: that is no error. Any other failure is one.
pub fn try_lock_bundle_for_processing(outcome: &ActionOutcome) -> (claimed: Result<bool, String>)
    ensures
        result_view(claimed) == claim_result(outcome@),
{
    match outcome {
        ActionOutcome::Done => Ok(true),
        ActionOutcome::AlreadyPresent => Ok(false),
        ActionOutcome::Failed(_) => Err(String::from_str("Failed to create .processing marker")),
    }
}

/// The steps that mark a bundle as processed.
pub open spec fn processed_steps() -> Seq<MarkerStep> {
    seq![
        MarkerStep::Write(Marker::Processed, Seq::empty()),
        MarkerStep::RemoveIfPresent(Marker::Processing),
    ]
}

/// The steps that mark a bundle as failed with `error_message`.
pub open spec fn failed_steps(error_message: Seq<char>) -> Seq<MarkerStep> {
    seq![
        MarkerStep::Write(Marker::Failed, error_message),
        MarkerStep::RemoveIfPresent(Marker::Processing),
    ]
}

/// The views of a plan's actions.
pub open spec fn steps_of(plan: Seq<MarkerAction>) -> Seq<MarkerStep> {
    plan.map_values(|action: MarkerAction| action@)
}

/// The actions that mark a bundle as processed: write an empty processed
/// marker, then remove the processing marker.
pub fn mark_bundle_processed() -> (plan: Vec<MarkerAction>)
    ensures
        steps_of(plan@) == processed_steps(),
{
    let mut plan: Vec<MarkerAction> = Vec::new();
    plan.push(MarkerAction::Write(Marker::Processed, String::new()));
    plan.push(MarkerAction::RemoveIfPresent(Marker::Processing));
    assert(steps_of(plan@) =~= processed_steps());
    plan
}

/// The actions that mark a bundle as failed: write the failed marker with
/// the error text as its content, then remove the processing marker.
pub fn mark_bundle_failed(error_message: &str) -> (plan: Vec<MarkerAction>)
    ensures
        steps_of(plan@) == failed_steps(error_message@),
{
    let mut plan: Vec<MarkerAction> = Vec::new();
    plan.push(MarkerAction::Write(Marker::Failed, error_message.to_owned()));
    plan.push(MarkerAction::RemoveIfPresent(Marker::Processing));
    assert(steps_of(plan@) =~= failed_steps(error_message@));
    plan
}

/// Whether a plan goes on after `step` ended with `outcome`: only a write
/// that failed ends it, with the reason of the failure.
pub open spec fn step_result(step: MarkerStep, outcome: StepOutcome) -> Result<(), Seq<char>> {
    match (step, outcome) {
        (MarkerStep::Write(_, _), StepOutcome::Failed(reason)) => Err(reason),
        _ => Ok(()),
    }
}

/// Tells whether a plan goes on after `action` ended with `outcome`.
pub fn check_marker_outcome(action: &MarkerAction, outcome: ActionOutcome) -> (result: Result<
    (),
    String,
>)
    ensures
        result_view(result) == step_result(action@, outcome@),
{
    match action {
        MarkerAction::Write(_, _) => match outcome {
            ActionOutcome::Failed(reason) => Err(reason),
            _ => Ok(()),
        },
        _ => Ok(()),
    }
}

/// How many of `attempts` claims of one bundle, taken one after the other on
/// a working file system, end as `expected`.
pub open spec fn claims_ending(
    markers: BundleMarkers,
    attempts: nat,
    expected: Result<bool, Seq<char>>,
) -> nat
    decreases attempts,
{
    if attempts == 0 {
        0
    } else {
        let step = MarkerStep::CreateNew(Marker::Processing);
        let this: nat = if claim_result(markers.outcome_of(step)) == expected {
            1
        } else {
            0
        };
        this + claims_ending(markers.after(step), (attempts - 1) as nat, expected)
    }
}

/// A claim is exclusive: of any number of claims of a bundle that nobody
/// holds, exactly one wins and all the others are told that the bundle is
/// taken. None of them ends in an error.
///
/// The file system creates a marker in one step, so claims that are made at
/// the same time take effect one after the other, in some order.
pub proof fn lemma_claim_is_exclusive(markers: BundleMarkers, attempts: nat)
    ensures
        !markers.processing && attempts > 0 ==> claims_ending(markers, attempts, Ok(true)) == 1,
        !markers.processing && attempts > 0 ==> claims_ending(markers, attempts, Ok(false))
            == attempts - 1,
        markers.processing ==> claims_ending(markers, attempts, Ok(true)) == 0,
        markers.processing ==> claims_ending(markers, attempts, Ok(false)) == attempts,
        forall|reason: Seq<char>| #[trigger] claims_ending(markers, attempts, Err(reason)) == 0,
    decreases attempts,
{
    if attempts > 0 {
        let step = MarkerStep::CreateNew(Marker::Processing);
        lemma_claim_is_exclusive(markers.after(step), (attempts - 1) as nat);
        assert forall|reason: Seq<char>| #[trigger]
            claims_ending(markers, attempts, Err(reason)) == 0 by {
            assert(claims_ending(markers.after(step), (attempts - 1) as nat, Err(reason)) == 0);
        }
    }
}

/// A bundle moves forward only. It can be claimed exactly while it is ready;
/// the claim of a ready bundle leaves it claimed; marking a claimed bundle
/// leaves it processed or failed; and no claim and no marking brings a
/// processed or failed bundle back.
pub proof fn lemma_bundle_moves_forward(markers: BundleMarkers, error_message: Seq<char>)
    ensures
        markers.eligible() <==> markers.state() == BundleState::Ready,
        markers.state() == BundleState::Ready ==> markers.after(
            MarkerStep::CreateNew(Marker::Processing),
        ).state() == BundleState::Claimed,
        markers.state() == BundleState::Claimed ==> markers.after_all(processed_steps()).state()
            == BundleState::Processed,
        markers.state() == BundleState::Claimed ==> markers.after_all(
            failed_steps(error_message),
        ).state() == BundleState::Failed,
        markers.state() == BundleState::Processed || markers.state() == BundleState::Failed ==> {
            &&& markers.after(MarkerStep::CreateNew(Marker::Processing)).state() == markers.state()
            &&& markers.after_all(processed_steps()).state() == markers.state()
            &&& markers.after_all(failed_steps(error_message)).state() == BundleState::Failed
        },
{
    reveal_with_fuel(BundleMarkers::after_all, 3);
}

/// A bundle that was marked processed or failed cannot be claimed any more,
/// whatever is done to its ready and processing markers afterwards.
pub proof fn lemma_finished_bundle_stays_out(
    markers: BundleMarkers,
    error_message: Seq<char>,
    later: Seq<MarkerStep>,
)
    requires
        forall|i: int|
            0 <= i < later.len() ==> #[trigger] later[i] != MarkerStep::RemoveIfPresent(
                Marker::Processed,
            ) && later[i] != MarkerStep::RemoveIfPresent(Marker::Failed),
    ensures
        markers.after_all(processed_steps()).processed,
        !markers.after_all(processed_steps()).processing,
        markers.after_all(failed_steps(error_message)).failed,
        !markers.after_all(failed_steps(error_message)).processing,
        !markers.after_all(processed_steps()).after_all(later).eligible(),
        !markers.after_all(failed_steps(error_message)).after_all(later).eligible(),
{
    reveal_with_fuel(BundleMarkers::after_all, 3);
    lemma_marks_persist(markers.after_all(processed_steps()), later);
    lemma_marks_persist(markers.after_all(failed_steps(error_message)), later);
}

proof fn lemma_marks_persist(markers: BundleMarkers, later: Seq<MarkerStep>)
    requires
        forall|i: int|
            0 <= i < later.len() ==> #[trigger] later[i] != MarkerStep::RemoveIfPresent(
                Marker::Processed,
            ) && later[i] != MarkerStep::RemoveIfPresent(Marker::Failed),
    ensures
        markers.processed ==> markers.after_all(later).processed,
        markers.failed ==> markers.after_all(later).failed,
    decreases later.len(),
{
    if later.len() > 0 {
        assert(later[0] != MarkerStep::RemoveIfPresent(Marker::Processed));
        assert(later[0] != MarkerStep::RemoveIfPresent(Marker::Failed));
        assert forall|i: int| 0 <= i < later.drop_first().len() implies #[trigger] later.drop_first()[i]
            != MarkerStep::RemoveIfPresent(Marker::Processed) && later.drop_first()[i]
            != MarkerStep::RemoveIfPresent(Marker::Failed) by {
            assert(later.drop_first()[i] == later[i + 1]);
        }
        lemma_marks_persist(markers.after(later[0]), later.drop_first());
    }
}

} // verus!
