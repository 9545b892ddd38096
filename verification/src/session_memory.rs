//! What a session says of memory: whether it takes part in recall and
//! contribution, how a change is recorded, and how it is read back.

use vstd::prelude::*;

use crate::config::MemorySetting;
use crate::core_ids::SessionId;
use crate::ids::{uuid_text, uuid_value};
use crate::legacy_projector::{
    lines_result, project_step, FreshIds, LegacyProjectError, LegacyProjector, ProjectorView,
};
use crate::rollout::{
    InternalRecordV2View, RolloutLine, RolloutLineV2, RolloutLineV2View, SessionSettingsField,
    SessionSettingsFieldView, ROLLOUT_FORMAT_VERSION,
};
use crate::rows::{first_match, lemma_is_first_match, lemma_no_match};
use crate::session::{SessionSettings, SessionSettingsView};
use crate::text::views;
use crate::time::{now, Timestamp};

verus! {

/// How a session takes part in memory.
#[derive(Debug, Clone, Copy, PartialEq, Eq, Structural)]
pub struct SessionMemorySettings {
    pub recall: MemorySetting,
    pub contribution: MemorySetting,
}

impl Default for SessionMemorySettings {
    fn default() -> (result: Self)
        ensures
            result.recall == MemorySetting::Inherit,
            result.contribution == MemorySetting::Inherit,
    {
        SessionMemorySettings {
            recall: MemorySetting::Inherit,
            contribution: MemorySetting::Inherit,
        }
    }
}

/// The memory settings of a session, with a number that counts their changes.
#[derive(Debug, Clone, Copy, PartialEq, Eq, Structural)]
pub struct SessionMemorySettingsSnapshot {
    pub settings: SessionMemorySettings,
    pub version: u64,
}

/// A setting after a patch that may name another.
pub open spec fn patched_setting(
    setting: MemorySetting,
    patch: Option<MemorySetting>,
) -> MemorySetting {
    match patch {
        Some(setting) => setting,
        None => setting,
    }
}

/// Settings after a patch.
pub open spec fn patched_settings(
    settings: SessionMemorySettings,
    recall: Option<MemorySetting>,
    contribution: Option<MemorySetting>,
) -> SessionMemorySettings {
    SessionMemorySettings {
        recall: patched_setting(settings.recall, recall),
        contribution: patched_setting(settings.contribution, contribution),
    }
}

/// A snapshot after a patch: the version counts only what changes something.
pub open spec fn patched_snapshot(
    snapshot: SessionMemorySettingsSnapshot,
    recall: Option<MemorySetting>,
    contribution: Option<MemorySetting>,
) -> SessionMemorySettingsSnapshot {
    let settings = patched_settings(snapshot.settings, recall, contribution);
    if settings == snapshot.settings {
        snapshot
    } else {
        SessionMemorySettingsSnapshot {
            settings,
            version: if snapshot.version < u64::MAX {
                (snapshot.version + 1) as u64
            } else {
                u64::MAX
            },
        }
    }
}

impl SessionMemorySettingsSnapshot {
    /// Applies a patch, and says whether it changed anything.
    pub fn apply(
        &mut self,
        recall: Option<MemorySetting>,
        contribution: Option<MemorySetting>,
    ) -> (result: bool)
        ensures
            *final(self) == patched_snapshot(*old(self), recall, contribution),
            result == (final(self).settings != old(self).settings),
    {
        let mut changed = false;
        if let Some(recall) = recall {
            if self.settings.recall != recall {
                self.settings.recall = recall;
                changed = true;
            }
        }
        if let Some(contribution) = contribution {
            if self.settings.contribution != contribution {
                self.settings.contribution = contribution;
                changed = true;
            }
        }
        if changed {
            self.version = self.version.saturating_add(1);
        }
        changed
    }
}

/// A patch of session settings, as far as memory is concerned.
#[derive(Debug, Clone, Copy, PartialEq, Eq, Structural)]
pub struct SessionSettingsPatch {
    pub memory_recall: Option<MemorySetting>,
    pub memory_contribution: Option<MemorySetting>,
}

/// A memory setting that is to be recorded.
#[derive(Debug, PartialEq, Eq)]
pub struct MemorySettingUpdate {
    pub field: SessionSettingsField,
    pub setting: MemorySetting,
}

/// The view of [`MemorySettingUpdate`].
#[verifier::ext_equal]
pub struct MemorySettingUpdateView {
    pub field: SessionSettingsFieldView,
    pub setting: MemorySetting,
}

impl View for MemorySettingUpdate {
    type V = MemorySettingUpdateView;

    open spec fn view(&self) -> MemorySettingUpdateView {
        MemorySettingUpdateView { field: self.field@, setting: self.setting }
    }
}

/// The updates that settings come to, recall first.
pub open spec fn updates_of(
    recall: Option<MemorySetting>,
    contribution: Option<MemorySetting>,
) -> Seq<MemorySettingUpdateView> {
    let first = match recall {
        Some(setting) => seq![
            MemorySettingUpdateView { field: SessionSettingsFieldView::MemoryRecall, setting },
        ],
        None => Seq::empty(),
    };
    match contribution {
        Some(setting) => first.push(
            MemorySettingUpdateView {
                field: SessionSettingsFieldView::MemoryContribution,
                setting,
            },
        ),
        None => first,
    }
}

fn memory_updates(recall: Option<MemorySetting>, contribution: Option<MemorySetting>) -> (result:
    Vec<MemorySettingUpdate>)
    ensures
        views(result@) == updates_of(recall, contribution),
{
    let mut updates: Vec<MemorySettingUpdate> = Vec::new();
    if let Some(setting) = recall {
        updates.push(MemorySettingUpdate { field: SessionSettingsField::MemoryRecall, setting });
    }
    let ghost first = views(updates@);
    if let Some(setting) = contribution {
        let update = MemorySettingUpdate {
            field: SessionSettingsField::MemoryContribution,
            setting,
        };
        let ghost added = update@;
        updates.push(update);
        assert(views(updates@) =~= first.push(added));
    }
    assert(views(updates@) =~= updates_of(recall, contribution));
    updates
}

/// What a patch changes, and what has to be recorded for it.
#[derive(Debug, PartialEq, Eq)]
pub struct MemorySettingsPatchPlan {
    pub recall: Option<MemorySetting>,
    pub contribution: Option<MemorySetting>,
    pub updates: Vec<MemorySettingUpdate>,
}

/// The view of [`MemorySettingsPatchPlan`].
#[verifier::ext_equal]
pub struct MemorySettingsPatchPlanView {
    pub recall: Option<MemorySetting>,
    pub contribution: Option<MemorySetting>,
    pub updates: Seq<MemorySettingUpdateView>,
}

impl View for MemorySettingsPatchPlan {
    type V = MemorySettingsPatchPlanView;

    open spec fn view(&self) -> MemorySettingsPatchPlanView {
        MemorySettingsPatchPlanView {
            recall: self.recall,
            contribution: self.contribution,
            updates: views(self.updates@),
        }
    }
}

/// A patched setting, unless it is what it was.
pub open spec fn changed_setting(current: MemorySetting, patch: Option<MemorySetting>) -> Option<
    MemorySetting,
> {
    if patch == Some(current) {
        None
    } else {
        patch
    }
}

/// The plan of a patch.
pub open spec fn patch_plan(
    current: SessionSettingsView,
    patch: Option<SessionSettingsPatch>,
) -> MemorySettingsPatchPlanView {
    let (recall, contribution) = match patch {
        Some(patch) => (
            changed_setting(current.memory_recall, patch.memory_recall),
            changed_setting(current.memory_contribution, patch.memory_contribution),
        ),
        None => (None, None),
    };
    MemorySettingsPatchPlanView {
        recall,
        contribution,
        updates: updates_of(recall, contribution),
    }
}

/// Settings once a plan is carried out.
pub open spec fn planned_settings(
    settings: SessionSettingsView,
    plan: MemorySettingsPatchPlanView,
) -> SessionSettingsView {
    SessionSettingsView {
        memory_recall: patched_setting(settings.memory_recall, plan.recall),
        memory_contribution: patched_setting(settings.memory_contribution, plan.contribution),
        ..settings
    }
}

/// What has to be done to persist a plan.
#[derive(Debug, Clone, Copy, PartialEq, Eq, Structural)]
pub enum PersistMemorySettings {
    /// Nothing changes.
    Nothing,
    /// Record the updates, and tell the session once they are recorded.
    RecordAndNotify,
    /// The session has no record: have it change its settings.
    ChangeSession,
}

/// Why a plan was not persisted.
#[derive(Debug, PartialEq, Eq)]
pub enum PersistMemorySettingsError {
    Persistence(String),
    SessionUnavailable,
}

/// The view of [`PersistMemorySettingsError`].
pub enum PersistMemorySettingsErrorView {
    Persistence(Seq<char>),
    SessionUnavailable,
}

impl View for PersistMemorySettingsError {
    type V = PersistMemorySettingsErrorView;

    open spec fn view(&self) -> PersistMemorySettingsErrorView {
        match self {
            PersistMemorySettingsError::Persistence(text) => {
                PersistMemorySettingsErrorView::Persistence(text@)
            },
            PersistMemorySettingsError::SessionUnavailable => {
                PersistMemorySettingsErrorView::SessionUnavailable
            },
        }
    }
}

impl MemorySettingsPatchPlan {
    /// Plans a patch of current settings: only what differs is changed.
    pub fn new(current: &SessionSettings, patch: Option<&SessionSettingsPatch>) -> (result: Self)
        ensures
            result@ == patch_plan(
                current@,
                match patch {
                    Some(patch) => Some(*patch),
                    None => None,
                },
            ),
    {
        let mut recall: Option<MemorySetting> = None;
        let mut contribution: Option<MemorySetting> = None;
        if let Some(patch) = patch {
            if let Some(setting) = patch.memory_recall {
                if setting != current.memory_recall {
                    recall = Some(setting);
                }
            }
            if let Some(setting) = patch.memory_contribution {
                if setting != current.memory_contribution {
                    contribution = Some(setting);
                }
            }
        }
        MemorySettingsPatchPlan {
            recall,
            contribution,
            updates: memory_updates(recall, contribution),
        }
    }

    /// What has to be done to persist the plan of a session, which has a record or
    /// has none.
    pub fn persist(&self, has_record: bool) -> (result: PersistMemorySettings)
        ensures
            result == (if self@.updates.len() == 0 {
                PersistMemorySettings::Nothing
            } else if has_record {
                PersistMemorySettings::RecordAndNotify
            } else {
                PersistMemorySettings::ChangeSession
            }),
    {
        if self.updates.len() == 0 {
            PersistMemorySettings::Nothing
        } else if has_record {
            PersistMemorySettings::RecordAndNotify
        } else {
            PersistMemorySettings::ChangeSession
        }
    }

    /// Changes settings as planned.
    pub fn apply_to(&self, settings: &mut SessionSettings)
        ensures
            final(settings)@ == planned_settings(old(settings)@, self@),
    {
        if let Some(recall) = self.recall {
            settings.memory_recall = recall;
        }
        if let Some(contribution) = self.contribution {
            settings.memory_contribution = contribution;
        }
    }
}

/// What persisting a plan gives: recorded settings are not answered with a
/// snapshot, a session that is asked answers or is gone.
pub fn persisted_settings(
    step: PersistMemorySettings,
    recorded: Result<(), String>,
    answer: Option<SessionMemorySettingsSnapshot>,
) -> (result: Result<Option<SessionMemorySettingsSnapshot>, PersistMemorySettingsError>)
    ensures
        match (step, recorded, answer) {
            (PersistMemorySettings::Nothing, _, _) => result == Ok::<
                Option<SessionMemorySettingsSnapshot>,
                PersistMemorySettingsError,
            >(None),
            (PersistMemorySettings::RecordAndNotify, Ok(_), _) => result == Ok::<
                Option<SessionMemorySettingsSnapshot>,
                PersistMemorySettingsError,
            >(None),
            (PersistMemorySettings::RecordAndNotify, Err(text), _) => result matches Err(error)
                && error@ == PersistMemorySettingsErrorView::Persistence(text@),
            (PersistMemorySettings::ChangeSession, _, Some(snapshot)) => result == Ok::<
                Option<SessionMemorySettingsSnapshot>,
                PersistMemorySettingsError,
            >(Some(snapshot)),
            (PersistMemorySettings::ChangeSession, _, None) => result matches Err(error) && error@
                == PersistMemorySettingsErrorView::SessionUnavailable,
        },
{
    match step {
        PersistMemorySettings::Nothing => Ok(None),
        PersistMemorySettings::RecordAndNotify => match recorded {
            Ok(_) => Ok(None),
            Err(text) => Err(PersistMemorySettingsError::Persistence(text)),
        },
        PersistMemorySettings::ChangeSession => match answer {
            Some(snapshot) => Ok(Some(snapshot)),
            None => Err(PersistMemorySettingsError::SessionUnavailable),
        },
    }
}

/// A setting that a new session takes over from another: the default is not
/// recorded.
pub open spec fn inherited_setting(setting: MemorySetting) -> Option<MemorySetting> {
    if setting == MemorySetting::Inherit {
        None
    } else {
        Some(setting)
    }
}

/// The updates that record settings which a new session takes over from another.
pub fn inherited_updates(settings: SessionMemorySettings) -> (result: Vec<MemorySettingUpdate>)
    ensures
        views(result@) == updates_of(
            inherited_setting(settings.recall),
            inherited_setting(settings.contribution),
        ),
{
    let recall = if settings.recall != MemorySetting::Inherit {
        Some(settings.recall)
    } else {
        None
    };
    let contribution = if settings.contribution != MemorySetting::Inherit {
        Some(settings.contribution)
    } else {
        None
    };
    memory_updates(recall, contribution)
}

/// A recorded value of a settings field, as far as it reads as a memory setting.
#[derive(Debug, PartialEq, Eq)]
pub struct ReplayedSetting {
    pub field: SessionSettingsField,
    pub setting: Option<MemorySetting>,
}

/// The view of [`ReplayedSetting`].
#[verifier::ext_equal]
pub struct ReplayedSettingView {
    pub field: SessionSettingsFieldView,
    pub setting: Option<MemorySetting>,
}

impl View for ReplayedSetting {
    type V = ReplayedSettingView;

    open spec fn view(&self) -> ReplayedSettingView {
        ReplayedSettingView { field: self.field@, setting: self.setting }
    }
}

/// Accepts the value of a field.
pub open spec fn field_is(field: SessionSettingsFieldView) -> spec_fn(ReplayedSettingView) -> bool {
    |value: ReplayedSettingView| value.field == field
}

/// What is read of a field: the default where nothing was recorded or what was
/// recorded is no setting.
pub open spec fn replayed_setting(
    values: Seq<ReplayedSettingView>,
    field: SessionSettingsFieldView,
) -> MemorySetting {
    match first_match(values, field_is(field)) {
        Some(i) => match values[i].setting {
            Some(setting) => setting,
            None => MemorySetting::Inherit,
        },
        None => MemorySetting::Inherit,
    }
}

fn read_setting(values: &Vec<ReplayedSetting>, recall: bool) -> (result: MemorySetting)
    ensures
        result == replayed_setting(
            views(values@),
            if recall {
                SessionSettingsFieldView::MemoryRecall
            } else {
                SessionSettingsFieldView::MemoryContribution
            },
        ),
{
    let ghost all = views(values@);
    let ghost wanted = field_is(
        if recall {
            SessionSettingsFieldView::MemoryRecall
        } else {
            SessionSettingsFieldView::MemoryContribution
        },
    );
    let mut i: usize = 0;
    while i < values.len()
        invariant
            i <= values.len(),
            all == views(values@),
            wanted == field_is(
                if recall {
                    SessionSettingsFieldView::MemoryRecall
                } else {
                    SessionSettingsFieldView::MemoryContribution
                },
            ),
            forall|j: int| 0 <= j < i ==> !wanted(#[trigger] all[j]),
        decreases values.len() - i,
    {
        assert(all[i as int] == values@[i as int]@);
        let found = match &values[i].field {
            SessionSettingsField::MemoryRecall => recall,
            SessionSettingsField::MemoryContribution => !recall,
            SessionSettingsField::Named(_) => false,
        };
        if found {
            proof {
                lemma_is_first_match(all, wanted, i as int);
            }
            return match values[i].setting {
                Some(setting) => setting,
                None => MemorySetting::Inherit,
            };
        }
        i = i + 1;
    }
    proof {
        lemma_no_match(all, wanted);
    }
    MemorySetting::Inherit
}

/// The memory settings that the recorded values of a session come to.
pub fn memory_settings(values: &Vec<ReplayedSetting>) -> (result: SessionMemorySettings)
    ensures
        result.recall == replayed_setting(
            views(values@),
            SessionSettingsFieldView::MemoryRecall,
        ),
        result.contribution == replayed_setting(
            views(values@),
            SessionSettingsFieldView::MemoryContribution,
        ),
{
    SessionMemorySettings {
        recall: read_setting(values, true),
        contribution: read_setting(values, false),
    }
}

// ---------------------------------------------------------------------------
// Recording settings.
// ---------------------------------------------------------------------------
/// A settings field and its new value, as a JSON text.
#[derive(Debug, PartialEq, Eq)]
pub struct SettingsUpdate {
    pub field: SessionSettingsField,
    pub value: String,
}

/// The view of [`SettingsUpdate`].
#[verifier::ext_equal]
pub struct SettingsUpdateView {
    pub field: SessionSettingsFieldView,
    pub value: Seq<char>,
}

impl View for SettingsUpdate {
    type V = SettingsUpdateView;

    open spec fn view(&self) -> SettingsUpdateView {
        SettingsUpdateView {
            field: self.field@,
            value: self.value@,
        }
    }
}

impl Clone for SettingsUpdate {
    fn clone(&self) -> (result: Self)
        ensures
            result@ == self@,
    {
        let result = SettingsUpdate {
            field: self.field.clone(),
            value: self.value.clone(),
        };
        result
    }
}

/// The view of a settings line of a record.
#[verifier::ext_equal]
pub struct SettingsLineView {
    pub timestamp: Timestamp,
    pub session_id: Seq<char>,
    pub field: SessionSettingsFieldView,
    pub value: Seq<char>,
}

/// Whether a line is a settings line, and which.
pub open spec fn is_settings_line(line: RolloutLine, view: SettingsLineView) -> bool {
    line matches RolloutLine::SessionSettings { timestamp, session_id, field, value } && (
    timestamp == view.timestamp && session_id@ == view.session_id && field@ == view.field && value@
        == view.value)
}

/// Whether lines record updates of a session's settings, in order, each with an
/// instant that the clock told.
pub open spec fn records_updates(
    lines: Seq<RolloutLine>,
    session_id: SessionId,
    updates: Seq<SettingsUpdateView>,
    timestamps: Seq<Timestamp>,
) -> bool {
    &&& lines.len() == updates.len()
    &&& forall|i: int|
        0 <= i < updates.len() ==> is_settings_line(
            #[trigger] lines[i],
            SettingsLineView {
                timestamp: timestamps[i],
                session_id: uuid_text(session_id.value),
                field: updates[i].field,
                value: updates[i].value,
            },
        ) && timestamps[i].is_told_by_clock()
}

/// The lines that record updates of a session's settings.
pub fn settings_lines(session_id: SessionId, updates: &Vec<SettingsUpdate>) -> (result: Vec<
    RolloutLine,
>)
    ensures
        exists|timestamps: Seq<Timestamp>|
            timestamps.len() == updates@.len() && #[trigger] records_updates(
                result@,
                session_id,
                views(updates@),
                timestamps,
            ),
        result@.len() > 0 ==> uuid_value(uuid_text(session_id.value)) == Some(session_id.value),
{
    let ghost mut timestamps: Seq<Timestamp> = Seq::empty();
    let mut lines: Vec<RolloutLine> = Vec::new();
    let mut i: usize = 0;
    while i < updates.len()
        invariant
            i <= updates.len(),
            timestamps.len() == i,
            i > 0 ==> uuid_value(uuid_text(session_id.value)) == Some(session_id.value),
            records_updates(lines@, session_id, views(updates@).take(i as int), timestamps),
        decreases updates.len() - i,
    {
        let timestamp = now();
        let update = &updates[i];
        let ghost earlier = timestamps;
        let ghost written = lines@;
        proof {
            timestamps = timestamps.push(timestamp);
        }
        lines.push(
            RolloutLine::SessionSettings {
                timestamp,
                session_id: session_id.to_text(),
                field: update.field.clone(),
                value: update.value.clone(),
            },
        );
        assert forall|j: int| 0 <= j < i + 1 implies is_settings_line(
            #[trigger] lines@[j],
            SettingsLineView {
                timestamp: timestamps[j],
                session_id: uuid_text(session_id.value),
                field: views(updates@).take(i + 1)[j].field,
                value: views(updates@).take(i + 1)[j].value,
            },
        ) && timestamps[j].is_told_by_clock() by {
            if j < i {
                assert(lines@[j] == written[j]);
                assert(timestamps[j] == earlier[j]);
                assert(views(updates@).take(i + 1)[j] == views(updates@).take(i as int)[j]);
            } else {
                assert(views(updates@).take(i + 1)[j] == updates@[i as int]@);
            }
        }
        i = i + 1;
    }
    assert(views(updates@).take(i as int) =~= views(updates@));
    lines
}

/// The epoch that comes a number of writes after another one. Epochs stop growing
/// at the largest one.
pub open spec fn later_epoch(epoch: u64, writes: int) -> u64 {
    if epoch + writes <= u64::MAX {
        (epoch + writes) as u64
    } else {
        u64::MAX
    }
}

/// The settings records of a batch: one for each update, in order, with epochs
/// that follow each other from a first one on.
pub open spec fn is_settings_batch(
    lines: Seq<RolloutLineV2View>,
    session_id: SessionId,
    updates: Seq<SettingsUpdateView>,
    first_epoch: u64,
) -> bool {
    &&& lines.len() == updates.len()
    &&& forall|i: int|
        0 <= i < updates.len() ==> is_settings_record(
            #[trigger] lines[i],
            session_id,
            updates[i],
            later_epoch(first_epoch, i),
        )
}

/// Whether a line is the settings record of an update.
pub open spec fn is_settings_record(
    line: RolloutLineV2View,
    session_id: SessionId,
    update: SettingsUpdateView,
    epoch_number: u64,
) -> bool {
    &&& line matches RolloutLineV2View::Internal { v, timestamp, session_id: id, turn_id, seq, entry }
    &&& v == ROLLOUT_FORMAT_VERSION
    &&& timestamp.is_told_by_clock()
    &&& id == uuid_text(session_id.value)
    &&& turn_id is None
    &&& seq == 0
    &&& entry matches InternalRecordV2View::SessionSettings { schema_version, field, value, epoch }
    &&& schema_version == 1
    &&& field == update.field
    &&& value == update.value
    &&& epoch == epoch_number
}

/// Converts the settings lines of a batch for the record of a session. Nothing
/// else is written between them, so their epochs follow each other.
pub fn settings_batch(
    projector: &mut LegacyProjector,
    session_id: SessionId,
    updates: &Vec<SettingsUpdate>,
) -> (result: Result<Vec<RolloutLineV2>, LegacyProjectError>)
    ensures
        result matches Ok(lines) && is_settings_batch(
            views(lines@),
            session_id,
            views(updates@),
            old(projector)@.next_settings_epoch,
        ),
        final(projector)@ == (ProjectorView {
            next_settings_epoch: later_epoch(
                old(projector)@.next_settings_epoch,
                updates@.len() as int,
            ),
            ..old(projector)@
        }),
{
    let lines = settings_lines(session_id, updates);
    let ghost timestamps = choose|timestamps: Seq<Timestamp>|
        timestamps.len() == updates@.len() && #[trigger] records_updates(
            lines@,
            session_id,
            views(updates@),
            timestamps,
        );
    let ghost before = projector@;
    let ghost all = views(updates@);
    let fresh: Vec<FreshIds> = Vec::new();
    let mut out: Vec<RolloutLineV2> = Vec::new();
    let mut i: usize = 0;
    while i < lines.len()
        invariant
            i <= lines.len(),
            lines.len() == updates.len(),
            fresh@.len() == 0,
            lines@.len() > 0 ==> uuid_value(uuid_text(session_id.value)) == Some(session_id.value),
            all == views(updates@),
            records_updates(lines@, session_id, all, timestamps),
            projector@ == (ProjectorView {
                next_settings_epoch: later_epoch(before.next_settings_epoch, i as int),
                ..before
            }),
            is_settings_batch(
                views(out@),
                session_id,
                all.take(i as int),
                before.next_settings_epoch,
            ),
        decreases lines.len() - i,
    {
        let ghost written = views(out@);
        assert(is_settings_line(
            lines@[i as int],
            SettingsLineView {
                timestamp: timestamps[i as int],
                session_id: uuid_text(session_id.value),
                field: all[i as int].field,
                value: all[i as int].value,
            },
        ));
        let ghost step = project_step(projector@, lines@[i as int], fresh@);
        let converted_line = projector.project_line_with(&lines[i], &fresh);
        assert(step.result is Ok);
        assert(step.result->Ok_0.len() == 1);
        assert(lines_result(converted_line) == step.result);
        let mut converted = match converted_line {
            Ok(converted) => converted,
            Err(error) => return Err(error),
        };
        let ghost one = views(converted@);
        assert(one.len() == 1 && one[0] == converted@[0]@);
        assert(is_settings_record(
            one[0],
            session_id,
            all[i as int],
            later_epoch(before.next_settings_epoch, i as int),
        ));
        let line = match converted.pop() {
            Some(line) => line,
            None => return Ok(out),
        };
        let ghost added = line@;
        assert(added == one[0]);
        out.push(line);
        assert(views(out@) =~= written.push(added));
        assert forall|j: int| 0 <= j < i + 1 implies is_settings_record(
            #[trigger] views(out@)[j],
            session_id,
            all.take(i + 1)[j],
            later_epoch(before.next_settings_epoch, j),
        ) by {
            if j < i {
                assert(views(out@)[j] == written[j]);
                assert(all.take(i + 1)[j] == all.take(i as int)[j]);
            } else {
                assert(views(out@)[j] == added);
                assert(all.take(i + 1)[j] == all[i as int]);
            }
        }
        i = i + 1;
    }
    assert(all.take(i as int) =~= all);
    Ok(out)
}

// ---------------------------------------------------------------------------
// Laws.
// ---------------------------------------------------------------------------
/// A plan names only what differs from the current settings; carrying it out gives
/// what the patch asks for, and planning the same patch again changes nothing.
pub proof fn law_plan_reaches_patch(current: SessionSettingsView, patch: SessionSettingsPatch)
    ensures
        ({
            let plan = patch_plan(current, Some(patch));
            let after = planned_settings(current, plan);
            &&& after.memory_recall == patched_setting(current.memory_recall, patch.memory_recall)
            &&& after.memory_contribution == patched_setting(
                current.memory_contribution,
                patch.memory_contribution,
            )
            &&& plan.updates.len() == 0 <==> after == current
            &&& patch_plan(after, Some(patch)).updates.len() == 0
        }),
{
}

/// The version of a snapshot grows with every change and with nothing else, as
/// long as it can.
pub proof fn law_version_counts_changes(
    snapshot: SessionMemorySettingsSnapshot,
    recall: Option<MemorySetting>,
    contribution: Option<MemorySetting>,
)
    ensures
        ({
            let after = patched_snapshot(snapshot, recall, contribution);
            &&& after.settings == patched_settings(snapshot.settings, recall, contribution)
            &&& after.settings == snapshot.settings <==> after == snapshot
            &&& snapshot.version < u64::MAX && after.settings != snapshot.settings
                ==> after.version == snapshot.version + 1
            &&& patched_snapshot(after, recall, contribution) == after
        }),
{
}

/// Recorded settings are read back: what a session takes over from another is what
/// the other had.
pub proof fn law_inherited_settings_read_back(
    settings: SessionMemorySettings,
    values: Seq<ReplayedSettingView>,
)
    requires
        values == replayed(
            updates_of(
                inherited_setting(settings.recall),
                inherited_setting(settings.contribution),
            ),
        ),
    ensures
        replayed_setting(values, SessionSettingsFieldView::MemoryRecall) == settings.recall,
        replayed_setting(values, SessionSettingsFieldView::MemoryContribution)
            == settings.contribution,
{
    let updates = updates_of(
        inherited_setting(settings.recall),
        inherited_setting(settings.contribution),
    );
    let recall = field_is(SessionSettingsFieldView::MemoryRecall);
    let contribution = field_is(SessionSettingsFieldView::MemoryContribution);
    assert(values.len() == updates.len());
    if inherited_setting(settings.recall) is Some {
        assert(values[0].field == updates[0].field);
        lemma_is_first_match(values, recall, 0);
        if inherited_setting(settings.contribution) is Some {
            assert(values[1].field == updates[1].field);
            lemma_is_first_match(values, contribution, 1);
        } else {
            lemma_no_match(values, contribution);
        }
    } else if inherited_setting(settings.contribution) is Some {
        assert(values[0].field == updates[0].field);
        lemma_is_first_match(values, contribution, 0);
        lemma_no_match(values, recall);
    } else {
        lemma_no_match(values, recall);
        lemma_no_match(values, contribution);
    }
}

/// What is read of recorded updates.
pub open spec fn replayed(updates: Seq<MemorySettingUpdateView>) -> Seq<ReplayedSettingView> {
    updates.map_values(
        |update: MemorySettingUpdateView|
            ReplayedSettingView { field: update.field, setting: Some(update.setting) },
    )
}

} // verus!
