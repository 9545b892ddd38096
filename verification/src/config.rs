//! Configuration of the server-owned General Persistent Memory runtime.

use vstd::prelude::*;

verus! {

/// Whether a session takes part in recall or contribution.
#[derive(Debug, Clone, Copy, PartialEq, Eq, Structural)]
pub enum MemorySetting {
    /// Follow the global default.
    Inherit,
    On,
    Off,
}

impl Default for MemorySetting {
    fn default() -> (result: Self)
        ensures
            result == MemorySetting::Inherit,
    {
        MemorySetting::Inherit
    }
}

/// Global General Persistent Memory settings.
///
/// The `enabled` switch is authoritative: while it is `false`, recall and
/// contribution are off, whatever their configured defaults are.
#[derive(Debug, PartialEq, Eq)]
pub struct MemoryConfig {
    /// Master feature switch. Off by default for privacy and safety.
    pub enabled: bool,
    /// Recall of sessions whose setting is `Inherit`.
    pub default_recall: MemorySetting,
    /// Contribution of sessions whose setting is `Inherit`.
    pub default_contribution: MemorySetting,
    /// Minimum age of a source session before it can be scanned.
    pub min_source_idle_hours: u64,
    /// Maximum age of source sessions considered for extraction.
    pub source_window_days: u64,
    /// Age after which inferred entries become stale.
    pub inferred_stale_after_days: u64,
    /// Retention period of candidates and jobs.
    pub candidate_and_job_retention_days: u64,
    /// Maximum source sessions considered by one background scan.
    pub max_sources_per_scan: u32,
    /// Maximum memory entries injected into one turn.
    pub max_entries_per_turn: u32,
    /// Maximum prompt tokens reserved for memory recall.
    pub max_prompt_tokens: u32,
    /// Minimum remaining provider rate-limit percentage required for scans.
    pub min_rate_limit_remaining_percent: u8,
    /// Model binding used by extraction jobs, if any.
    pub extract_model: Option<String>,
}

impl Clone for MemoryConfig {
    fn clone(&self) -> (result: Self)
        ensures
            result == *self,
    {
        MemoryConfig {
            enabled: self.enabled,
            default_recall: self.default_recall,
            default_contribution: self.default_contribution,
            min_source_idle_hours: self.min_source_idle_hours,
            source_window_days: self.source_window_days,
            inferred_stale_after_days: self.inferred_stale_after_days,
            candidate_and_job_retention_days: self.candidate_and_job_retention_days,
            max_sources_per_scan: self.max_sources_per_scan,
            max_entries_per_turn: self.max_entries_per_turn,
            max_prompt_tokens: self.max_prompt_tokens,
            min_rate_limit_remaining_percent: self.min_rate_limit_remaining_percent,
            extract_model: self.extract_model.clone(),
        }
    }
}

pub fn default_memory_setting_on() -> (result: MemorySetting)
    ensures
        result == MemorySetting::On,
{
    MemorySetting::On
}

pub fn default_min_source_idle_hours() -> (result: u64)
    ensures
        result == 6,
{
    6
}

pub fn default_source_window_days() -> (result: u64)
    ensures
        result == 30,
{
    30
}

pub fn default_inferred_stale_after_days() -> (result: u64)
    ensures
        result == 90,
{
    90
}

pub fn default_candidate_and_job_retention_days() -> (result: u64)
    ensures
        result == 30,
{
    30
}

pub fn default_max_sources_per_scan() -> (result: u32)
    ensures
        result == 2,
{
    2
}

pub fn default_max_entries_per_turn() -> (result: u32)
    ensures
        result == 12,
{
    12
}

pub fn default_max_prompt_tokens() -> (result: u32)
    ensures
        result == 2_000,
{
    2_000
}

pub fn default_min_rate_limit_remaining_percent() -> (result: u8)
    ensures
        result == 25,
{
    25
}

impl Default for MemoryConfig {
    fn default() -> (result: Self)
        ensures
            !result.enabled,
            result.default_recall == MemorySetting::On,
            result.default_contribution == MemorySetting::On,
            result.min_source_idle_hours == 6,
            result.source_window_days == 30,
            result.inferred_stale_after_days == 90,
            result.candidate_and_job_retention_days == 30,
            result.max_sources_per_scan == 2,
            result.max_entries_per_turn == 12,
            result.max_prompt_tokens == 2_000,
            result.min_rate_limit_remaining_percent == 25,
            result.extract_model is None,
    {
        MemoryConfig {
            enabled: false,
            default_recall: default_memory_setting_on(),
            default_contribution: default_memory_setting_on(),
            min_source_idle_hours: default_min_source_idle_hours(),
            source_window_days: default_source_window_days(),
            inferred_stale_after_days: default_inferred_stale_after_days(),
            candidate_and_job_retention_days: default_candidate_and_job_retention_days(),
            max_sources_per_scan: default_max_sources_per_scan(),
            max_entries_per_turn: default_max_entries_per_turn(),
            max_prompt_tokens: default_max_prompt_tokens(),
            min_rate_limit_remaining_percent: default_min_rate_limit_remaining_percent(),
            extract_model: None,
        }
    }
}

/// A session's setting against the memory switch and a global default.
pub open spec fn resolved_setting(
    enabled: bool,
    session_setting: MemorySetting,
    global_default: MemorySetting,
) -> MemorySetting {
    if !enabled {
        MemorySetting::Off
    } else if session_setting == MemorySetting::Inherit {
        global_default
    } else {
        session_setting
    }
}

impl MemoryConfig {
    /// Resolves the global recall setting against the memory switch.
    pub fn effective_recall(&self) -> (result: MemorySetting)
        ensures
            result == if self.enabled {
                self.default_recall
            } else {
                MemorySetting::Off
            },
    {
        if self.enabled {
            self.default_recall
        } else {
            MemorySetting::Off
        }
    }

    /// Resolves the global contribution setting against the memory switch.
    pub fn effective_contribution(&self) -> (result: MemorySetting)
        ensures
            result == if self.enabled {
                self.default_contribution
            } else {
                MemorySetting::Off
            },
    {
        if self.enabled {
            self.default_contribution
        } else {
            MemorySetting::Off
        }
    }

    /// Resolves a session's recall against the global policy. The switch wins over
    /// an explicit `On`.
    pub fn resolve_recall(&self, session_setting: MemorySetting) -> (result: MemorySetting)
        ensures
            result == resolved_setting(self.enabled, session_setting, self.default_recall),
    {
        self.resolve_session_setting(session_setting, self.default_recall)
    }

    /// Resolves a session's contribution against the global policy. The switch wins
    /// over an explicit `On`.
    pub fn resolve_contribution(&self, session_setting: MemorySetting) -> (result: MemorySetting)
        ensures
            result == resolved_setting(self.enabled, session_setting, self.default_contribution),
    {
        self.resolve_session_setting(session_setting, self.default_contribution)
    }

    fn resolve_session_setting(
        &self,
        session_setting: MemorySetting,
        global_default: MemorySetting,
    ) -> (result: MemorySetting)
        ensures
            result == resolved_setting(self.enabled, session_setting, global_default),
    {
        if !self.enabled {
            return MemorySetting::Off;
        }
        match session_setting {
            MemorySetting::Inherit => global_default,
            MemorySetting::On => MemorySetting::On,
            MemorySetting::Off => MemorySetting::Off,
        }
    }
}

/// Switching memory off turns every session setting off.
pub proof fn law_disabled_memory_is_off(
    session_setting: MemorySetting,
    global_default: MemorySetting,
)
    ensures
        resolved_setting(false, session_setting, global_default) == MemorySetting::Off,
{
}

/// While memory is enabled a session that chose for itself keeps its choice, and one
/// that inherits resolves as the global setting does.
pub proof fn law_enabled_memory_respects_session(
    session_setting: MemorySetting,
    global_default: MemorySetting,
)
    ensures
        session_setting != MemorySetting::Inherit ==> resolved_setting(
            true,
            session_setting,
            global_default,
        ) == session_setting,
        resolved_setting(true, MemorySetting::Inherit, global_default) == global_default,
{
}

} // verus!
