//! Whether sessions take part in memory.

use devo_memory::config::{MemoryConfig, MemorySetting};

#[test]
fn session_memory_settings_resolve_against_independent_global_defaults() {
    let config = MemoryConfig {
        enabled: true,
        default_recall: MemorySetting::Off,
        default_contribution: MemorySetting::On,
        ..MemoryConfig::default()
    };

    assert_eq!(config.resolve_recall(MemorySetting::Inherit), MemorySetting::Off);
    assert_eq!(config.resolve_recall(MemorySetting::On), MemorySetting::On);
    assert_eq!(config.resolve_contribution(MemorySetting::Inherit), MemorySetting::On);
    assert_eq!(config.resolve_contribution(MemorySetting::Off), MemorySetting::Off);
}

#[test]
fn disabled_memory_forces_explicit_session_settings_off() {
    let config = MemoryConfig { enabled: false, ..MemoryConfig::default() };

    assert_eq!(config.resolve_recall(MemorySetting::On), MemorySetting::Off);
    assert_eq!(config.resolve_contribution(MemorySetting::On), MemorySetting::Off);
}

#[test]
fn defaults_are_those_of_the_documentation() {
    let config = MemoryConfig::default();
    assert!(!config.enabled);
    assert_eq!(config.default_recall, MemorySetting::On);
    assert_eq!(config.default_contribution, MemorySetting::On);
    assert_eq!(config.min_source_idle_hours, 6);
    assert_eq!(config.source_window_days, 30);
    assert_eq!(config.inferred_stale_after_days, 90);
    assert_eq!(config.candidate_and_job_retention_days, 30);
    assert_eq!(config.max_sources_per_scan, 2);
    assert_eq!(config.max_entries_per_turn, 12);
    assert_eq!(config.max_prompt_tokens, 2_000);
    assert_eq!(config.min_rate_limit_remaining_percent, 25);
    assert_eq!(config.effective_recall(), MemorySetting::Off);
    assert_eq!(config.effective_contribution(), MemorySetting::Off);
}
