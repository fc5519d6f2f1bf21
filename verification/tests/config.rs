use codex_support::skills_config::budget_too_large_message;
use codex_support::skills_config::check_context_budget_tokens;
use codex_support::skills_config::default_enabled;
use codex_support::skills_config::BundledSkillsConfig;
use codex_support::skills_config::ContextBudgetError;
use codex_support::skills_config::SkillConfig;
use codex_support::skills_config::SkillsConfig;

#[test]
fn budgets_are_positive_and_bounded() {
    assert_eq!(check_context_budget_tokens(None), Ok(None));
    assert_eq!(check_context_budget_tokens(Some(1)), Ok(Some(1)));
    assert_eq!(
        check_context_budget_tokens(Some(100_000)),
        Ok(Some(100_000))
    );
    assert_eq!(
        check_context_budget_tokens(Some(0)),
        Err(ContextBudgetError::Zero)
    );
    assert_eq!(
        check_context_budget_tokens(Some(100_001)),
        Err(ContextBudgetError::TooLarge)
    );
}

#[test]
fn a_large_budget_is_explained() {
    assert_eq!(
        budget_too_large_message(),
        "skills.context_budget_tokens must not exceed 100000"
    );
}

#[test]
fn bundled_skills_are_enabled_by_default() {
    assert!(default_enabled());
    assert_eq!(
        BundledSkillsConfig::default(),
        BundledSkillsConfig { enabled: true }
    );
}

#[test]
fn a_configuration_sets_nothing_by_default() {
    let skills = SkillsConfig::default();
    assert_eq!(skills.bundled, None);
    assert_eq!(skills.include_instructions, None);
    assert_eq!(skills.context_budget_tokens, None);
    assert!(skills.config.is_empty());
}

#[test]
fn a_configuration_keeps_its_parts() {
    let entry = SkillConfig {
        path: Some("/skills/a/SKILL.md".to_string()),
        name: None,
        enabled: false,
    };
    let skills = SkillsConfig::from_parts(
        Some(BundledSkillsConfig { enabled: false }),
        Some(true),
        Some(2_000),
        vec![entry.clone()],
    )
    .expect("budget should be allowed");
    assert_eq!(skills.bundled, Some(BundledSkillsConfig { enabled: false }));
    assert_eq!(skills.include_instructions, Some(true));
    assert_eq!(skills.context_budget_tokens, Some(2_000));
    assert_eq!(skills.config, vec![entry]);
}

#[test]
fn a_configuration_refuses_a_budget_out_of_range() {
    assert_eq!(
        SkillsConfig::from_parts(None, None, Some(0), Vec::new()),
        Err(ContextBudgetError::Zero)
    );
    assert_eq!(
        SkillsConfig::from_parts(None, None, Some(200_000), Vec::new()),
        Err(ContextBudgetError::TooLarge)
    );
}
