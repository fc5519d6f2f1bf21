//! Skill-related configuration types shared across crates.
use vstd::prelude::*;
use vstd::string::*;
use crate::format_text::decimal;
use crate::format_text::push_decimal;

verus! {

/// The largest token budget that a configuration may set for skill metadata.
pub const MAX_SKILL_CONTEXT_BUDGET_TOKENS: usize = 100_000;

/// Whether bundled skills are enabled when the configuration does not say.
pub fn default_enabled() -> (enabled: bool)
    ensures
        enabled,
{
    true
}

/// Enables or disables the skills that a selector picks.
#[derive(Debug, Clone, PartialEq, Eq)]
pub struct SkillConfig {
    /// Path-based selector: an absolute path.
    pub path: Option<String>,
    /// Name-based selector.
    pub name: Option<String>,
    pub enabled: bool,
}

/// The `skills` table of a configuration.
#[derive(Debug, Clone, PartialEq, Eq)]
pub struct SkillsConfig {
    pub bundled: Option<BundledSkillsConfig>,
    /// Whether turns receive the automatic skills instructions block.
    pub include_instructions: Option<bool>,
    /// Fixed aggregate token budget for model-visible host skill metadata.
    pub context_budget_tokens: Option<usize>,
    pub config: Vec<SkillConfig>,
}

/// The settings of the skills that come bundled.
#[derive(Debug, Clone, Copy, PartialEq, Eq)]
pub struct BundledSkillsConfig {
    pub enabled: bool,
}

/// A token budget that a configuration may not set.
#[derive(Debug, Clone, Copy, PartialEq, Eq)]
pub enum ContextBudgetError {
    /// The budget is zero.
    Zero,
    /// The budget is larger than [`MAX_SKILL_CONTEXT_BUDGET_TOKENS`].
    TooLarge,
}

/// Whether a configuration may set this budget: none at all, or a positive number of tokens up to
/// the largest.
pub open spec fn allowed_budget(value: Option<usize>) -> bool {
    match value {
        Some(tokens) => 1 <= tokens <= MAX_SKILL_CONTEXT_BUDGET_TOKENS,
        None => true,
    }
}

impl SkillsConfig {
    /// Whether the configuration keeps to what it may set.
    pub open spec fn wf(&self) -> bool {
        allowed_budget(self.context_budget_tokens)
    }

    /// Builds a configuration from its parts, unless the budget is not allowed.
    pub fn from_parts(
        bundled: Option<BundledSkillsConfig>,
        include_instructions: Option<bool>,
        context_budget_tokens: Option<usize>,
        config: Vec<SkillConfig>,
    ) -> (result: Result<Self, ContextBudgetError>)
        ensures
            match result {
                Ok(skills) => {
                    &&& skills.wf()
                    &&& skills.bundled == bundled
                    &&& skills.include_instructions == include_instructions
                    &&& skills.context_budget_tokens == context_budget_tokens
                    &&& skills.config == config
                },
                Err(ContextBudgetError::Zero) => context_budget_tokens == Some(0usize),
                Err(ContextBudgetError::TooLarge) => context_budget_tokens matches Some(tokens)
                    && tokens > MAX_SKILL_CONTEXT_BUDGET_TOKENS,
            },
            result is Ok <==> (context_budget_tokens is None || 1 <= context_budget_tokens->Some_0
                <= 100_000),
            result matches Err(error) ==> (error is Zero <==> context_budget_tokens->Some_0 == 0),
            result matches Err(error) ==> (error is TooLarge <==> context_budget_tokens->Some_0
                > 100_000),
    {
        match check_context_budget_tokens(context_budget_tokens) {
            Ok(context_budget_tokens) => Ok(
                Self { bundled, include_instructions, context_budget_tokens, config },
            ),
            Err(error) => Err(error),
        }
    }
}

impl Default for SkillsConfig {
    fn default() -> (skills: Self)
        ensures
            skills.wf(),
            skills.bundled is None,
            skills.include_instructions is None,
            skills.context_budget_tokens is None,
            skills.config@ == Seq::<SkillConfig>::empty(),
    {
        Self {
            bundled: None,
            include_instructions: None,
            context_budget_tokens: None,
            config: Vec::new(),
        }
    }
}

impl Default for BundledSkillsConfig {
    fn default() -> (bundled: Self)
        ensures
            bundled.enabled,
    {
        Self { enabled: true }
    }
}

/// Checks a budget as it stands in a configuration.
pub fn check_context_budget_tokens(value: Option<usize>) -> (result: Result<
    Option<usize>,
    ContextBudgetError,
>)
    ensures
        match result {
            Ok(budget) => budget == value && allowed_budget(value),
            Err(ContextBudgetError::Zero) => value == Some(0usize),
            Err(ContextBudgetError::TooLarge) => value matches Some(tokens) && tokens
                > MAX_SKILL_CONTEXT_BUDGET_TOKENS,
        },
        result is Ok <==> (value is None || 1 <= value->Some_0 <= 100_000),
        result matches Err(error) ==> (error is Zero <==> value->Some_0 == 0),
        result matches Err(error) ==> (error is TooLarge <==> value->Some_0 > 100_000),
{
    match value {
        Some(tokens) => if tokens == 0 {
            Err(ContextBudgetError::Zero)
        } else if tokens > MAX_SKILL_CONTEXT_BUDGET_TOKENS {
            Err(ContextBudgetError::TooLarge)
        } else {
            Ok(value)
        },
        None => Ok(None),
    }
}

/// What a configuration's reader is told about a budget that is too large.
pub fn budget_too_large_message() -> (message: String)
    ensures
        message@ == "skills.context_budget_tokens must not exceed "@ + decimal(
            MAX_SKILL_CONTEXT_BUDGET_TOKENS as nat,
        ),
{
    let mut message = "skills.context_budget_tokens must not exceed ".to_owned();
    push_decimal(&mut message, MAX_SKILL_CONTEXT_BUDGET_TOKENS as u128);
    message
}

/// A well-formed configuration sets no budget, or one from 1 to 100,000 tokens.
pub proof fn budgets_are_in_range(skills: SkillsConfig)
    ensures
        skills.wf() <==> (skills.context_budget_tokens matches Some(tokens) ==> 0 < tokens
            <= 100_000),
{
}

} // verus!
