//! The model context fragment that describes the available skills.
use vstd::prelude::*;
use crate::skill_chunks::all_enclosed;
use crate::skill_chunks::chunk_bodies;
use crate::skill_chunks::render_body_chunks;
use crate::skill_chunks::SKILLS_INSTRUCTIONS_CLOSE_TAG;
use crate::skill_chunks::SKILLS_INSTRUCTIONS_OPEN_TAG;
use crate::utf8_text::texts;

verus! {

/// The skills of a session as rendered catalog lines.
#[derive(Debug, Clone, PartialEq, Eq)]
pub struct AvailableSkills {
    /// The lines of the table of skill roots; empty when the skill lines hold absolute paths.
    pub skill_root_lines: Vec<String>,
    /// One line for each skill.
    pub skill_lines: Vec<String>,
}

/// The two texts that tell a model how to use the skills of a catalog.
#[derive(Debug, Clone, PartialEq, Eq)]
pub struct SkillsHowToUse {
    /// For a catalog whose lines hold absolute paths.
    pub with_absolute_paths: String,
    /// For a catalog whose lines abbreviate paths by skill roots.
    pub with_aliases: String,
}

/// Model-context fragment describing the skills available to Codex.
#[derive(Debug, Clone, PartialEq, Eq)]
pub struct AvailableSkillsInstructions {
    skill_root_lines: Vec<String>,
    skill_lines: Vec<String>,
}

/// The skill lines of a fragment: those of the catalog, followed on demand by a heading and the
/// usage text that goes with the catalog's paths.
pub open spec fn fragment_lines(
    available_skills: &AvailableSkills,
    include_skills_usage_instructions: bool,
    how_to_use: &SkillsHowToUse,
) -> Seq<Seq<char>> {
    let catalog = texts(available_skills.skill_lines@);
    if !include_skills_usage_instructions {
        catalog
    } else if available_skills.skill_root_lines@.len() == 0 {
        catalog + seq!["### How to use skills"@, how_to_use.with_absolute_paths@]
    } else {
        catalog + seq!["### How to use skills"@, how_to_use.with_aliases@]
    }
}

impl AvailableSkillsInstructions {
    /// The lines of the table of skill roots.
    pub closed spec fn root_lines(&self) -> Vec<String> {
        self.skill_root_lines
    }

    /// The lines of the skill catalog.
    pub closed spec fn lines(&self) -> Vec<String> {
        self.skill_lines
    }

    /// Creates a skills context fragment from pre-rendered catalog lines.
    pub fn from_skill_lines(skill_lines: Vec<String>) -> (fragment: Self)
        ensures
            fragment.root_lines()@ == Seq::<String>::empty(),
            fragment.lines() == skill_lines,
    {
        Self { skill_root_lines: Vec::new(), skill_lines }
    }

    /// Creates a skills context fragment from a catalog, with the usage text on demand.
    pub fn from_available_skills(
        available_skills: &AvailableSkills,
        include_skills_usage_instructions: bool,
        how_to_use: &SkillsHowToUse,
    ) -> (fragment: Self)
        ensures
            texts(fragment.root_lines()@) == texts(available_skills.skill_root_lines@),
            texts(fragment.lines()@) == fragment_lines(
                available_skills,
                include_skills_usage_instructions,
                how_to_use,
            ),
            fragment.root_lines()@.len() == available_skills.skill_root_lines@.len(),
            forall|i: int|
                0 <= i < fragment.root_lines()@.len() ==> (#[trigger] fragment.root_lines()@[i])@
                    == available_skills.skill_root_lines@[i]@,
            fragment.lines()@.len() - available_skills.skill_lines@.len() == (
            if include_skills_usage_instructions {
                2int
            } else {
                0int
            }),
            forall|i: int|
                0 <= i < available_skills.skill_lines@.len() ==> (#[trigger] fragment.lines()@[i])@
                    == available_skills.skill_lines@[i]@,
            !include_skills_usage_instructions ==> texts(fragment.lines()@) == texts(
                available_skills.skill_lines@,
            ),
            include_skills_usage_instructions
                ==> fragment.lines()@[fragment.lines()@.len() - 2]@ == "### How to use skills"@,
            include_skills_usage_instructions && available_skills.skill_root_lines@.len() == 0
                ==> fragment.lines()@.last()@ == how_to_use.with_absolute_paths@,
            include_skills_usage_instructions && available_skills.skill_root_lines@.len() > 0
                ==> fragment.lines()@.last()@ == how_to_use.with_aliases@,
    {
        let mut skill_lines = available_skills.skill_lines.clone();
        proof {
            lemma_cloned_texts(available_skills.skill_lines@, skill_lines@);
        }
        let ghost catalog = skill_lines@;
        proof {
            lemma_same_texts(available_skills.skill_lines@, catalog);
        }
        if include_skills_usage_instructions {
            skill_lines.push("### How to use skills".to_owned());
            if available_skills.skill_root_lines.is_empty() {
                skill_lines.push(how_to_use.with_absolute_paths.clone());
            } else {
                skill_lines.push(how_to_use.with_aliases.clone());
            }
            proof {
                let n = catalog.len() as int;
                assert(texts(skill_lines@) =~= texts(catalog) + seq![
                    skill_lines@[n]@,
                    skill_lines@[n + 1]@,
                ]);
            }
        }
        let skill_root_lines = available_skills.skill_root_lines.clone();
        proof {
            lemma_cloned_texts(available_skills.skill_root_lines@, skill_root_lines@);
            lemma_same_texts(available_skills.skill_root_lines@, skill_root_lines@);
        }
        Self { skill_root_lines, skill_lines }
    }

    /// The whole body of the fragment, as `render_body` makes it from the root and skill lines.
    pub fn body<F: Fn(&Vec<String>, &Vec<String>) -> String>(&self, render_body: F) -> (body:
        String)
        requires
            call_requires(render_body, (&self.root_lines(), &self.lines())),
        ensures
            call_ensures(render_body, (&self.root_lines(), &self.lines()), body),
    {
        render_body(&self.skill_root_lines, &self.skill_lines)
    }

    /// Renders the body, as `render_body` makes it, in fragments of a bounded size.
    pub fn render_chunks<F: Fn(&Vec<String>, &Vec<String>) -> String>(
        &self,
        render_body: F,
    ) -> (chunks: Vec<String>)
        requires
            call_requires(render_body, (&self.root_lines(), &self.lines())),
        ensures
            exists|body: String|
                #![trigger chunk_bodies(body@)]
                call_ensures(render_body, (&self.root_lines(), &self.lines()), body) && texts(
                    chunks@,
                ) == all_enclosed(chunk_bodies(body@)),
    {
        let body = self.body(render_body);
        render_body_chunks(body.as_str())
    }

    /// The role under which the fragment enters the context.
    pub fn role(&self) -> (role: &'static str)
        ensures
            role@ == "developer"@,
    {
        "developer"
    }

    /// The markers around this fragment.
    pub fn markers(&self) -> (markers: (&'static str, &'static str))
        ensures
            markers.0@ == SKILLS_INSTRUCTIONS_OPEN_TAG@,
            markers.1@ == SKILLS_INSTRUCTIONS_CLOSE_TAG@,
    {
        Self::type_markers()
    }

    /// The markers around every fragment of this type.
    pub fn type_markers() -> (markers: (&'static str, &'static str))
        ensures
            markers.0@ == SKILLS_INSTRUCTIONS_OPEN_TAG@,
            markers.1@ == SKILLS_INSTRUCTIONS_CLOSE_TAG@,
    {
        (SKILLS_INSTRUCTIONS_OPEN_TAG, SKILLS_INSTRUCTIONS_CLOSE_TAG)
    }
}

proof fn lemma_cloned_texts(from: Seq<String>, to: Seq<String>)
    requires
        from.len() == to.len(),
        forall|i: int| 0 <= i < from.len() ==> cloned::<String>(#[trigger] from[i], to[i]),
    ensures
        texts(to) == texts(from),
{
    assert forall|i: int| 0 <= i < from.len() implies texts(to)[i] == texts(from)[i] by {
        assert(cloned::<String>(from[i], to[i]));
    }
    assert(texts(to) =~= texts(from));
}

proof fn lemma_same_texts(from: Seq<String>, to: Seq<String>)
    requires
        from.len() == to.len(),
        texts(to) == texts(from),
    ensures
        forall|i: int| 0 <= i < to.len() ==> (#[trigger] to[i])@ == from[i]@,
{
    assert forall|i: int| 0 <= i < to.len() implies (#[trigger] to[i])@ == from[i]@ by {
        assert(texts(to)[i] == texts(from)[i]);
    }
}

/// A fragment with the usage text is the fragment without it and two lines more: the heading, and
/// the text for aliases exactly when the catalog has skill roots.
pub proof fn usage_is_two_lines_more(available_skills: AvailableSkills, how_to_use: SkillsHowToUse)
    ensures
        fragment_lines(&available_skills, false, &how_to_use) == texts(
            available_skills.skill_lines@,
        ),
        fragment_lines(&available_skills, true, &how_to_use) == fragment_lines(
            &available_skills,
            false,
            &how_to_use,
        ).push("### How to use skills"@).push(
            if available_skills.skill_root_lines@.len() > 0 {
                how_to_use.with_aliases@
            } else {
                how_to_use.with_absolute_paths@
            },
        ),
{
    assert(fragment_lines(&available_skills, true, &how_to_use) =~= texts(
        available_skills.skill_lines@,
    ).push("### How to use skills"@).push(
        if available_skills.skill_root_lines@.len() > 0 {
            how_to_use.with_aliases@
        } else {
            how_to_use.with_absolute_paths@
        },
    ));
}

} // verus!
