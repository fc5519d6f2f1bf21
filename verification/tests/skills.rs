use codex_support::available_skills_instructions::AvailableSkills;
use codex_support::available_skills_instructions::AvailableSkillsInstructions;
use codex_support::available_skills_instructions::SkillsHowToUse;
use codex_support::skill_chunks::render_body_chunks;
use codex_support::skill_chunks::render_chunk;
use codex_support::skill_chunks::MAX_SKILLS_CONTEXT_FRAGMENT_TOKENS;
use codex_support::skill_chunks::SKILLS_INSTRUCTIONS_CLOSE_TAG;
use codex_support::skill_chunks::SKILLS_INSTRUCTIONS_OPEN_TAG;
use codex_support::tokens::approx_bytes_for_tokens;
use codex_support::tokens::approx_token_count;

/// The largest body of one fragment, in bytes.
const LIMIT: usize = 35_957;

fn render_body(roots: &Vec<String>, lines: &Vec<String>) -> String {
    let mut all = vec!["## Skills".to_string()];
    all.extend(roots.iter().cloned());
    all.push("### Available skills".to_string());
    all.extend(lines.iter().cloned());
    format!("\n{}\n", all.join("\n"))
}

fn only_lines(_roots: &Vec<String>, lines: &Vec<String>) -> String {
    lines.join("|")
}

fn only_roots(roots: &Vec<String>, _lines: &Vec<String>) -> String {
    roots.join("|")
}

fn stripped(chunks: &[String]) -> Vec<String> {
    chunks
        .iter()
        .map(|chunk| {
            chunk
                .strip_prefix(SKILLS_INSTRUCTIONS_OPEN_TAG)
                .and_then(|chunk| chunk.strip_suffix(SKILLS_INSTRUCTIONS_CLOSE_TAG))
                .expect("chunk should retain skills context markers")
                .to_string()
        })
        .collect()
}

#[test]
fn rendered_chunks_preserve_body_and_stay_bounded() {
    let mut skill_lines = (0..100)
        .map(|index| format!("- skill-{index}: {}", "x".repeat(1_000)))
        .collect::<Vec<_>>();
    skill_lines.push(format!("- unicode-skill: {}", "💡".repeat(10_000)));
    let instructions = AvailableSkillsInstructions::from_skill_lines(skill_lines);

    let chunks = instructions.render_chunks(render_body);

    assert!(chunks.len() > 1);
    assert!(chunks
        .iter()
        .all(|chunk| approx_token_count(chunk) <= MAX_SKILLS_CONTEXT_FRAGMENT_TOKENS));
    let combined_body = chunks
        .iter()
        .map(|chunk| {
            chunk
                .strip_prefix(SKILLS_INSTRUCTIONS_OPEN_TAG)
                .and_then(|chunk| chunk.strip_suffix(SKILLS_INSTRUCTIONS_CLOSE_TAG))
                .expect("chunk should retain skills context markers")
        })
        .collect::<String>();
    assert_eq!(combined_body, instructions.body(render_body));
}

#[test]
fn tokens_are_bytes_divided_by_four_and_rounded_up() {
    assert_eq!(approx_token_count(""), 0);
    assert_eq!(approx_token_count("a"), 1);
    assert_eq!(approx_token_count("abcd"), 1);
    assert_eq!(approx_token_count("abcde"), 2);
    assert_eq!(approx_token_count("💡💡"), 2);
    assert_eq!(approx_token_count("é"), 1);
}

#[test]
fn bytes_for_tokens_stop_at_the_largest_count() {
    assert_eq!(approx_bytes_for_tokens(0), 0);
    assert_eq!(approx_bytes_for_tokens(9_000), 36_000);
    assert_eq!(approx_bytes_for_tokens(usize::MAX), usize::MAX);
}

#[test]
fn a_chunk_is_its_body_between_the_markers() {
    assert_eq!(
        render_chunk("body"),
        "<skills_instructions>body</skills_instructions>"
    );
}

#[test]
fn an_empty_body_makes_one_empty_chunk() {
    assert_eq!(
        render_body_chunks(""),
        vec!["<skills_instructions></skills_instructions>".to_string()]
    );
}

#[test]
fn a_body_up_to_the_limit_stays_in_one_chunk() {
    let body = "x".repeat(LIMIT);
    assert_eq!(render_body_chunks(&body), vec![render_chunk(&body)]);
    assert_eq!(
        approx_token_count(&render_chunk(&body)),
        MAX_SKILLS_CONTEXT_FRAGMENT_TOKENS
    );
}

#[test]
fn a_long_line_is_cut_behind_the_last_byte_that_fits() {
    let body = "x".repeat(LIMIT + 1);
    let parts = stripped(&render_body_chunks(&body));
    assert_eq!(
        parts.iter().map(|part| part.len()).collect::<Vec<_>>(),
        vec![LIMIT, 1]
    );
}

#[test]
fn a_long_line_is_never_cut_inside_a_character() {
    let body = "💡".repeat(10_000);
    let parts = stripped(&render_body_chunks(&body));
    assert_eq!(
        parts.iter().map(|part| part.len()).collect::<Vec<_>>(),
        vec![35_956, 4_044]
    );
    assert_eq!(parts.concat(), body);
}

#[test]
fn lines_that_fit_are_kept_whole() {
    let first = format!("{}\n", "a".repeat(20_000));
    let second = format!("{}\n", "b".repeat(20_000));
    let third = "c".repeat(10);
    let body = format!("{first}{second}{third}");
    let parts = stripped(&render_body_chunks(&body));
    assert_eq!(parts, vec![first, format!("{second}{third}")]);
}

#[test]
fn the_rest_of_a_cut_line_is_joined_by_the_lines_behind_it() {
    let body = format!("short\n{}\ntail\n", "x".repeat(LIMIT));
    let parts = stripped(&render_body_chunks(&body));
    assert_eq!(
        parts,
        vec![
            "short\n".to_string(),
            "x".repeat(LIMIT),
            "\ntail\n".to_string()
        ]
    );
}

#[test]
fn skill_lines_alone_come_without_roots() {
    let fragment = AvailableSkillsInstructions::from_skill_lines(vec!["- a".to_string()]);
    assert_eq!(fragment.body(only_lines), "- a");
    assert_eq!(fragment.body(only_roots), "");
}

fn how_to_use() -> SkillsHowToUse {
    SkillsHowToUse {
        with_absolute_paths: "absolute".to_string(),
        with_aliases: "aliases".to_string(),
    }
}

#[test]
fn usage_instructions_follow_the_catalog_on_demand() {
    let available = AvailableSkills {
        skill_root_lines: Vec::new(),
        skill_lines: vec!["- a".to_string(), "- b".to_string()],
    };
    let plain =
        AvailableSkillsInstructions::from_available_skills(&available, false, &how_to_use());
    assert_eq!(plain.body(only_lines), "- a|- b");
    let explained =
        AvailableSkillsInstructions::from_available_skills(&available, true, &how_to_use());
    assert_eq!(
        explained.body(only_lines),
        "- a|- b|### How to use skills|absolute"
    );
}

#[test]
fn usage_instructions_for_roots_speak_of_aliases() {
    let available = AvailableSkills {
        skill_root_lines: vec!["- r0: /skills".to_string()],
        skill_lines: vec!["- a".to_string()],
    };
    let explained =
        AvailableSkillsInstructions::from_available_skills(&available, true, &how_to_use());
    assert_eq!(
        explained.body(only_lines),
        "- a|### How to use skills|aliases"
    );
    assert_eq!(explained.body(only_roots), "- r0: /skills");
}

#[test]
fn fragments_enter_the_context_under_their_markers() {
    let fragment = AvailableSkillsInstructions::from_skill_lines(Vec::new());
    assert_eq!(fragment.role(), "developer");
    assert_eq!(
        fragment.markers(),
        ("<skills_instructions>", "</skills_instructions>")
    );
    assert_eq!(
        AvailableSkillsInstructions::type_markers(),
        fragment.markers()
    );
}

#[test]
fn neighbouring_chunks_would_not_fit_into_one() {
    let lines = (0..400)
        .map(|index| format!("{index} {}\n", "é".repeat(index * 7 % 900)))
        .collect::<String>();
    let body = format!("{lines}{}\nend\n", "💡".repeat(20_000));
    let parts = stripped(&render_body_chunks(&body));
    assert!(parts.len() > 4);
    assert_eq!(parts.concat(), body);
    for pair in parts.windows(2) {
        assert!(pair[0].len() + pair[1].len() + 3 > LIMIT);
    }
}

#[test]
fn a_long_line_begins_a_chunk_and_fills_it() {
    let body = format!("ab\n{}\ncd\n", "é".repeat(20_000));
    let parts = stripped(&render_body_chunks(&body));
    assert_eq!(
        parts,
        vec![
            "ab\n".to_string(),
            "é".repeat(17_978),
            format!("{}\ncd\n", "é".repeat(2_022)),
        ]
    );
}
