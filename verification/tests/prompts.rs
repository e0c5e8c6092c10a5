use council::catalog::default_catalog;
use council::orchestrator::MemberResult;
use council::prompts::{render_member_prompt, render_synthesis_prompt};

#[test]
fn member_prompt_renders_exactly() {
    let catalog = default_catalog();
    let lens = &catalog[0];
    let task = "refactor module X";
    let rendered = render_member_prompt(lens, task, 5);
    let expected = format!(
        "You are a council member analyzing with a specific constraint. There are {} council members, each with different orthogonal constraints.\n\n{}\n\nYOUR TASK:\n{}\n\nYOUR OUTPUT REQUIREMENTS:\n1. Executive summary (2-3 sentences) from your constraint's perspective ONLY\n2. Detailed analysis with specific insights labeled [{}]\n3. Recommendations with file paths and line numbers where applicable\n4. Risks and trade-offs within your constraint area\n\nQuality over quantity - 5 constraint-specific insights > 20 generic observations.\nIf your analysis could come from any other constraint, you're doing it WRONG.",
        5, lens.prompt, task, lens.name
    );
    assert_eq!(rendered, expected);
}

#[test]
fn member_prompt_embeds_count_lens_and_task() {
    let catalog = default_catalog();
    let lens = &catalog[2];
    let task = "tighten the parser loop";
    let rendered = render_member_prompt(lens, task, 7);
    assert!(rendered.contains("There are 7 council members"));
    assert!(rendered.contains(lens.prompt));
    assert!(rendered.contains(task));
    assert!(rendered.contains("[complexity_knuth]"));
}

fn member(slot: usize, name: &str, text: &str) -> MemberResult {
    MemberResult { slot, name: name.to_string(), text: text.to_string() }
}

#[test]
fn synthesis_prompt_renders_exactly() {
    let task = "refactor module X";
    let results = vec![
        member(0, "alpha", "alpha findings"),
        member(1, "beta", "beta findings"),
        member(2, "gamma", "gamma findings"),
    ];
    let rendered = render_synthesis_prompt(&results, task);
    let sep = "═".repeat(63);
    let analyses = results
        .iter()
        .map(|r| {
            format!(
                "{}\nMEMBER #{}: {}\n{}\n\n{}",
                sep,
                r.slot + 1,
                r.name.to_uppercase(),
                sep,
                r.text
            )
        })
        .collect::<Vec<_>>()
        .join("\n\n");
    let expected = format!(
        "You are a master synthesizer analyzing insights from {} council members who each analyzed through different constraints.\n\nYOUR TASK:\nSynthesize the following analyses into ONE coherent, actionable recommendation.\n\nORIGINAL TASK:\n{}\n\nCOUNCIL ANALYSES:\n{}\n\nYOUR SYNTHESIS REQUIREMENTS:\n\n1. EXECUTIVE SUMMARY (3-4 sentences)\n   - What's the core issue?\n   - What's the recommended solution?\n   - What's the expected impact?\n\n2. CONSOLIDATED FINDINGS\n   - Identify common themes across multiple constraints\n   - Highlight unique insights from specific constraints\n   - Resolve any conflicting recommendations (explain which to prioritize and why)\n\n3. PRIORITIZED ACTION PLAN\n   - List specific changes in priority order (P0/P1/P2)\n   - For each item: file:line, what to change, why, expected impact\n   - Include concrete code snippets where applicable\n\n4. RISKS & TRADE-OFFS\n   - What are we trading off?\n   - What could go wrong?\n   - How to mitigate?\n\n5. IMPLEMENTATION ROADMAP\n   - What order to tackle changes?\n   - What dependencies exist?\n\nBe concise but specific. The goal is ONE clear path forward, not multiple options.\nFocus on ACTIONABLE recommendations with clear next steps.",
        3, task, analyses
    );
    assert_eq!(rendered, expected);
}

#[test]
fn synthesis_prompt_lists_every_member_once_in_slot_order() {
    let task = "audit the cache layer";
    let results = vec![
        member(0, "first_lens", "finding one"),
        member(1, "second_lens", "finding two"),
        member(2, "third_lens", "finding three"),
        member(3, "fourth_lens", "finding four"),
    ];
    let rendered = render_synthesis_prompt(&results, task);
    let mut last_pos = 0usize;
    for r in &results {
        let header = format!("MEMBER #{}: {}", r.slot + 1, r.name.to_uppercase());
        assert_eq!(rendered.matches(&header).count(), 1);
        assert_eq!(rendered.matches(r.text.as_str()).count(), 1);
        let pos = rendered.find(&header).unwrap();
        assert!(pos >= last_pos, "member blocks out of slot order");
        let text_pos = rendered.find(r.text.as_str()).unwrap();
        assert!(text_pos > pos);
        last_pos = pos;
    }
    assert!(rendered.contains("from 4 council members"));
}
