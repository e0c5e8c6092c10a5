use council::adapter::ExecutionError;
use council::catalog::default_catalog;
use council::orchestrator::{member_result, plan_prompts, Collector, MemberResult};
use council::prompts::render_synthesis_prompt;
use council::selection::select_constraints;

#[test]
fn failed_outcome_becomes_a_labeled_placeholder() {
    let r = member_result(2, "waste_ohno".to_string(), Err(ExecutionError::Timeout(10)));
    assert_eq!(r.slot, 2);
    assert_eq!(r.name, "waste_ohno");
    assert_eq!(r.text, "[Member 3 error: Timed out after 10s]");
    let r = member_result(
        0,
        "tests_beck".to_string(),
        Err(ExecutionError::Unavailable("no executor".to_string())),
    );
    assert_eq!(r.text, "[Member 1 error: Process failed: no executor]");
}

#[test]
fn successful_outcome_keeps_its_text() {
    let r = member_result(4, "devex_spolsky".to_string(), Ok("useful analysis".to_string()));
    assert_eq!(r.slot, 4);
    assert_eq!(r.text, "useful analysis");
}

#[test]
fn collector_accepts_each_slot_exactly_once() {
    let mut collector = Collector::new(3);
    assert!(!collector.is_complete());
    let a = MemberResult { slot: 0, name: "a".to_string(), text: "ta".to_string() };
    let a_again = MemberResult { slot: 0, name: "a2".to_string(), text: "dup".to_string() };
    let out_of_range = MemberResult { slot: 3, name: "x".to_string(), text: "tx".to_string() };
    assert!(collector.record(a));
    assert!(!collector.record(a_again), "second result for a slot must be turned away");
    assert!(!collector.record(out_of_range), "unknown slot must be turned away");
    assert!(!collector.is_complete());
    let b = MemberResult { slot: 2, name: "c".to_string(), text: "tc".to_string() };
    let c = MemberResult { slot: 1, name: "b".to_string(), text: "tb".to_string() };
    assert!(collector.record(b));
    assert!(collector.record(c));
    assert!(collector.is_complete());
    let ordered = collector.into_ordered();
    assert_eq!(ordered.len(), 3);
    for (i, r) in ordered.iter().enumerate() {
        assert_eq!(r.slot, i);
    }
    assert_eq!(ordered[1].text, "tb");
}

#[test]
fn one_timeout_among_five_stays_isolated() {
    let names = ["n0", "n1", "n2", "n3", "n4"];
    let mut collector = Collector::new(5);
    // completion order differs from slot order, and slot 2 timed out
    for slot in [3usize, 0, 2, 4, 1] {
        let outcome = if slot == 2 {
            Err(ExecutionError::Timeout(10))
        } else {
            Ok(format!("real output {}", slot))
        };
        let r = member_result(slot, names[slot].to_string(), outcome);
        assert!(collector.record(r));
    }
    assert!(collector.is_complete());
    let ordered = collector.into_ordered();
    assert_eq!(ordered.len(), 5);
    for (i, r) in ordered.iter().enumerate() {
        assert_eq!(r.slot, i);
        assert_eq!(r.name, names[i]);
        if i == 2 {
            assert!(r.text.contains("Timed out after 10s"));
            assert_eq!(r.text, "[Member 3 error: Timed out after 10s]");
        } else {
            assert_eq!(r.text, format!("real output {}", i));
        }
    }
}

#[test]
fn plan_prompts_renders_one_prompt_per_slot() {
    let catalog = default_catalog();
    let selection = select_constraints(&catalog, 4);
    let prompts = plan_prompts(&selection, "review the scheduler");
    assert_eq!(prompts.len(), selection.len());
    for (i, p) in prompts.iter().enumerate() {
        assert!(p.contains(selection[i].prompt));
        assert!(p.contains(&format!("[{}]", selection[i].name)));
        assert!(p.contains("review the scheduler"));
        assert!(p.contains(&format!("There are {} council members", selection.len())));
    }
}

#[test]
fn full_run_in_slot_order_with_and_without_synthesis() {
    let task = "refactor module X";
    let catalog = default_catalog();
    let selection = select_constraints(&catalog, 5);
    assert_eq!(selection.len(), 5);
    let prompts = plan_prompts(&selection, task);
    assert_eq!(prompts.len(), 5);

    for synthesize in [true, false] {
        let mut executor_calls = 0usize;
        let mut simulated = |_prompt: &str, slot: usize| -> Result<String, ExecutionError> {
            executor_calls += 1;
            Ok(format!("distinct text {}", slot))
        };
        let mut collector = Collector::new(5);
        for slot in [4usize, 1, 3, 0, 2] {
            let outcome = simulated(&prompts[slot], slot);
            let r = member_result(slot, selection[slot].name.to_string(), outcome);
            assert!(collector.record(r));
        }
        assert!(collector.is_complete());
        let ordered = collector.into_ordered();
        assert_eq!(ordered.len(), 5);
        for (i, r) in ordered.iter().enumerate() {
            assert_eq!(r.slot, i);
            assert_eq!(r.name, selection[i].name);
            assert_eq!(r.text, format!("distinct text {}", i));
        }
        if synthesize {
            let synthesis_prompt = render_synthesis_prompt(&ordered, task);
            for (i, r) in ordered.iter().enumerate() {
                assert!(synthesis_prompt.contains(&r.name.to_uppercase()));
                assert!(synthesis_prompt.contains(&format!("distinct text {}", i)));
            }
            assert!(synthesis_prompt.contains(task));
            executor_calls += 1;  // the single synthesis dispatch
            assert_eq!(executor_calls, 6);
        } else {
            assert_eq!(executor_calls, 5);
        }
    }
}
