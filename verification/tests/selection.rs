use council::catalog::{default_catalog, Lens};
use council::selection::select_constraints;

fn names(selection: &[Lens]) -> Vec<&'static str> {
    selection.iter().map(|l| l.name).collect()
}

fn assert_no_duplicates(selection: &[Lens]) {
    let ns = names(selection);
    for i in 0..ns.len() {
        for j in (i + 1)..ns.len() {
            assert_ne!(ns[i], ns[j], "lens selected twice");
        }
    }
}

#[test]
fn mandatory_always_present_and_no_lens_twice() {
    let catalog = default_catalog();
    for n in [0usize, 1, 2, 3, 5, 10, 16, 40] {
        let selection = select_constraints(&catalog, n);
        let ns = names(&selection);
        assert_eq!(ns[0], "the_goal_goldratt");
        assert_eq!(ns[1], "urgency_musk");
        assert_eq!(
            ns.iter().filter(|x| **x == "the_goal_goldratt").count(),
            1
        );
        assert_eq!(ns.iter().filter(|x| **x == "urgency_musk").count(), 1);
        assert_no_duplicates(&selection);
        let expected_len = 2usize.max(n.min(catalog.len()));
        assert_eq!(selection.len(), expected_len);
    }
}

#[test]
fn at_or_below_mandatory_count_is_deterministic() {
    let catalog = default_catalog();
    for n in [0usize, 1, 2] {
        let a = names(&select_constraints(&catalog, n));
        let b = names(&select_constraints(&catalog, n));
        assert_eq!(a, vec!["the_goal_goldratt", "urgency_musk"]);
        assert_eq!(a, b);
    }
}

#[test]
fn above_mandatory_count_optional_subsets_vary() {
    let catalog = default_catalog();
    let mut suffixes: Vec<Vec<&'static str>> = Vec::new();
    for _ in 0..40 {
        let selection = select_constraints(&catalog, 5);
        let ns = names(&selection);
        assert_eq!(ns[0], "the_goal_goldratt");
        assert_eq!(ns[1], "urgency_musk");
        assert_eq!(ns.len(), 5);
        assert_no_duplicates(&selection);
        for extra in &ns[2..] {
            assert!(catalog.iter().any(|l| l.name == *extra && !l.mandatory));
        }
        suffixes.push(ns[2..].to_vec());
    }
    // a uniform shuffle of 14 optional lenses almost surely differs
    // somewhere across 40 draws of 3
    assert!(
        suffixes.iter().any(|s| *s != suffixes[0]),
        "optional subsets never varied across 40 trials"
    );
}

#[test]
fn requesting_fewer_than_mandatory_yields_mandatory_set() {
    let catalog = default_catalog();
    let selection = select_constraints(&catalog, 1);
    assert_eq!(selection.len(), 2);
    assert_eq!(
        names(&selection),
        vec!["the_goal_goldratt", "urgency_musk"]
    );
}

#[test]
fn custom_catalog_keeps_mandatory_in_catalog_order() {
    let catalog = vec![
        Lens { name: "alpha", prompt: "first angle", mandatory: false },
        Lens { name: "beta", prompt: "second angle", mandatory: true },
        Lens { name: "gamma", prompt: "third angle", mandatory: false },
        Lens { name: "delta", prompt: "fourth angle", mandatory: true },
        Lens { name: "epsilon", prompt: "fifth angle", mandatory: true },
    ];
    for n in [0usize, 2, 4, 5, 9] {
        let selection = select_constraints(&catalog, n);
        let ns = names(&selection);
        assert_eq!(&ns[..3], &["beta", "delta", "epsilon"]);
        assert_no_duplicates(&selection);
        assert_eq!(selection.len(), 3usize.max(n.min(5)));
        for extra in &selection[3..] {
            assert!(!extra.mandatory);
        }
    }
}
