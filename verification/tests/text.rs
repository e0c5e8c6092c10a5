use council::text::{append_str, append_u64};

fn collected(v: &[char]) -> String {
    v.iter().collect()
}

#[test]
fn decimal_rendering_matches_std() {
    for n in [0u64, 1, 9, 10, 11, 99, 100, 600, 12345, 500000, u64::MAX] {
        let mut out: Vec<char> = Vec::new();
        append_u64(&mut out, n);
        assert_eq!(collected(&out), n.to_string());
    }
}

#[test]
fn appends_accumulate_in_order() {
    let mut out: Vec<char> = Vec::new();
    append_str(&mut out, "Member #");
    append_u64(&mut out, 3);
    append_str(&mut out, " of ");
    append_u64(&mut out, 5);
    assert_eq!(collected(&out), "Member #3 of 5");
    append_str(&mut out, "");
    assert_eq!(collected(&out), "Member #3 of 5");
}
