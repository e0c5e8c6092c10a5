use council::adapter::{assemble_output, error_message, truncate_output, ExecutionError, MAX_OUTPUT_BYTES};

#[test]
fn truncation_is_idempotent() {
    let mut long = vec![b'a'; MAX_OUTPUT_BYTES + 1];
    truncate_output(&mut long);
    assert_eq!(long.len(), MAX_OUTPUT_BYTES);
    let once = long.clone();
    truncate_output(&mut long);
    assert_eq!(long, once);
}

#[test]
fn truncation_leaves_short_output_unchanged() {
    let mut short = vec![b'x'; 100];
    let orig = short.clone();
    truncate_output(&mut short);
    assert_eq!(short, orig);
    let mut exact = vec![b'y'; MAX_OUTPUT_BYTES];
    let orig_exact = exact.clone();
    truncate_output(&mut exact);
    assert_eq!(exact, orig_exact);
}

#[test]
fn oversized_output_gets_a_truncation_notice() {
    let stdout = vec![b'a'; MAX_OUTPUT_BYTES + 10];
    let text = assemble_output(stdout, &Vec::new());
    assert!(text.ends_with("\n\n[Output truncated at 500KB]"));
    let body = &text[..text.len() - "\n\n[Output truncated at 500KB]".len()];
    assert_eq!(body.len(), MAX_OUTPUT_BYTES);
    assert!(body.bytes().all(|b| b == b'a'));
}

#[test]
fn stderr_is_appended_after_a_marker() {
    let text = assemble_output(b"primary".to_vec(), &b"diagnostic".to_vec());
    assert_eq!(text, "primary\n[stderr]: diagnostic");
}

#[test]
fn empty_stderr_adds_no_marker() {
    let text = assemble_output(b"primary only".to_vec(), &Vec::new());
    assert_eq!(text, "primary only");
}

#[test]
fn multibyte_and_invalid_bytes_are_decoded_not_echoed() {
    let text = assemble_output(vec![0xE2, 0x82, 0xAC], &Vec::new());
    assert_eq!(text, "€");
    let lossy = assemble_output(vec![b'o', b'k', 0xFF], &Vec::new());
    assert_eq!(lossy, "ok\u{FFFD}");
}

#[test]
fn timeout_error_message_names_the_timeout() {
    let msg = error_message(&ExecutionError::Timeout(600));
    assert_eq!(msg, "Timed out after 600s");
}

#[test]
fn unavailable_error_message_names_the_detail() {
    let msg = error_message(&ExecutionError::Unavailable("spawn refused".to_string()));
    assert_eq!(msg, "Process failed: spawn refused");
}
