use steeloxide::tools::{answer_from_lowered, config_question, hex_string, sha1sum_vec, yes_no_answer};

#[test]
fn sha1_of_known_inputs() {
    assert_eq!(sha1sum_vec(&b"abc".to_vec()), "a9993e364706816aba3e25717850c26c9cd0d89d");
    assert_eq!(sha1sum_vec(&Vec::new()), "da39a3ee5e6b4b0d3255bfef95601890afd80709");
}

#[test]
fn hex_rendering() {
    assert_eq!(hex_string(&vec![0x00, 0x0f, 0xa0, 0xff]), "000fa0ff");
    assert_eq!(hex_string(&Vec::new()), "");
}

#[test]
fn config_question_text() {
    assert_eq!(config_question("abc"), "Is config hash ok: abc");
}

#[test]
fn yes_no_replies() {
    assert_eq!(yes_no_answer("y\n"), Some(true));
    assert_eq!(yes_no_answer("Yes"), Some(true));
    assert_eq!(yes_no_answer("N"), Some(false));
    assert_eq!(yes_no_answer("no"), Some(false));
    assert_eq!(yes_no_answer("maybe"), None);
    assert_eq!(yes_no_answer(""), None);
    assert_eq!(yes_no_answer(" y"), None);
}

#[test]
fn lowered_replies() {
    assert_eq!(answer_from_lowered("yes"), Some(true));
    assert_eq!(answer_from_lowered("n"), Some(false));
    assert_eq!(answer_from_lowered("Y"), None);
    assert_eq!(answer_from_lowered(""), None);
}
