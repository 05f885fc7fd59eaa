use fios_stats::hash::{compute_hash, password_body};

#[test]
fn hash_is_deterministic() {
    let a = compute_hash("hunter2", "0123abc");
    let b = compute_hash("hunter2", "0123abc");
    assert_eq!(a, b);
}

#[test]
fn hash_is_128_lower_hex() {
    let h = compute_hash("some password", "some salt");
    assert_eq!(h.len(), 128);
    assert!(h.chars().all(|c| c.is_ascii_hexdigit() && !c.is_ascii_uppercase()));
}

#[test]
fn hash_known_vector() {
    assert_eq!(
        compute_hash("abc", "salt"),
        "52ec0a549dec545743badc4847acd115fa81f4e6918d8a613b9a605f068b750aaa41b6589f647548304f679aaec31018b6bcad5368932d6b6135a8e392ca0464"
    );
}

#[test]
fn hash_of_empty_password_and_salt() {
    assert_eq!(
        compute_hash("", ""),
        "cf83e1357eefb8bdf1542850d66d8007d620e4050b5715dc83f4a921d36ce9ce47d0d13c5d85f2b0ff8318d2877eec2f63b931bd47417a81a538327af927da3e"
    );
}

#[test]
fn hash_depends_only_on_concatenation() {
    assert_eq!(compute_hash("abc", "salt"), compute_hash("abcsa", "lt"));
    assert_eq!(compute_hash("abc", "salt"), compute_hash("", "abcsalt"));
}

#[test]
fn hash_changes_with_salt() {
    assert_ne!(compute_hash("abc", "salt"), compute_hash("abc", "pepper"));
}

#[test]
fn password_body_shape() {
    assert_eq!(password_body("deadbeef"), "{\"password\":\"deadbeef\"}");
}
