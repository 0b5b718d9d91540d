use movie_store::ident::{clean_id, is_canonical_id};

#[test]
fn clean_id_strips_the_boundary_characters() {
    assert_eq!(clean_id(String::from("/abc123/")), "abc123");
}

#[test]
fn clean_id_strips_whatever_stands_at_the_ends() {
    assert_eq!(clean_id(String::from("abc123")), "bc12");
    assert_eq!(clean_id(String::from("\\x\\")), "x");
    assert_eq!(clean_id(String::from("//a//")), "/a/");
}

#[test]
fn clean_id_strips_one_character_not_one_byte() {
    assert_eq!(clean_id(String::from("\u{e9}12\u{1f3ac}")), "12");
    assert_eq!(clean_id(String::from("a\u{e9}\u{e9}b")), "\u{e9}\u{e9}");
}

#[test]
fn clean_id_of_a_short_segment_is_empty() {
    assert_eq!(clean_id(String::new()), "");
    assert_eq!(clean_id(String::from("a")), "");
    assert_eq!(clean_id(String::from("ab")), "");
    assert_eq!(clean_id(String::from("\u{e9}")), "");
}

#[test]
fn clean_id_of_three_characters_is_the_middle_one() {
    assert_eq!(clean_id(String::from("abc")), "b");
}

#[test]
fn clean_id_of_a_wrapped_identifier_is_the_identifier() {
    let id = "67e55044-10b1-426f-9247-bb680e5fe0c8";
    assert_eq!(clean_id(format!("/{}/", id)), id);
    assert_eq!(clean_id(format!("\"{}\"", id)), id);
}

#[test]
fn canonical_identifiers_are_accepted() {
    assert!(is_canonical_id("67e55044-10b1-426f-9247-bb680e5fe0c8"));
    assert!(is_canonical_id("00000000-0000-4000-8000-000000000000"));
    assert!(is_canonical_id("ffffffff-ffff-4fff-bfff-ffffffffffff"));
    assert!(is_canonical_id("936da01f-9abd-4d9d-a0c7-02af85c822a8"));
}

#[test]
fn strings_of_another_length_are_not_canonical() {
    assert!(!is_canonical_id(""));
    assert!(!is_canonical_id("a"));
    assert!(!is_canonical_id("67e55044-10b1-426f-9247-bb680e5fe0c"));
    assert!(!is_canonical_id("67e55044-10b1-426f-9247-bb680e5fe0c8a"));
    assert!(!is_canonical_id("67e5504410b1426f9247bb680e5fe0c8"));
    assert!(!is_canonical_id("{67e55044-10b1-426f-9247-bb680e5fe0c8}"));
}

#[test]
fn upper_case_digits_are_not_canonical() {
    assert!(!is_canonical_id("67E55044-10B1-426F-9247-BB680E5FE0C8"));
    assert!(!is_canonical_id("67e55044-10b1-426f-9247-bb680e5fe0C8"));
}

#[test]
fn misplaced_hyphens_are_not_canonical() {
    assert!(!is_canonical_id("67e5504-410b1-426f-9247-bb680e5fe0c8"));
    assert!(!is_canonical_id("67e55044010b1-426f-9247-bb680e5fe0c8"));
    assert!(!is_canonical_id("67e55044-10b1-426f-92470bb680e5fe0c8"));
    assert!(!is_canonical_id("67e55044-10b1-426f-9247-bb680e5f-0c8"));
}

#[test]
fn other_characters_are_not_canonical() {
    assert!(!is_canonical_id("67e55044-10b1-426f-9247-bb680e5fe0cg"));
    assert!(!is_canonical_id("g7e55044-10b1-426f-9247-bb680e5fe0c8"));
    assert!(!is_canonical_id("67e55044-10b1-426f-9247-bb680e5fe0c "));
    assert!(!is_canonical_id("67e55044-10b1-426f-9247-bb680e5fe0c\u{e9}"));
    assert!(!is_canonical_id("67e55044-10b1-426f-9247-bb680e5fe0c/"));
    assert!(!is_canonical_id("67e55044-10b1-426f-9247-bb680e5fe0c:"));
    assert!(!is_canonical_id("67e55044-10b1-426f-9247-bb680e5fe0c`"));
}

#[test]
fn other_versions_and_variants_are_not_canonical() {
    assert!(!is_canonical_id("67e55044-10b1-126f-9247-bb680e5fe0c8"));
    assert!(!is_canonical_id("67e55044-10b1-726f-9247-bb680e5fe0c8"));
    assert!(!is_canonical_id("67e55044-10b1-426f-7247-bb680e5fe0c8"));
    assert!(!is_canonical_id("67e55044-10b1-426f-c247-bb680e5fe0c8"));
    assert!(!is_canonical_id("00000000-0000-0000-0000-000000000000"));
}

#[test]
fn each_variant_digit_is_canonical() {
    assert!(is_canonical_id("67e55044-10b1-426f-8247-bb680e5fe0c8"));
    assert!(is_canonical_id("67e55044-10b1-426f-9247-bb680e5fe0c8"));
    assert!(is_canonical_id("67e55044-10b1-426f-a247-bb680e5fe0c8"));
    assert!(is_canonical_id("67e55044-10b1-426f-b247-bb680e5fe0c8"));
}
