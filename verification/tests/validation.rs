use vin_checksum::vin::Vin;

fn validated(raw: &str) -> Vin {
    let mut vin = Vin::new(raw);
    vin.validate();
    vin
}

#[test]
fn fresh_candidate_has_no_flag_set() {
    let vin = Vin::new("1HGCM82633A004352");
    assert_eq!(vin.full_vin(), "1HGCM82633A004352");
    assert!(!vin.length_valid());
    assert!(!vin.chars_valid());
    assert!(!vin.checksum_valid());
}

#[test]
fn known_good_vin_passes_every_test() {
    let vin = validated("1HGCM82633A004352");
    assert_eq!(vin.full_vin(), "1HGCM82633A004352");
    assert!(vin.length_valid());
    assert!(vin.chars_valid());
    assert!(vin.checksum_valid());
}

#[test]
fn changed_last_digit_breaks_the_checksum() {
    let vin = validated("1HGCM82633A004353");
    assert!(vin.length_valid());
    assert!(vin.chars_valid());
    assert!(!vin.checksum_valid());
}

#[test]
fn check_digit_x_stands_for_remainder_ten() {
    let vin = validated("1M8GDM9AXKP042788");
    assert!(vin.length_valid());
    assert!(vin.chars_valid());
    assert!(vin.checksum_valid());
}

#[test]
fn check_digit_x_is_wrong_for_another_remainder() {
    // The weighted sum of this candidate leaves the remainder 3, not 10.
    let vin = validated("1HGCM826X3A004352");
    assert!(!vin.checksum_valid());
}

#[test]
fn digit_is_wrong_where_the_remainder_is_ten() {
    let vin = validated("1M8GDM9A0KP042788");
    assert!(!vin.checksum_valid());
    let vin = validated("1M8GDM9A1KP042788");
    assert!(!vin.checksum_valid());
}

#[test]
fn letter_other_than_x_is_no_check_digit() {
    for digit in ["A", "Z", "I", "-", " ", "é"] {
        let raw = format!("1HGCM826{}3A004352", digit);
        let vin = validated(&raw);
        assert!(!vin.checksum_valid(), "{}", raw);
    }
}

#[test]
fn lower_case_is_folded_before_validation() {
    let vin = validated("1hgcm82633a004352");
    assert_eq!(vin.full_vin(), "1HGCM82633A004352");
    assert!(vin.length_valid());
    assert!(vin.chars_valid());
    assert!(vin.checksum_valid());

    let vin = validated("1m8gdm9axkp042788");
    assert_eq!(vin.full_vin(), "1M8GDM9AXKP042788");
    assert!(vin.checksum_valid());
}

#[test]
fn length_flag_is_set_for_seventeen_characters_only() {
    for n in 0..40usize {
        let raw = "7".repeat(n);
        let vin = validated(&raw);
        assert_eq!(vin.length_valid(), n == 17, "length {}", n);
    }
}

#[test]
fn length_counts_characters() {
    // Seventeen characters, one of them outside ASCII.
    let vin = validated("1HGCM82633A00435é");
    assert!(vin.length_valid());
    // Sixteen characters.
    let vin = validated("1HGCM82633A0043é");
    assert!(!vin.length_valid());
}

#[test]
fn excluded_letters_clear_the_character_flag() {
    for raw in [
        "I", "O", "Q", "i", "o", "q", "1HGCM82633A00435I", "O1HGCM82633A00435", "1HGCM826q3A004352",
        "IOQ", "   o   ",
    ] {
        let vin = validated(raw);
        assert!(!vin.chars_valid(), "{}", raw);
    }
}

#[test]
fn permitted_alphabet_sets_the_character_flag() {
    let vin = validated("0123456789ABCDEFGHJKLMNPRSTUVWXYZ");
    assert!(vin.chars_valid());
    let vin = validated("abcdefghjklmnprstuvwxyz");
    assert!(vin.chars_valid());
    let vin = validated("");
    assert!(vin.chars_valid());
}

#[test]
fn symbols_do_not_clear_the_character_flag() {
    let vin = validated("1HG-CM8 2633_A0!?");
    assert!(vin.chars_valid());
    assert!(vin.length_valid());
}

#[test]
fn flags_are_independent_of_one_another() {
    // Right length, excluded letter, consistent check digit: the excluded
    // letter counts for nothing in the sum, as the `0` in its place did.
    let vin = validated("1HGCM82633AO04352");
    assert!(vin.length_valid());
    assert!(!vin.chars_valid());
    assert!(vin.checksum_valid());

    // Wrong length, permitted letters, consistent check digit.
    let vin = validated("111111111");
    assert!(!vin.length_valid());
    assert!(vin.chars_valid());
    assert!(vin.checksum_valid());
}

#[test]
fn short_candidates_have_no_check_digit() {
    for n in 0..9usize {
        let raw = "0".repeat(n);
        let vin = validated(&raw);
        assert!(!vin.checksum_valid(), "length {}", n);
        assert!(!vin.length_valid());
        assert!(vin.chars_valid());
    }
    // With nine characters there is one, and here it is right: no weight
    // meets a value other than zero.
    let vin = validated("000000000");
    assert!(vin.checksum_valid());
}

#[test]
fn nine_ones_carry_their_own_check_digit() {
    // 8 + 7 + 6 + 5 + 4 + 3 + 2 + 10 + 0 = 45, and 45 leaves the remainder 1.
    let vin = validated("111111111");
    assert!(vin.checksum_valid());
    let vin = validated("111111112");
    assert!(!vin.checksum_valid());
}

#[test]
fn positions_past_the_seventeenth_weigh_nothing() {
    let vin = validated("1HGCM82633A004352ZZZ999");
    assert!(!vin.length_valid());
    assert!(vin.chars_valid());
    assert!(vin.checksum_valid());
}

#[test]
fn arbitrary_input_is_validated_without_failure() {
    let long = "Z9".repeat(5000);
    for raw in [
        "", " ", "\0", "\n\t\r", "X", "12345678", "!@#$%^&*()_+-=[]{}|;':,./<>?", "日本語のテキスト",
        "ßßßßßßßßßßßßßßßßß", "😀😀😀😀😀😀😀😀😀", "1HGCM82633A004352\n", long.as_str(),
    ] {
        let vin = validated(raw);
        assert_eq!(vin.length_valid(), raw.chars().count() == 17, "{:?}", raw);
    }
}

#[test]
fn unknown_characters_count_as_zero() {
    // The blank in the second position adds nothing, so the sum is that of
    // "10GCM82633A004352" and leaves 311 - 8 * 7 = 255, remainder 2.
    let vin = validated("1 GCM82623A004352");
    assert!(vin.checksum_valid());
    let vin = validated("10GCM82623A004352");
    assert!(vin.checksum_valid());
    let vin = validated("1 GCM82633A004352");
    assert!(!vin.checksum_valid());
}

#[test]
fn validating_twice_changes_nothing() {
    for raw in ["1HGCM82633A004352", "1HGCM82633A004353", "", "ioq", "1M8GDM9AXKP042788", "abc"] {
        let mut vin = Vin::new(raw);
        vin.validate();
        let text = vin.full_vin().to_string();
        let flags = (vin.length_valid(), vin.chars_valid(), vin.checksum_valid());
        vin.validate();
        assert_eq!(vin.full_vin(), text);
        assert_eq!((vin.length_valid(), vin.chars_valid(), vin.checksum_valid()), flags);
    }
}

#[test]
fn same_input_gives_same_outcome() {
    for raw in ["1HGCM82633A004352", "1HGCM82633A004353", "", "ioq", "1M8GDM9AXKP042788", "abc"] {
        assert_eq!(validated(raw), validated(raw));
    }
}

#[test]
fn checksum_alone_sets_only_its_own_flag() {
    let mut vin = Vin::new("1HGCM82633A004352");
    vin._checksum();
    assert!(vin.checksum_valid());
    assert!(!vin.length_valid());
    assert!(!vin.chars_valid());
    assert_eq!(vin.full_vin(), "1HGCM82633A004352");

    let mut vin = Vin::new("1HGCM82633A004353");
    vin._checksum();
    assert!(!vin.checksum_valid());

    let mut vin = Vin::new("12345678");
    vin._checksum();
    assert!(!vin.checksum_valid());
}

#[test]
fn single_substitution_is_caught_unless_the_value_is_the_same() {
    let good: Vec<char> = "1HGCM82633A004352".chars().collect();
    let replacements: Vec<char> = "0123456789ABCDEFGHJKLMNPRSTUVWXYZ".chars().collect();
    let value = |c: char| Vin::new(&c.to_string())._transliterate()[0];
    for i in 0..good.len() {
        for &c in &replacements {
            let mut changed = good.clone();
            changed[i] = c;
            let raw: String = changed.iter().collect();
            let vin = validated(&raw);
            let expected = if i == 8 { c == good[8] } else { value(c) == value(good[i]) };
            assert_eq!(vin.checksum_valid(), expected, "{}", raw);
        }
    }
}

#[test]
fn a_set_flag_is_true_of_the_candidate() {
    for raw in ["1HGCM82633A004352", "1hgcm82633a004353", "", "ioq", "111111111", "1M8GDM9AXKP042788"] {
        for validate_first in [false, true] {
            let mut vin = Vin::new(raw);
            if validate_first {
                vin.validate();
            } else {
                vin._checksum();
            }
            let text: Vec<char> = vin.full_vin().chars().collect();
            assert!(text.iter().all(|c| !c.is_ascii_lowercase()));
            if vin.length_valid() {
                assert_eq!(text.len(), 17);
            }
            if vin.chars_valid() {
                assert!(!text.contains(&'I') && !text.contains(&'O') && !text.contains(&'Q'));
            }
            if vin.checksum_valid() {
                assert!(text.len() >= 9);
            }
        }
    }
}
