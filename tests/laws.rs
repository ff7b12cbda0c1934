use left_pad::{codepoint_count, leftpad, leftpad_with};

#[test]
fn short_target_gives_input_back() {
    for s in ["", "a", "blübb", "čömbiñiñg märks"] {
        for len in 0..=codepoint_count(s) {
            assert_eq!(leftpad(s, len), s);
            assert_eq!(leftpad_with(s, len, '#'), s);
        }
    }
}

#[test]
fn long_target_reaches_exact_length() {
    for s in ["", "a", "blübb", "čömbiñiñg märks"] {
        for len in codepoint_count(s) + 1..codepoint_count(s) + 5 {
            assert_eq!(leftpad(s, len).chars().count(), len);
            assert_eq!(codepoint_count(&leftpad_with(s, len, '→')), len);
        }
    }
}

#[test]
fn input_is_byte_suffix() {
    for s in ["", "a", "blübb", "čömbiñiñg märks"] {
        for len in 0..20 {
            for c in [' ', '.', '→', '𝄞'] {
                let r = leftpad_with(s, len, c);
                assert!(r.as_bytes().ends_with(s.as_bytes()));
            }
        }
    }
}

#[test]
fn prefix_is_repeated_fill() {
    for s in ["", "a", "blübb", "čömbiñiñg märks"] {
        for len in 0..20 {
            for c in [' ', '.', '→', '𝄞'] {
                let r = leftpad_with(s, len, c);
                let prefix = &r[..r.len() - s.len()];
                let missing = len.saturating_sub(s.chars().count());
                assert_eq!(prefix, c.to_string().repeat(missing));
            }
        }
    }
}

#[test]
fn default_fill_is_space() {
    for s in ["", "a", "blübb", "čömbiñiñg märks"] {
        for len in 0..20 {
            assert_eq!(leftpad(s, len), leftpad_with(s, len, ' '));
        }
    }
    assert_eq!(leftpad("blübb", 7), leftpad_with("blübb", 7, ' '));
}
