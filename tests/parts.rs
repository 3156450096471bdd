use haikunator::name::{join_non_empty, token_from_picks};
use haikunator::{Haikunator, DEFAULT_ADJECTIVES, DEFAULT_NOUNS, HEX_CHARS};

#[test]
fn picks_give_exact_name() {
    let h = Haikunator {
        adjectives: &["ab", "ef"],
        nouns: &["cd"],
        delimiter: "-",
        token_length: 2,
        token_hex: false,
        token_chars: "xy",
    };
    assert_eq!(h.haikunate_with(0, 0, &vec![1, 0]), "ab-cd-yx");
    assert_eq!(h.haikunate_with(1, 0, &vec![0, 0]), "ef-cd-xx");
}

#[test]
fn picks_with_hex_ignore_token_chars() {
    let h = Haikunator {
        adjectives: &["old"],
        nouns: &["tree"],
        delimiter: "_",
        token_length: 3,
        token_hex: true,
        token_chars: "xyz",
    };
    assert_eq!(h.token_alphabet(), HEX_CHARS);
    assert_eq!(h.haikunate_with(0, 0, &vec![15, 10, 0]), "old_tree_fa0");
}

#[test]
fn token_counts_characters_not_bytes() {
    assert_eq!(token_from_picks("忠犬ハチ公", &vec![4, 0, 2]), "公忠ハ");
    assert_eq!(token_from_picks("忠犬ハチ公", &vec![]), "");
}

#[test]
fn join_skips_empty_parts() {
    assert_eq!(join_non_empty(&vec!["a", "", "c"], "--"), "a--c");
    assert_eq!(join_non_empty(&vec!["", "b", ""], "-"), "b");
    assert_eq!(join_non_empty(&vec!["", "", ""], "-"), "");
    assert_eq!(join_non_empty(&vec!["a", "b", "c"], ""), "abc");
}

#[test]
fn empty_parts_give_empty_name() {
    let h = Haikunator {
        adjectives: &[],
        nouns: &[],
        delimiter: "-",
        token_length: 0,
        token_hex: false,
        token_chars: "0123456789",
    };
    assert_eq!(h.haikunate(), "");
}

#[test]
fn empty_alphabet_drops_token() {
    let h = Haikunator {
        adjectives: &["calm"],
        nouns: &["lake"],
        delimiter: "-",
        token_length: 5,
        token_hex: false,
        token_chars: "",
    };
    assert_eq!(h.haikunate(), "calm-lake");
}

#[test]
fn only_token_has_no_delimiter() {
    let h = Haikunator {
        adjectives: &[],
        nouns: &[],
        delimiter: "-",
        token_length: 3,
        token_hex: false,
        token_chars: "7",
    };
    assert_eq!(h.haikunate(), "777");
}

#[test]
fn single_word_pools_are_picked() {
    let h = Haikunator {
        adjectives: &["solo"],
        nouns: &["one"],
        delimiter: "+",
        token_length: 2,
        token_hex: false,
        token_chars: "z",
    };
    for _ in 0..20 {
        assert_eq!(h.haikunate(), "solo+one+zz");
    }
}

#[test]
fn picks_stay_in_small_pools() {
    let h = Haikunator {
        adjectives: &["flying", "bubbly"],
        nouns: &["bat", "soda"],
        delimiter: "-",
        token_length: 4,
        token_hex: false,
        token_chars: "123",
    };
    for _ in 0..100 {
        let name = h.haikunate();
        let parts: Vec<&str> = name.split('-').collect();
        assert_eq!(parts.len(), 3);
        assert!(parts[0] == "flying" || parts[0] == "bubbly");
        assert!(parts[1] == "bat" || parts[1] == "soda");
        assert_eq!(parts[2].chars().count(), 4);
        assert!(parts[2].chars().all(|c| "123".contains(c)));
    }
}

#[test]
fn default_settings() {
    let h = Haikunator::default();
    assert_eq!(h.delimiter, "-");
    assert_eq!(h.token_length, 4);
    assert!(!h.token_hex);
    assert_eq!(h.token_chars, "0123456789");
    assert_eq!(h.adjectives.len(), DEFAULT_ADJECTIVES.len());
    assert_eq!(h.nouns.len(), DEFAULT_NOUNS.len());
}

#[test]
fn default_name_uses_default_words() {
    let h = Haikunator::default();
    for _ in 0..100 {
        let name = h.haikunate();
        let parts: Vec<&str> = name.split('-').collect();
        assert_eq!(parts.len(), 3);
        assert!(DEFAULT_ADJECTIVES.contains(&parts[0]));
        assert!(DEFAULT_NOUNS.contains(&parts[1]));
        assert_eq!(parts[2].len(), 4);
        assert!(parts[2].chars().all(|c| c.is_ascii_digit()));
    }
}

#[test]
fn default_words_are_non_empty_lowercase() {
    for w in DEFAULT_ADJECTIVES.iter().chain(DEFAULT_NOUNS.iter()) {
        assert!(!w.is_empty());
        assert!(w.chars().all(|c| c.is_ascii_lowercase()));
    }
}
