use model_merge::text::{
    chars_of, concat_text, contains_str, contains_sub, decimal_string, equals_str, find_sub,
    head_of, matches_here, parse_u64, push_chars, push_decimal, push_decimal_wide, push_signed,
    push_text, replace_sub, space_char, starts_with_str, str_byte_len, str_eq, string_of, tail_of,
    text_before, trim_chars,
};

fn c(s: &str) -> Vec<char> {
    s.chars().collect()
}

fn samples() -> Vec<&'static str> {
    vec![
        "", "a", "ab", "aba", "abab", "ababa", "aab", "baa", "b", "bb", "abc", "  a b  ", "\t\n",
        "model.layers.10.mlp", "blk.3.attn_q.weight", "é", "ée", "日本", "a\u{3000}", "\u{a0}x\u{2003}",
        "+12", "12", "012", "-1", "1 ", "18446744073709551615", "18446744073709551616", "+", "++1",
    ]
}

#[test]
fn strings_and_characters_convert_both_ways() {
    for s in samples() {
        assert_eq!(chars_of(s), c(s));
        assert_eq!(string_of(&c(s)), s);
        assert_eq!(str_byte_len(s), s.len());
    }
}

#[test]
fn equality_is_that_of_the_texts() {
    for a in samples() {
        for b in samples() {
            assert_eq!(str_eq(a, b), a == b);
            assert_eq!(equals_str(&c(a), b), a == b);
            assert_eq!(concat_text(a, b), format!("{}{}", a, b));
        }
    }
}

#[test]
fn searching_agrees_with_the_standard_library() {
    for hay in samples() {
        for needle in samples() {
            let found = hay.find(needle).map(|at| hay[..at].chars().count());
            assert_eq!(find_sub(&c(hay), &c(needle)), found, "{:?} in {:?}", needle, hay);
            assert_eq!(contains_sub(&c(hay), &c(needle)), hay.contains(needle));
            assert_eq!(contains_str(&c(hay), needle), hay.contains(needle));
            assert_eq!(starts_with_str(&c(hay), needle), hay.starts_with(needle));
        }
    }
}

#[test]
fn matching_at_a_place_looks_only_there() {
    let hay = c("abcabc");
    assert!(matches_here(&hay, &c("bc"), 1));
    assert!(!matches_here(&hay, &c("bc"), 2));
    assert!(matches_here(&hay, &c("bc"), 4));
    assert!(!matches_here(&hay, &c("bc"), 5));
    assert!(matches_here(&hay, &c(""), 6));
    assert!(!matches_here(&hay, &c(""), 7));
}

#[test]
fn replacing_agrees_with_the_standard_library() {
    for hay in samples() {
        for from in samples() {
            if from.is_empty() {
                continue;
            }
            for to in ["", "x", "ab", "experts.0.mlp"] {
                assert_eq!(
                    string_of(&replace_sub(&c(hay), &c(from), &c(to))),
                    hay.replace(from, to),
                    "{:?}: {:?} -> {:?}",
                    hay,
                    from,
                    to
                );
            }
        }
    }
}

#[test]
fn trimming_agrees_with_the_standard_library() {
    for s in samples() {
        assert_eq!(string_of(&trim_chars(&c(s))), s.trim());
    }
    assert_eq!(string_of(&trim_chars(&c(" \u{2028}\u{85} x y \u{1680}"))), "x y");
}

#[test]
fn white_space_is_that_of_the_standard_library() {
    for code in 0..=0x10FFFFu32 {
        if let Some(ch) = char::from_u32(code) {
            assert_eq!(space_char(ch), ch.is_whitespace(), "U+{:04X}", code);
        }
    }
}

#[test]
fn numbers_are_read_as_the_standard_library_reads_them() {
    for s in samples() {
        assert_eq!(parse_u64(&c(s)), s.parse::<u64>().ok(), "{:?}", s);
    }
    for s in ["0", "+0", "00000000000000000000000001", "99999999999999999999", "1a", "１"] {
        assert_eq!(parse_u64(&c(s)), s.parse::<u64>().ok(), "{:?}", s);
    }
}

#[test]
fn numbers_are_written_in_decimal() {
    for n in [0u64, 1, 9, 10, 99, 100, 4096, 1_000_000, u64::MAX - 1, u64::MAX] {
        assert_eq!(decimal_string(n), n.to_string());
        let mut out = c("n=");
        push_decimal(&mut out, n);
        assert_eq!(string_of(&out), format!("n={}", n));
    }
    for n in [0u128, 7, u64::MAX as u128 + 1, u128::MAX] {
        let mut out = Vec::new();
        push_decimal_wide(&mut out, n);
        assert_eq!(string_of(&out), n.to_string());
    }
    for v in [0i64, 1, -1, 42, -42, i64::MAX, i64::MIN, i64::MIN + 1] {
        let mut out = Vec::new();
        push_signed(&mut out, v);
        assert_eq!(string_of(&out), v.to_string());
    }
}

#[test]
fn texts_are_appended() {
    let mut out = c("a");
    push_text(&mut out, "bc");
    push_chars(&mut out, &c("dé"));
    push_text(&mut out, "");
    assert_eq!(string_of(&out), "abcdé");
}

#[test]
fn heads_and_tails_are_cut() {
    let v = c("tensor");
    assert_eq!(string_of(&head_of(&v, 0)), "");
    assert_eq!(string_of(&head_of(&v, 3)), "ten");
    assert_eq!(string_of(&head_of(&v, 6)), "tensor");
    assert_eq!(string_of(&tail_of(&v, 0)), "tensor");
    assert_eq!(string_of(&tail_of(&v, 3)), "sor");
    assert_eq!(string_of(&tail_of(&v, 6)), "");
}

#[test]
fn the_order_of_texts_is_that_of_strings() {
    for a in samples() {
        for b in samples() {
            assert_eq!(text_before(&c(a), &c(b)), a < b, "{:?} < {:?}", a, b);
        }
    }
}
