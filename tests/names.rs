use felfel::name::link_noun;
use felfel::text::{to_persian_digit, to_persian_digits};
use felfel::words::{adjective_word, noun_word, WordEntry, ADJECTIVES, ADJECTIVE_COUNT, NOUNS, NOUN_COUNT};
use felfel::{compose, gen, gen_id, generate, NameError};

const ZWNJ: char = '\u{200c}';

fn native_link(noun: &str) -> String {
    if noun.ends_with('ه') || noun.ends_with('و') {
        format!("{}{}ی", noun, ZWNJ)
    } else {
        noun.to_string()
    }
}

fn latin_link(noun: &str) -> String {
    if noun.ends_with('e') || noun.ends_with('i') || noun.ends_with('o') {
        format!("{}{}ye", noun, ZWNJ)
    } else {
        format!("{}e", noun)
    }
}

/// Whether `out` is some noun with its link, `delimiter`, and some adjective.
fn is_plain_name(out: &str, delimiter: char, use_latin: bool) -> bool {
    (0..NOUN_COUNT).map(noun_word).any(|n| {
        (0..ADJECTIVE_COUNT).map(adjective_word).any(|a| {
            let (noun, adjective) = if use_latin { (latin_link(n.latin), a.latin) } else { (native_link(n.native), a.native) };
            out == format!("{}{}{}", noun, delimiter, adjective)
        })
    })
}

#[test]
fn native_scenario_heh_final_noun() {
    assert_eq!(compose(0, 2, None, ' ', false), "جوجه\u{200c}ی هشیار");
}

#[test]
fn latin_scenario_with_suffix() {
    assert_eq!(compose(0, 2, Some(42), '-', true), "jooje\u{200c}ye-hoshyar-42");
}

#[test]
fn suffix_bound_one_is_degenerate() {
    assert_eq!(generate(1, '-', true), Err(NameError::DegenerateRange));
    assert_eq!(generate(1, ' ', false), Err(NameError::DegenerateRange));
}

#[test]
fn native_plain_names_are_table_words_without_digits() {
    for _ in 0..200 {
        let out = generate(0, ' ', false).unwrap();
        assert!(!out.chars().any(|c| c.is_ascii_digit()));
        assert!(is_plain_name(&out, ' ', false), "{}", out);
    }
    let out = gen();
    assert!(!out.chars().any(|c| c.is_ascii_digit()));
    assert!(is_plain_name(&out, ' ', false), "{}", out);
}

#[test]
fn native_digit_delimiter_becomes_persian_numeral() {
    let out = compose(10, 0, None, '7', false);
    assert_eq!(out, "فیل۷گریان");
}

#[test]
fn latin_plain_names_are_lowercase_words() {
    for _ in 0..200 {
        let out = generate(0, '_', true).unwrap();
        assert!(is_plain_name(&out, '_', true), "{}", out);
        let (noun, adjective) = out.split_once('_').unwrap();
        assert!(!adjective.is_empty() && adjective.chars().all(|c| c.is_ascii_lowercase()));
        let bare = noun.strip_suffix("\u{200c}ye").or_else(|| noun.strip_suffix('e')).unwrap();
        assert!(!bare.is_empty() && bare.chars().all(|c| c.is_ascii_lowercase()));
    }
}

#[test]
fn suffix_lies_in_range() {
    for _ in 0..300 {
        let out = generate(5, '-', true).unwrap();
        let n: u32 = out.rsplit('-').next().unwrap().parse().unwrap();
        assert!((1..5).contains(&n), "{}", out);
    }
    for _ in 0..300 {
        let out = generate(2, '-', true).unwrap();
        assert!(out.ends_with("-1"), "{}", out);
    }
}

#[test]
fn gen_id_suffix_below_ten_thousand() {
    for _ in 0..300 {
        let out = gen_id();
        let mut parts = out.split('-');
        let noun = parts.next().unwrap();
        let adjective = parts.next().unwrap();
        let n: u32 = parts.next().unwrap().parse().unwrap();
        assert!(parts.next().is_none());
        assert!((1..10000).contains(&n), "{}", out);
        assert!(is_plain_name(&format!("{}-{}", noun, adjective), '-', true), "{}", out);
    }
}

#[test]
fn native_suffix_is_written_in_persian_numerals() {
    assert_eq!(compose(4, 1, Some(1234567890), ' ', false), "حلزون خندان ۱۲۳۴۵۶۷۸۹۰");
    for _ in 0..200 {
        let out = generate(10000, ' ', false).unwrap();
        assert!(!out.chars().any(|c| c.is_ascii_digit()), "{}", out);
        let last = out.rsplit(' ').next().unwrap();
        assert!(!last.is_empty() && last.chars().all(|c| ('۰'..='۹').contains(&c)), "{}", out);
    }
}

#[test]
fn same_draws_give_same_name() {
    for noun in 0..NOUN_COUNT {
        for adjective in [0, ADJECTIVE_COUNT - 1] {
            for use_latin in [false, true] {
                let first = compose(noun, adjective, Some(9999), '-', use_latin);
                let second = compose(noun, adjective, Some(9999), '-', use_latin);
                assert_eq!(first, second);
            }
        }
    }
}

#[test]
fn latin_link_after_consonant_is_e() {
    assert_eq!(compose(4, 1, None, ' ', true), "halazoone khandan");
    assert_eq!(compose(4, 1, None, ' ', false), "حلزون خندان");
}

#[test]
fn links_after_vav_and_final_i() {
    assert_eq!(compose(9, 0, None, ' ', false), "آهو\u{200c}ی گریان");
    assert_eq!(compose(9, 0, None, ' ', true), "ahoo\u{200c}ye geryan");
    assert_eq!(compose(7, 0, None, ' ', true), "tooti\u{200c}ye geryan");
    assert_eq!(compose(7, 0, None, ' ', false), "طوطی گریان");
}

#[test]
fn last_entries_of_both_tables() {
    assert_eq!(compose(NOUN_COUNT - 1, ADJECTIVE_COUNT - 1, Some(1), '~', true), "nabeghe\u{200c}ye~bazigoosh~1");
    assert_eq!(compose(NOUN_COUNT - 1, ADJECTIVE_COUNT - 1, Some(1), '~', false), "نابغه\u{200c}ی~بازیگوش~۱");
}

#[test]
fn largest_suffix_bound() {
    for _ in 0..100 {
        let out = generate(u32::MAX, '-', true).unwrap();
        let n: u64 = out.rsplit('-').next().unwrap().parse().unwrap();
        assert!(n >= 1 && n < u32::MAX as u64, "{}", out);
    }
    assert_eq!(compose(0, 0, Some(u32::MAX), '-', true), "jooje\u{200c}ye-geryan-4294967295");
}

#[test]
fn link_noun_of_empty_word() {
    assert_eq!(link_noun("", true), "e");
    assert_eq!(link_noun("", false), "");
    assert_eq!(link_noun("sag", true), "sage");
    assert_eq!(link_noun("گربه", false), "گربه\u{200c}ی");
}

#[test]
fn persian_digit_mapping() {
    assert_eq!(to_persian_digits("a0123456789 z"), "a۰۱۲۳۴۵۶۷۸۹ z");
    assert_eq!(to_persian_digits(""), "");
    assert_eq!(to_persian_digit('5'), '۵');
    assert_eq!(to_persian_digit('x'), 'x');
}

#[test]
fn word_accessors_pair_the_scripts() {
    let first = noun_word(0);
    assert_eq!((first.native, first.latin), ("جوجه", "jooje"));
    let third = adjective_word(2);
    assert_eq!((third.native, third.latin), ("هشیار", "hoshyar"));
}

#[test]
fn tables_are_well_formed() {
    assert_eq!(NOUNS.len(), NOUN_COUNT);
    assert_eq!(ADJECTIVES.len(), ADJECTIVE_COUNT);
    let entries: Vec<WordEntry> =
        (0..NOUN_COUNT).map(noun_word).chain((0..ADJECTIVE_COUNT).map(adjective_word)).collect();
    for entry in entries {
        let (native, latin) = (entry.native, entry.latin);
        assert!(!native.is_empty() && !native.chars().any(|c| c.is_ascii_digit()));
        assert!(!latin.is_empty() && latin.chars().all(|c| c.is_ascii_lowercase()));
    }
}
