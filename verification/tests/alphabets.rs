use digital_rain::alphabet::Alphabet;
use digital_rain::spawn::random_string;

const ALL: [Alphabet; 6] = [
    Alphabet::Numbers,
    Alphabet::Latin,
    Alphabet::Cyrillic,
    Alphabet::Japanese,
    Alphabet::Chinese,
    Alphabet::Greek,
];

#[test]
fn the_numbers_are_the_ten_digits() {
    assert_eq!(Alphabet::Numbers.characters(), "0123456789");
    assert_eq!(Alphabet::Numbers.size(), 10);
    for (index, digit) in ('0'..='9').enumerate() {
        assert_eq!(Alphabet::Numbers.character(index), digit);
    }
}

#[test]
fn the_latin_alphabet_is_upper_then_lower_case() {
    assert_eq!(
        Alphabet::Latin.characters(),
        "ABCDEFGHIJKLMNOPQRSTUVWXYZabcdefghijklmnopqrstuvwxyz"
    );
    assert_eq!(Alphabet::Latin.size(), 52);
    assert_eq!(Alphabet::Latin.character(0), 'A');
    assert_eq!(Alphabet::Latin.character(25), 'Z');
    assert_eq!(Alphabet::Latin.character(26), 'a');
    assert_eq!(Alphabet::Latin.character(51), 'z');
}

#[test]
fn sizes_count_characters_not_bytes() {
    assert_eq!(Alphabet::Cyrillic.size(), 64);
    assert_eq!(Alphabet::Japanese.size(), 92);
    assert_eq!(Alphabet::Chinese.size(), 95);
    assert_eq!(Alphabet::Greek.size(), 48);
    for alphabet in ALL {
        assert_eq!(alphabet.size(), alphabet.characters().chars().count());
    }
    assert_eq!(Alphabet::Cyrillic.characters().len(), 128);
    assert_eq!(Alphabet::Chinese.characters().len(), 285);
}

#[test]
fn no_character_comes_twice_in_an_alphabet() {
    for alphabet in ALL {
        let mut seen: Vec<char> = alphabet.characters().chars().collect();
        seen.sort();
        seen.dedup();
        assert_eq!(seen.len(), alphabet.size());
    }
}

#[test]
fn characters_are_found_by_their_index_in_characters() {
    assert_eq!(Alphabet::Cyrillic.character(0), 'А');
    assert_eq!(Alphabet::Cyrillic.character(63), 'я');
    assert_eq!(Alphabet::Japanese.character(0), 'あ');
    assert_eq!(Alphabet::Japanese.character(91), 'ン');
    assert_eq!(Alphabet::Chinese.character(0), '的');
    assert_eq!(Alphabet::Chinese.character(94), '当');
    assert_eq!(Alphabet::Greek.character(0), 'Α');
    assert_eq!(Alphabet::Greek.character(47), 'ω');
    for alphabet in ALL {
        for (index, glyph) in alphabet.characters().chars().enumerate() {
            assert_eq!(alphabet.character(index), glyph);
        }
    }
}

#[test]
fn membership_is_by_character() {
    assert!(Alphabet::Numbers.contains('0'));
    assert!(Alphabet::Numbers.contains('9'));
    assert!(!Alphabet::Numbers.contains('a'));
    assert!(!Alphabet::Numbers.contains('٣'));
    assert!(Alphabet::Latin.contains('q'));
    assert!(!Alphabet::Latin.contains('5'));
    assert!(Alphabet::Cyrillic.contains('Я'));
    assert!(!Alphabet::Cyrillic.contains('R'));
    assert!(Alphabet::Greek.contains('ω'));
    assert!(!Alphabet::Greek.contains('ς'));
    assert!(Alphabet::Japanese.contains('ア'));
    assert!(Alphabet::Chinese.contains('水'));
    // The first byte of a Cyrillic letter is no character of that alphabet.
    assert!(!Alphabet::Cyrillic.contains('\u{d0}'));
    for alphabet in ALL {
        for glyph in alphabet.characters().chars() {
            assert!(alphabet.contains(glyph));
        }
    }
}

#[test]
fn random_strings_have_the_length_asked_for() {
    for alphabet in ALL {
        for length in [0, 1, 5, 19, 200] {
            let text = random_string(length, alphabet);
            assert_eq!(text.chars().count(), length);
            assert!(text.chars().all(|glyph| alphabet.contains(glyph)));
        }
    }
}

#[test]
fn a_random_string_of_no_length_is_empty() {
    assert_eq!(random_string(0, Alphabet::Numbers), "");
}

#[test]
fn random_strings_draw_more_than_one_character() {
    for alphabet in ALL {
        let text = random_string(2000, alphabet);
        let mut seen: Vec<char> = text.chars().collect();
        seen.sort();
        seen.dedup();
        assert!(seen.len() > 1);
    }
}
