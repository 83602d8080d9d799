//! The alphabets of the rain and the characters that each one offers.

use vstd::prelude::*;
use crate::text::{join3, same_text};

verus! {

/// A script from which the characters of falling strings are drawn.
#[derive(Clone, Copy, Debug, PartialEq, Eq, Structural)]
pub enum Alphabet {
    Numbers,
    Latin,
    Cyrillic,
    Japanese,
    Chinese,
    Greek,
}

pub const NUMBERS: &'static str = "0123456789";

pub const LATIN: &'static str = "ABCDEFGHIJKLMNOPQRSTUVWXYZabcdefghijklmnopqrstuvwxyz";

pub const CYRILLIC: &'static str =
    "АБВГДЕЖЗИЙКЛМНОПРСТУФХЦЧШЩЪЫЬЭЮЯабвгдежзийклмнопрстуфхцчшщъыьэюя";

pub const JAPANESE: &'static str =
    "あいうえおかきくけこさしすせそたちつてとなにぬねのはひふへほまみむめもやゆよらりるれろわをんアイウエオカキクケコサシスセソタチツテトナニヌネノハヒフヘホマミムメモヤユヨラリルレロワヲン";

pub const CHINESE: &'static str =
    "的一是在不了有和人这中大为上个国我以要他时来用们生到作地于出就分对成会可主发年动同工也能下过子说产种面而方后多定行学法所民得经十三之进着等部度家电力里如水化高自二理起小物现实加量都两体制机当";

pub const GREEK: &'static str = "ΑΒΓΔΕΖΗΘΙΚΛΜΝΞΟΠΡΣΤΥΦΧΨΩαβγδεζηθικλμνξοπρστυφχψω";

/// The characters of an alphabet, in their fixed order. An element is a
/// character, whatever the number of bytes that encode it.
pub open spec fn charset(alphabet: Alphabet) -> Seq<char> {
    match alphabet {
        Alphabet::Numbers => NUMBERS@,
        Alphabet::Latin => LATIN@,
        Alphabet::Cyrillic => CYRILLIC@,
        Alphabet::Japanese => JAPANESE@,
        Alphabet::Chinese => CHINESE@,
        Alphabet::Greek => GREEK@,
    }
}

/// The alphabet that a word names, if it names one.
pub open spec fn alphabet_named(word: Seq<char>) -> Option<Alphabet> {
    if word == "numbers"@ {
        Some(Alphabet::Numbers)
    } else if word == "latin"@ {
        Some(Alphabet::Latin)
    } else if word == "cyrillic"@ {
        Some(Alphabet::Cyrillic)
    } else if word == "japanese"@ {
        Some(Alphabet::Japanese)
    } else if word == "chinese"@ {
        Some(Alphabet::Chinese)
    } else if word == "greek"@ {
        Some(Alphabet::Greek)
    } else {
        None
    }
}

/// The message that rejects `word` as an alphabet.
pub open spec fn unknown_alphabet_message(word: Seq<char>) -> Seq<char> {
    "Error : unknown alphabet '"@ + word
        + "'. Valid alphabets : 'numbers', 'latin', 'cyrillic', 'japanese', 'chinese', 'greek' "@
}

impl Alphabet {
    /// Reads an alphabet from its lower-case name. Any other word is
    /// rejected with a message that quotes it.
    pub fn from_str(s: &str) -> (parsed: Result<Alphabet, String>)
        ensures
            match parsed {
                Ok(alphabet) => alphabet_named(s@) == Some(alphabet),
                Err(message) => alphabet_named(s@).is_none()
                    && message@ == unknown_alphabet_message(s@),
            },
    {
        if same_text(s, "numbers") {
            Ok(Alphabet::Numbers)
        } else if same_text(s, "latin") {
            Ok(Alphabet::Latin)
        } else if same_text(s, "cyrillic") {
            Ok(Alphabet::Cyrillic)
        } else if same_text(s, "japanese") {
            Ok(Alphabet::Japanese)
        } else if same_text(s, "chinese") {
            Ok(Alphabet::Chinese)
        } else if same_text(s, "greek") {
            Ok(Alphabet::Greek)
        } else {
            Err(
                join3(
                    "Error : unknown alphabet '",
                    s,
                    "'. Valid alphabets : 'numbers', 'latin', 'cyrillic', 'japanese', 'chinese', 'greek' ",
                ),
            )
        }
    }

    /// The characters of this alphabet as one string.
    pub fn characters(&self) -> (text: &'static str)
        ensures
            text@ == charset(*self),
    {
        match self {
            Alphabet::Numbers => NUMBERS,
            Alphabet::Latin => LATIN,
            Alphabet::Cyrillic => CYRILLIC,
            Alphabet::Japanese => JAPANESE,
            Alphabet::Chinese => CHINESE,
            Alphabet::Greek => GREEK,
        }
    }

    /// Number of characters that this alphabet offers.
    pub fn size(&self) -> (count: usize)
        ensures
            count == charset(*self).len(),
            count == charset_size(*self),
            count > 0,
    {
        proof {
            lemma_charset_sizes(*self);
        }
        match self {
            Alphabet::Numbers => 10,
            Alphabet::Latin => 52,
            Alphabet::Cyrillic => 64,
            Alphabet::Japanese => 92,
            Alphabet::Chinese => 95,
            Alphabet::Greek => 48,
        }
    }

    /// The character with the given index, counted in characters.
    pub fn character(&self, index: usize) -> (glyph: char)
        requires
            index < charset(*self).len(),
        ensures
            glyph == charset(*self)[index as int],
    {
        self.characters().get_char(index)
    }

    /// Whether `glyph` is one of the characters of this alphabet.
    pub fn contains(&self, glyph: char) -> (found: bool)
        ensures
            found == charset(*self).contains(glyph),
    {
        let text = self.characters();
        let count = self.size();
        let mut index: usize = 0;
        while index < count
            invariant
                index <= count,
                count == text@.len(),
                text@ == charset(*self),
                forall|k: int| 0 <= k < index ==> text@[k] != glyph,
            decreases count - index,
        {
            if text.get_char(index) == glyph {
                return true;
            }
            index += 1;
        }
        false
    }
}

/// Number of characters in each alphabet.
pub open spec fn charset_size(alphabet: Alphabet) -> nat {
    match alphabet {
        Alphabet::Numbers => 10,
        Alphabet::Latin => 52,
        Alphabet::Cyrillic => 64,
        Alphabet::Japanese => 92,
        Alphabet::Chinese => 95,
        Alphabet::Greek => 48,
    }
}

/// The size of an alphabet is its number of characters, not the number of
/// bytes that encode them.
pub proof fn lemma_charset_sizes(alphabet: Alphabet)
    ensures
        charset(alphabet).len() == charset_size(alphabet),
{
    reveal_strlit("0123456789");
    reveal_strlit("ABCDEFGHIJKLMNOPQRSTUVWXYZabcdefghijklmnopqrstuvwxyz");
    reveal_strlit(
        "АБВГДЕЖЗИЙКЛМНОПРСТУФХЦЧШЩЪЫЬЭЮЯабвгдежзийклмнопрстуфхцчшщъыьэюя",
    );
    reveal_strlit(
        "あいうえおかきくけこさしすせそたちつてとなにぬねのはひふへほまみむめもやゆよらりるれろわをんアイウエオカキクケコサシスセソタチツテトナニヌネノハヒフヘホマミムメモヤユヨラリルレロワヲン",
    );
    reveal_strlit(
        "的一是在不了有和人这中大为上个国我以要他时来用们生到作地于出就分对成会可主发年动同工也能下过子说产种面而方后多定行学法所民得经十三之进着等部度家电力里如水化高自二理起小物现实加量都两体制机当",
    );
    reveal_strlit("ΑΒΓΔΕΖΗΘΙΚΛΜΝΞΟΠΡΣΤΥΦΧΨΩαβγδεζηθικλμνξοπρστυφχψω");
}

/// The numbers are the ten decimal digits in rising order, each once.
pub proof fn lemma_numbers_are_the_digits()
    ensures
        charset(Alphabet::Numbers).len() == 10,
        forall|i: int| 0 <= i < 10 ==> #[trigger] charset(Alphabet::Numbers)[i] as int == '0' as int + i,
        charset(Alphabet::Numbers).no_duplicates(),
{
    reveal_strlit("0123456789");
    let digits = charset(Alphabet::Numbers);
    assert(digits[0] == '0' && digits[1] == '1' && digits[2] == '2' && digits[3] == '3');
    assert(digits[4] == '4' && digits[5] == '5' && digits[6] == '6' && digits[7] == '7');
    assert(digits[8] == '8' && digits[9] == '9');
}

/// The Latin alphabet is `A` to `Z` and then `a` to `z`, each letter once.
pub proof fn lemma_latin_is_upper_then_lower()
    ensures
        charset(Alphabet::Latin).len() == 52,
        forall|i: int| 0 <= i < 26 ==> #[trigger] charset(Alphabet::Latin)[i] as int == 'A' as int + i,
        forall|i: int|
            26 <= i < 52 ==> #[trigger] charset(Alphabet::Latin)[i] as int == 'a' as int + i - 26,
        charset(Alphabet::Latin).no_duplicates(),
{
    reveal_strlit("ABCDEFGHIJKLMNOPQRSTUVWXYZabcdefghijklmnopqrstuvwxyz");
    let letters = charset(Alphabet::Latin);
    assert(letters[0] == 'A' && letters[1] == 'B' && letters[2] == 'C' && letters[3] == 'D');
    assert(letters[4] == 'E' && letters[5] == 'F' && letters[6] == 'G' && letters[7] == 'H');
    assert(letters[8] == 'I' && letters[9] == 'J' && letters[10] == 'K' && letters[11] == 'L');
    assert(letters[12] == 'M' && letters[13] == 'N' && letters[14] == 'O' && letters[15] == 'P');
    assert(letters[16] == 'Q' && letters[17] == 'R' && letters[18] == 'S' && letters[19] == 'T');
    assert(letters[20] == 'U' && letters[21] == 'V' && letters[22] == 'W' && letters[23] == 'X');
    assert(letters[24] == 'Y' && letters[25] == 'Z' && letters[26] == 'a' && letters[27] == 'b');
    assert(letters[28] == 'c' && letters[29] == 'd' && letters[30] == 'e' && letters[31] == 'f');
    assert(letters[32] == 'g' && letters[33] == 'h' && letters[34] == 'i' && letters[35] == 'j');
    assert(letters[36] == 'k' && letters[37] == 'l' && letters[38] == 'm' && letters[39] == 'n');
    assert(letters[40] == 'o' && letters[41] == 'p' && letters[42] == 'q' && letters[43] == 'r');
    assert(letters[44] == 's' && letters[45] == 't' && letters[46] == 'u' && letters[47] == 'v');
    assert(letters[48] == 'w' && letters[49] == 'x' && letters[50] == 'y' && letters[51] == 'z');
}

} // verus!
