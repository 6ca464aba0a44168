//! Turning a word into pig latin.
use vstd::prelude::*;

verus! {

pub open spec fn is_vowel(c: char) -> bool {
    c == 'a' || c == 'e' || c == 'i' || c == 'o' || c == 'u'
}

/// A word that starts with a vowel gets `-hay` appended; otherwise its first
/// character moves to the end, after a `-` and before `ay`. An empty word, or
/// one that starts with a space, gives the empty string.
pub open spec fn pig_latin(w: Seq<char>) -> Seq<char> {
    if w.len() == 0 || w[0] == ' ' {
        Seq::empty()
    } else if is_vowel(w[0]) {
        w + seq!['-', 'h', 'a', 'y']
    } else {
        w.drop_first() + seq!['-', w[0], 'a', 'y']
    }
}

pub fn pigize(word: &str) -> (r: String)
    ensures
        r@ == pig_latin(word@),
{
    let len = word.unicode_len();
    if len == 0 {
        return String::new();
    }
    let first_char = word.get_char(0);
    proof {
        reveal_strlit("-hay");
        reveal_strlit("-");
        reveal_strlit("ay");
    }
    if first_char == 'a' || first_char == 'e' || first_char == 'i' || first_char == 'o'
        || first_char == 'u' {
        let r = String::from_str(word).concat("-hay");
        assert(r@ =~= pig_latin(word@));
        r
    } else if first_char == ' ' {
        String::new()
    } else {
        let rest = word.substring_char(1, len);
        let first = word.substring_char(0, 1);
        let r = String::from_str(rest).concat("-").concat(first).concat("ay");
        assert(r@ =~= pig_latin(word@));
        r
    }
}

} // verus!
