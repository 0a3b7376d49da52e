//! Derivation of a resource's plural name from its singular name.
use vstd::prelude::*;

verus! {

/// The vowels that keep a trailing `y` (as in `day`).
pub open spec fn is_vowel(c: char) -> bool {
    c == 'a' || c == 'e' || c == 'i' || c == 'o' || c == 'u'
}

/// Words ending in `s`, `x`, `z`, `ch` or `sh` take `es`.
pub open spec fn takes_es(w: Seq<char>) -> bool {
    let n = w.len();
    (n >= 1 && (w[n - 1] == 's' || w[n - 1] == 'x' || w[n - 1] == 'z'))
        || (n >= 2 && w[n - 1] == 'h' && (w[n - 2] == 'c' || w[n - 2] == 's'))
}

/// Words ending in `y` after a consonant replace the `y` by `ies`.
pub open spec fn takes_ies(w: Seq<char>) -> bool {
    let n = w.len();
    n >= 2 && w[n - 1] == 'y' && !is_vowel(w[n - 2])
}

/// The plural of `w`: the first rule that applies, else a trailing `s`.
pub open spec fn plural_of(w: Seq<char>) -> Seq<char> {
    if takes_es(w) {
        w + seq!['e', 's']
    } else if takes_ies(w) {
        w.drop_last() + seq!['i', 'e', 's']
    } else {
        w.push('s')
    }
}

/// Plural of a lowercase singular name. Irregular plurals are not inferred:
/// callers that need one supply it themselves.
pub fn to_plural(word: &str) -> (r: String)
    ensures
        r@ == plural_of(word@),
{
    let n = word.unicode_len();
    let last: char = if n >= 1 { word.get_char(n - 1) } else { ' ' };
    let before: char = if n >= 2 { word.get_char(n - 2) } else { ' ' };
    if (n >= 1 && (last == 's' || last == 'x' || last == 'z'))
        || (n >= 2 && last == 'h' && (before == 'c' || before == 's'))
    {
        let mut r = String::from_str(word);
        r.append("es");
        proof {
            reveal_strlit("es");
        }
        return r;
    }
    if n >= 2 && last == 'y' && !(before == 'a' || before == 'e' || before == 'i' || before == 'o'
        || before == 'u') {
        let mut r = String::from_str(word.substring_char(0, n - 1));
        r.append("ies");
        proof {
            reveal_strlit("ies");
        }
        return r;
    }
    let mut r = String::from_str(word);
    r.append("s");
    proof {
        reveal_strlit("s");
        assert(r@ =~= word@.push('s'));
    }
    r
}

} // verus!
