//! Identifier mapping between the relational naming convention
//! (lower-case words separated by underscores) and the remote API's
//! field-naming convention (camel case): every character following an
//! underscore is upper-cased and the underscores themselves are dropped.

use vstd::prelude::*;
use vstd::string::*;

verus! {

/// The upper-case form of an ASCII lower-case letter; any other
/// character is left unchanged.
pub open spec fn upper_char(c: char) -> char {
    if 'a' <= c && c <= 'z' {
        ((c as u8) - 32) as char
    } else {
        c
    }
}

pub open spec fn is_lower(c: char) -> bool {
    'a' <= c && c <= 'z'
}

/// The camel-case form of a relational name: underscores are dropped
/// and the character following a run of underscores is upper-cased.
pub open spec fn camel_of(s: Seq<char>) -> Seq<char>
    decreases s.len(),
{
    if s.len() == 0 {
        Seq::empty()
    } else if s[0] == '_' {
        camel_raise(s.skip(1))
    } else {
        seq![s[0]] + camel_of(s.skip(1))
    }
}

/// Continuation of `camel_of` after an underscore was seen: the next
/// character that is not itself an underscore is upper-cased.
pub open spec fn camel_raise(s: Seq<char>) -> Seq<char>
    decreases s.len(),
{
    if s.len() == 0 {
        Seq::empty()
    } else if s[0] == '_' {
        camel_raise(s.skip(1))
    } else {
        seq![upper_char(s[0])] + camel_of(s.skip(1))
    }
}

/// A name without underscores is already in the remote convention:
/// converting it changes nothing.
pub proof fn lemma_camel_no_underscore(s: Seq<char>)
    requires
        forall|i: int| 0 <= i < s.len() ==> s[i] != '_',
    ensures
        camel_of(s) == s,
    decreases s.len(),
{
    if s.len() == 0 {
        assert(camel_of(s) =~= s);
    } else {
        lemma_camel_no_underscore(s.skip(1));
        assert(camel_of(s) =~= s);
    }
}

/// Character-wise equality of two string slices.
pub fn str_eq(a: &str, b: &str) -> (r: bool)
    ensures
        r == (a@ == b@),
{
    let n = a.unicode_len();
    if n != b.unicode_len() {
        return false;
    }
    for i in 0..n
        invariant
            n == a@.len(),
            n == b@.len(),
            forall|j: int| 0 <= j < i ==> a@[j] == b@[j],
    {
        if a.get_char(i) != b.get_char(i) {
            return false;
        }
    }
    proof {
        assert(a@ =~= b@);
    }
    true
}

/// Appends the upper-case form of an ASCII lower-case letter.
fn push_upper(out: &mut String, c: char)
    requires
        is_lower(c),
    ensures
        final(out)@ == old(out)@ + seq![upper_char(c)],
{
    proof {
        reveal_strlit("A");
        reveal_strlit("B");
        reveal_strlit("C");
        reveal_strlit("D");
        reveal_strlit("E");
        reveal_strlit("F");
        reveal_strlit("G");
        reveal_strlit("H");
        reveal_strlit("I");
        reveal_strlit("J");
        reveal_strlit("K");
        reveal_strlit("L");
        reveal_strlit("M");
        reveal_strlit("N");
        reveal_strlit("O");
        reveal_strlit("P");
        reveal_strlit("Q");
        reveal_strlit("R");
        reveal_strlit("S");
        reveal_strlit("T");
        reveal_strlit("U");
        reveal_strlit("V");
        reveal_strlit("W");
        reveal_strlit("X");
        reveal_strlit("Y");
        reveal_strlit("Z");
    }
    match c {
        'a' => out.append("A"),
        'b' => out.append("B"),
        'c' => out.append("C"),
        'd' => out.append("D"),
        'e' => out.append("E"),
        'f' => out.append("F"),
        'g' => out.append("G"),
        'h' => out.append("H"),
        'i' => out.append("I"),
        'j' => out.append("J"),
        'k' => out.append("K"),
        'l' => out.append("L"),
        'm' => out.append("M"),
        'n' => out.append("N"),
        'o' => out.append("O"),
        'p' => out.append("P"),
        'q' => out.append("Q"),
        'r' => out.append("R"),
        's' => out.append("S"),
        't' => out.append("T"),
        'u' => out.append("U"),
        'v' => out.append("V"),
        'w' => out.append("W"),
        'x' => out.append("X"),
        'y' => out.append("Y"),
        'z' => out.append("Z"),
        _ => {
            proof {
                assert(false);
            }
        },
    }
}

/// Converts a relational column or field name to the remote field name.
pub fn to_remote_field(s: &str) -> (r: String)
    ensures
        r@ == camel_of(s@),
{
    let n = s.unicode_len();
    let mut out = String::new();
    let mut raise = false;
    proof {
        assert(s@.skip(0) =~= s@);
        assert(out@ + camel_of(s@) =~= camel_of(s@));
    }
    for i in 0..n
        invariant
            n == s@.len(),
            camel_of(s@) == out@ + (if raise {
                camel_raise(s@.skip(i as int))
            } else {
                camel_of(s@.skip(i as int))
            }),
    {
        let c = s.get_char(i);
        proof {
            assert(s@.skip(i as int)[0] == s@[i as int]);
            assert(s@.skip(i as int).skip(1) =~= s@.skip(i + 1));
        }
        if c == '_' {
            raise = true;
        } else if raise {
            if 'a' <= c && c <= 'z' {
                push_upper(&mut out, c);
            } else {
                let piece = s.substring_char(i, i + 1);
                proof {
                    assert(piece@ =~= seq![s@[i as int]]);
                    assert(upper_char(c) == c);
                }
                out.append(piece);
            }
            raise = false;
        } else {
            let piece = s.substring_char(i, i + 1);
            proof {
                assert(piece@ =~= seq![s@[i as int]]);
            }
            out.append(piece);
        }
    }
    proof {
        assert(s@.skip(n as int) =~= Seq::<char>::empty());
        assert(out@ =~= camel_of(s@));
    }
    out
}

} // verus!
