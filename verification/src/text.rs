use vstd::prelude::*;

verus! {

/// ASCII lowering of a single character: 'A' through 'Z' move to their
/// lower-case counterparts, every other character is unchanged.
pub open spec fn spec_lower_char(c: char) -> char {
    if 'A' <= c && c <= 'Z' {
        ((c as u32) + 32) as char
    } else {
        c
    }
}

/// ASCII lowering of a character sequence, applied pointwise.
pub open spec fn spec_lower(s: Seq<char>) -> Seq<char> {
    s.map_values(|c: char| spec_lower_char(c))
}

/// ASCII lowering on the code point of a character.
fn lower_code(x: u32) -> (r: u32)
    ensures
        r == spec_lower_code(x),
{
    if 65 <= x && x <= 90 {
        x + 32
    } else {
        x
    }
}

/// ASCII lowering on a code point, the spec-level counterpart of `lower_code`.
spec fn spec_lower_code(x: u32) -> u32 {
    if 65 <= x && x <= 90 {
        (x + 32) as u32
    } else {
        x
    }
}

/// Lowering a character and lowering its code point agree.
proof fn lemma_lower_char_code(c: char)
    ensures
        spec_lower_char(c) as u32 == spec_lower_code(c as u32),
{
}

/// Two strings are equal up to ASCII case exactly when their lowered views are equal.
pub fn eq_ignore_ascii_case(a: &str, b: &str) -> (r: bool)
    ensures
        r == (spec_lower(a@) == spec_lower(b@)),
{
    let alen = a.unicode_len();
    let blen = b.unicode_len();
    if alen != blen {
        proof {
            assert(spec_lower(a@).len() != spec_lower(b@).len());
        }
        return false;
    }
    let mut i: usize = 0;
    while i < alen
        invariant
            0 <= i <= alen,
            alen == a@.len(),
            alen == b@.len(),
            forall|j: int| 0 <= j < i ==> spec_lower_char(a@[j]) == spec_lower_char(b@[j]),
        decreases alen - i,
    {
        let ca = a.get_char(i);
        let cb = b.get_char(i);
        if lower_code(ca as u32) != lower_code(cb as u32) {
            proof {
                lemma_lower_char_code(ca);
                lemma_lower_char_code(cb);
                assert(spec_lower(a@)[i as int] == spec_lower_char(a@[i as int]));
                assert(spec_lower(b@)[i as int] == spec_lower_char(b@[i as int]));
            }
            return false;
        }
        proof {
            lemma_lower_char_code(ca);
            lemma_lower_char_code(cb);
        }
        i += 1;
    }
    proof {
        assert(spec_lower(a@) =~= spec_lower(b@));
    }
    true
}

/// The normalized form of a flavor text. Line breaks (a bare `'\n'`, or
/// `"\r\n"` taken as one break) become single spaces, except that a break
/// at the very end of the text is dropped; every form-feed character
/// becomes a single space; all other characters are kept as they are.
pub open spec fn spec_normalized(s: Seq<char>) -> Seq<char>
    decreases s.len(),
{
    if s.len() == 0 {
        Seq::empty()
    } else if s[0] == '\r' && s.len() >= 2 && s[1] == '\n' {
        if s.len() == 2 {
            Seq::empty()
        } else {
            seq![' '] + spec_normalized(s.skip(2))
        }
    } else if s[0] == '\n' {
        if s.len() == 1 {
            Seq::empty()
        } else {
            seq![' '] + spec_normalized(s.skip(1))
        }
    } else if s[0] == '\x0c' {
        seq![' '] + spec_normalized(s.skip(1))
    } else {
        seq![s[0]] + spec_normalized(s.skip(1))
    }
}

/// A sequence beginning with a harmless character, followed by a tail free
/// of newlines and form feeds, is itself free of them.
proof fn lemma_cons_no_breaks(c: char, t: Seq<char>)
    requires
        c != '\n',
        c != '\x0c',
        forall|i: int| 0 <= i < t.len() ==> t[i] != '\n' && t[i] != '\x0c',
    ensures
        forall|i: int|
            0 <= i < (seq![c] + t).len() ==> (seq![c] + t)[i] != '\n' && (seq![c] + t)[i]
                != '\x0c',
{
    assert forall|i: int| 0 <= i < (seq![c] + t).len() implies (seq![c] + t)[i] != '\n' && (seq![c]
        + t)[i] != '\x0c' by {
        if i == 0 {
            assert((seq![c] + t)[0] == c);
        } else {
            assert((seq![c] + t)[i] == t[i - 1]);
        }
    }
}

/// Invariant of every normalized description: no newline and no form-feed
/// character remains in it.
pub proof fn lemma_normalized_no_breaks(s: Seq<char>)
    ensures
        forall|i: int|
            0 <= i < spec_normalized(s).len() ==> spec_normalized(s)[i] != '\n'
                && spec_normalized(s)[i] != '\x0c',
    decreases s.len(),
{
    if s.len() == 0 {
    } else if s[0] == '\r' && s.len() >= 2 && s[1] == '\n' {
        if s.len() > 2 {
            lemma_normalized_no_breaks(s.skip(2));
            lemma_cons_no_breaks(' ', spec_normalized(s.skip(2)));
        }
    } else if s[0] == '\n' {
        if s.len() > 1 {
            lemma_normalized_no_breaks(s.skip(1));
            lemma_cons_no_breaks(' ', spec_normalized(s.skip(1)));
        }
    } else if s[0] == '\x0c' {
        lemma_normalized_no_breaks(s.skip(1));
        lemma_cons_no_breaks(' ', spec_normalized(s.skip(1)));
    } else {
        lemma_normalized_no_breaks(s.skip(1));
        lemma_cons_no_breaks(s[0], spec_normalized(s.skip(1)));
    }
}

/// Collapses the line breaks and form feeds of a flavor text to single
/// spaces, as `spec_normalized` describes.
pub fn normalize_description(s: &str) -> (r: String)
    ensures
        r@ == spec_normalized(s@),
{
    let n = s.unicode_len();
    let mut out = String::new();
    proof {
        reveal_strlit(" ");
        assert(" "@ =~= seq![' ']);
        assert(s@.skip(0) =~= s@);
        assert(out@ + spec_normalized(s@) =~= spec_normalized(s@));
    }
    let mut i: usize = 0;
    while i < n
        invariant
            0 <= i <= n,
            n == s@.len(),
            " "@ =~= seq![' '],
            out@ + spec_normalized(s@.skip(i as int)) == spec_normalized(s@),
        decreases n - i,
    {
        let ghost rest = s@.skip(i as int);
        proof {
            assert(rest.len() == n - i);
            assert(rest[0] == s@[i as int]);
        }
        let c = s.get_char(i);
        if c == '\r' && i + 1 < n && s.get_char(i + 1) == '\n' {
            proof {
                assert(rest[1] == s@[i as int + 1]);
            }
            if i + 2 == n {
                proof {
                    assert(spec_normalized(rest) =~= Seq::<char>::empty());
                    assert(out@ + spec_normalized(rest) =~= out@);
                }
                i = n;
            } else {
                proof {
                    assert(rest.skip(2) =~= s@.skip(i as int + 2));
                    assert((out@ + seq![' ']) + spec_normalized(s@.skip(i as int + 2)) =~= out@
                        + (seq![' '] + spec_normalized(rest.skip(2))));
                }
                out.append(" ");
                i = i + 2;
            }
        } else if c == '\n' {
            if i + 1 == n {
                proof {
                    assert(spec_normalized(rest) =~= Seq::<char>::empty());
                    assert(out@ + spec_normalized(rest) =~= out@);
                }
                i = n;
            } else {
                proof {
                    assert(rest.skip(1) =~= s@.skip(i as int + 1));
                    assert((out@ + seq![' ']) + spec_normalized(s@.skip(i as int + 1)) =~= out@
                        + (seq![' '] + spec_normalized(rest.skip(1))));
                }
                out.append(" ");
                i = i + 1;
            }
        } else if c == '\x0c' {
            proof {
                assert(rest.skip(1) =~= s@.skip(i as int + 1));
                assert((out@ + seq![' ']) + spec_normalized(s@.skip(i as int + 1)) =~= out@ + (
                seq![' '] + spec_normalized(rest.skip(1))));
            }
            out.append(" ");
            i = i + 1;
        } else {
            proof {
                assert(rest.skip(1) =~= s@.skip(i as int + 1));
                assert(s@.subrange(i as int, i as int + 1) =~= seq![s@[i as int]]);
                assert((out@ + seq![s@[i as int]]) + spec_normalized(s@.skip(i as int + 1)) =~= out@
                    + (seq![s@[i as int]] + spec_normalized(rest.skip(1))));
            }
            out.append(s.substring_char(i, i + 1));
            i = i + 1;
        }
    }
    proof {
        assert(s@.skip(n as int) =~= Seq::<char>::empty());
        assert(out@ + spec_normalized(s@.skip(n as int)) =~= out@);
    }
    out
}

} // verus!
