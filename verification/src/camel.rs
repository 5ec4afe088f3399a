use vstd::prelude::*;

verus! {

/// The ASCII upper-case form of a character: letters `'a'` to `'z'` map to
/// `'A'` to `'Z'`; every other character is unchanged.
pub open spec fn upper_char(c: char) -> char {
    match c {
        'a' => 'A',
        'b' => 'B',
        'c' => 'C',
        'd' => 'D',
        'e' => 'E',
        'f' => 'F',
        'g' => 'G',
        'h' => 'H',
        'i' => 'I',
        'j' => 'J',
        'k' => 'K',
        'l' => 'L',
        'm' => 'M',
        'n' => 'N',
        'o' => 'O',
        'p' => 'P',
        'q' => 'Q',
        'r' => 'R',
        's' => 'S',
        't' => 'T',
        'u' => 'U',
        'v' => 'V',
        'w' => 'W',
        'x' => 'X',
        'y' => 'Y',
        'z' => 'Z',
        _ => c,
    }
}

/// Camel-case conversion with a pending-separator flag: a separator (`'_'`)
/// is removed and makes the next character upper-cased; all other characters
/// pass through unchanged.
pub open spec fn camel_rec(s: Seq<char>, up: bool) -> Seq<char>
    decreases s.len(),
{
    if s.len() == 0 {
        Seq::empty()
    } else if s[0] == '_' {
        camel_rec(s.drop_first(), true)
    } else if up {
        seq![upper_char(s[0])] + camel_rec(s.drop_first(), false)
    } else {
        seq![s[0]] + camel_rec(s.drop_first(), false)
    }
}

/// The camel-case form of an identifier, e.g. of `sub_account_number`.
pub open spec fn camel_case_of(s: Seq<char>) -> Seq<char> {
    camel_rec(s, false)
}

fn to_upper(c: char) -> (r: char)
    ensures
        r == upper_char(c),
{
    match c {
        'a' => 'A',
        'b' => 'B',
        'c' => 'C',
        'd' => 'D',
        'e' => 'E',
        'f' => 'F',
        'g' => 'G',
        'h' => 'H',
        'i' => 'I',
        'j' => 'J',
        'k' => 'K',
        'l' => 'L',
        'm' => 'M',
        'n' => 'N',
        'o' => 'O',
        'p' => 'P',
        'q' => 'Q',
        'r' => 'R',
        's' => 'S',
        't' => 'T',
        'u' => 'U',
        'v' => 'V',
        'w' => 'W',
        'x' => 'X',
        'y' => 'Y',
        'z' => 'Z',
        _ => c,
    }
}

/// Relies on `String::push`: appends the given character at the end.
#[verifier::external_body]
fn push_char(s: &mut String, c: char)
    ensures
        final(s)@ == old(s)@.push(c),
{
    s.push(c)
}

/// Convert an identifier to its camel-case form, as used for wire-level
/// query-parameter names. Pure and total; no failure mode.
pub fn to_camel_case(s: &str) -> (r: String)
    ensures
        r@ == camel_case_of(s@),
{
    let n: usize = s.unicode_len();
    let mut out = String::new();
    let mut up = false;
    let mut i: usize = 0;
    proof {
        assert(s@.skip(0) =~= s@);
        assert(out@ + camel_rec(s@.skip(0), false) =~= camel_rec(s@, false));
    }
    while i < n
        invariant
            i <= n,
            n == s@.len(),
            camel_case_of(s@) == out@ + camel_rec(s@.skip(i as int), up),
        decreases n - i,
    {
        let c = s.get_char(i);
        proof {
            assert(s@.skip(i as int).len() > 0);
            assert(s@.skip(i as int)[0] == s@[i as int]);
            assert(s@.skip(i as int).drop_first() =~= s@.skip(i as int + 1));
        }
        if c == '_' {
            proof {
                assert(out@ + camel_rec(s@.skip(i as int), up)
                    == out@ + camel_rec(s@.skip(i as int + 1), true));
            }
            up = true;
        } else if up {
            let ghost old_out = out@;
            push_char(&mut out, to_upper(c));
            up = false;
            proof {
                assert(out@ + camel_rec(s@.skip(i as int + 1), false)
                    =~= old_out + camel_rec(s@.skip(i as int), true));
            }
        } else {
            let ghost old_out = out@;
            push_char(&mut out, c);
            proof {
                assert(out@ + camel_rec(s@.skip(i as int + 1), false)
                    =~= old_out + camel_rec(s@.skip(i as int), false));
            }
        }
        i = i + 1;
    }
    proof {
        assert(s@.skip(n as int) =~= Seq::<char>::empty());
        assert(out@ + camel_rec(s@.skip(n as int), up) =~= out@);
    }
    out
}

proof fn lemma_camel_rec_no_separator(s: Seq<char>, up: bool)
    ensures
        forall|i: int| 0 <= i < camel_rec(s, up).len() ==> camel_rec(s, up)[i] != '_',
    decreases s.len(),
{
    if s.len() == 0 {
    } else if s[0] == '_' {
        lemma_camel_rec_no_separator(s.drop_first(), true);
        assert(camel_rec(s, up) == camel_rec(s.drop_first(), true));
        assert forall|i: int| 0 <= i < camel_rec(s, up).len() implies camel_rec(s, up)[i]
            != '_' by {
            assert(camel_rec(s, up)[i] == camel_rec(s.drop_first(), true)[i]);
        }
    } else {
        lemma_camel_rec_no_separator(s.drop_first(), false);
        let head = if up {
            upper_char(s[0])
        } else {
            s[0]
        };
        let rest = camel_rec(s.drop_first(), false);
        assert(camel_rec(s, up) == seq![head] + rest);
        assert(upper_char(s[0]) != '_');
        assert forall|i: int| 0 <= i < camel_rec(s, up).len() implies camel_rec(s, up)[i]
            != '_' by {
            if i == 0 {
                assert((seq![head] + rest)[0] == head);
            } else {
                assert((seq![head] + rest)[i] == rest[i - 1]);
            }
        }
    }
}

/// Conversion leaves a separator-free identifier unchanged: an input already
/// in camel case is its own camel-case form.
pub proof fn lemma_camel_case_separator_free_identity(s: Seq<char>)
    requires
        forall|i: int| 0 <= i < s.len() ==> s[i] != '_',
    ensures
        camel_case_of(s) == s,
    decreases s.len(),
{
    if s.len() == 0 {
        assert(camel_case_of(s) =~= s);
    } else {
        assert(forall|i: int|
            0 <= i < s.drop_first().len() ==> #[trigger] s.drop_first()[i] == s[i + 1]);
        lemma_camel_case_separator_free_identity(s.drop_first());
        assert(camel_case_of(s) =~= s);
    }
}

/// Case conversion is idempotent: its result contains no separator, so
/// converting it again changes nothing.
pub proof fn lemma_camel_case_idempotent(s: Seq<char>)
    ensures
        camel_case_of(camel_case_of(s)) == camel_case_of(s),
{
    lemma_camel_rec_no_separator(s, false);
    lemma_camel_case_separator_free_identity(camel_case_of(s));
}

} // verus!
