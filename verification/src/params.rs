use crate::camel::camel_case_of;
use crate::camel::to_camel_case;
use vstd::prelude::*;

verus! {

/// One named query argument. The key is always present; an absent value
/// means the pair is left out of the encoded query string entirely, while a
/// present empty value is still encoded. Pairs are encoded in the order the
/// caller supplies them, never sorted.
pub struct ParamPair {
    pub key: String,
    pub value: Option<String>,
}

/// The view of an optional argument value.
pub open spec fn opt_str_view(v: Option<String>) -> Option<Seq<char>> {
    match v {
        Option::Some(s) => Option::Some(s@),
        Option::None => Option::None,
    }
}

impl View for ParamPair {
    type V = (Seq<char>, Option<Seq<char>>);

    open spec fn view(&self) -> Self::V {
        (self.key@, opt_str_view(self.value))
    }
}

/// The views of a sequence of pairs.
pub open spec fn views_of(ps: Seq<ParamPair>) -> Seq<(Seq<char>, Option<Seq<char>>)> {
    ps.map_values(|p: ParamPair| p@)
}

/// The token a pair with a present value contributes to the query string.
pub open spec fn token_of(k: Seq<char>, v: Seq<char>) -> Seq<char> {
    k + seq!['='] + v
}

/// The canonical query string of an ordered sequence of pairs: each pair
/// with a present value contributes `key=value`, a pair with an absent value
/// contributes nothing, and the contributed tokens are joined with `&`.
pub open spec fn query_string_of(ps: Seq<(Seq<char>, Option<Seq<char>>)>) -> Seq<char>
    decreases ps.len(),
{
    if ps.len() == 0 {
        Seq::empty()
    } else {
        let rest = query_string_of(ps.drop_first());
        match ps[0].1 {
            Option::None => rest,
            Option::Some(v) => if rest.len() == 0 {
                token_of(ps[0].0, v)
            } else {
                token_of(ps[0].0, v) + seq!['&'] + rest
            },
        }
    }
}

/// Build the pair for a required argument: the key is the camel-cased
/// identifier and the value is always present.
pub fn required_param(name: &str, value: String) -> (p: ParamPair)
    ensures
        p@.0 == camel_case_of(name@),
        p@.1 == Option::Some(value@),
{
    ParamPair { key: to_camel_case(name), value: Some(value) }
}

/// Build the pair for an optional argument: the key is the camel-cased
/// identifier and the value is present exactly when the argument is.
pub fn optional_param(name: &str, value: Option<String>) -> (p: ParamPair)
    ensures
        p@.0 == camel_case_of(name@),
        p@.1 == opt_str_view(value),
{
    ParamPair { key: to_camel_case(name), value }
}

/// Appending one pair extends the query string on the right: an absent value
/// changes nothing, and a present value appends its token, preceded by `&`
/// exactly when something was already encoded.
pub proof fn lemma_query_snoc(ps: Seq<(Seq<char>, Option<Seq<char>>)>, p: (Seq<char>, Option<
    Seq<char>,
>))
    ensures
        query_string_of(ps.push(p)) == (match p.1 {
            Option::None => query_string_of(ps),
            Option::Some(v) => if query_string_of(ps).len() == 0 {
                token_of(p.0, v)
            } else {
                query_string_of(ps) + seq!['&'] + token_of(p.0, v)
            },
        }),
    decreases ps.len(),
{
    if ps.len() == 0 {
        assert(ps.push(p)[0] == p);
        assert(ps.push(p).drop_first() =~= Seq::<(Seq<char>, Option<Seq<char>>)>::empty());
        assert(query_string_of(Seq::<(Seq<char>, Option<Seq<char>>)>::empty()).len() == 0);
        assert(query_string_of(ps.push(p).drop_first()).len() == 0);
        assert(query_string_of(ps).len() == 0);
        match p.1 {
            Option::None => {
                assert(query_string_of(ps.push(p)) == query_string_of(ps));
            },
            Option::Some(v) => {
                assert(query_string_of(ps.push(p)) == token_of(p.0, v));
                assert(query_string_of(ps).len() == 0);
            },
        }
    } else {
        lemma_query_snoc(ps.drop_first(), p);
        assert(ps.push(p)[0] == ps[0]);
        assert(ps.push(p).drop_first() =~= ps.drop_first().push(p));
        let rest = query_string_of(ps.drop_first());
        let rest2 = query_string_of(ps.drop_first().push(p));
        assert(query_string_of(ps.push(p)) == (match ps[0].1 {
            Option::None => rest2,
            Option::Some(v0) => if rest2.len() == 0 {
                token_of(ps[0].0, v0)
            } else {
                token_of(ps[0].0, v0) + seq!['&'] + rest2
            },
        }));
        match p.1 {
            Option::None => {
                assert(rest2 == rest);
                assert(query_string_of(ps.push(p)) == query_string_of(ps));
            },
            Option::Some(v) => {
                let tokp = token_of(p.0, v);
                assert(tokp.len() >= 1);
                match ps[0].1 {
                    Option::None => {
                        assert(query_string_of(ps.push(p)) == rest2);
                        assert(query_string_of(ps) == rest);
                    },
                    Option::Some(v0) => {
                        let tok0 = token_of(ps[0].0, v0);
                        assert(rest2.len() > 0);
                        assert(query_string_of(ps.push(p)) == tok0 + seq!['&'] + rest2);
                        assert(query_string_of(ps).len() > 0);
                        if rest.len() == 0 {
                            assert(query_string_of(ps) == tok0);
                            assert(tok0 + seq!['&'] + rest2 =~= tok0 + seq!['&'] + tokp);
                            assert(query_string_of(ps) + seq!['&'] + tokp =~= tok0 + seq!['&']
                                + tokp);
                        } else {
                            assert(query_string_of(ps) == tok0 + seq!['&'] + rest);
                            assert(tok0 + seq!['&'] + (rest + seq!['&'] + tokp) =~= (tok0
                                + seq!['&'] + rest) + seq!['&'] + tokp);
                        }
                    },
                }
            },
        }
    }
}

/// A pair with an absent value is excluded from the query string entirely:
/// removing it from the sequence leaves the encoding unchanged.
pub proof fn lemma_absent_value_excluded(ps: Seq<(Seq<char>, Option<Seq<char>>)>, i: int)
    requires
        0 <= i < ps.len(),
        ps[i].1 is None,
    ensures
        query_string_of(ps.remove(i)) == query_string_of(ps),
    decreases i,
{
    if i == 0 {
        assert(ps.remove(0) =~= ps.drop_first());
    } else {
        lemma_absent_value_excluded(ps.drop_first(), i - 1);
        assert(ps.remove(i)[0] == ps[0]);
        assert(ps.remove(i).len() > 0);
        assert(ps.remove(i).drop_first() =~= ps.drop_first().remove(i - 1));
    }
}

/// Encoding is order-preserving, not sorted: two pairs with distinct keys
/// and present values encode to different query strings when their order is
/// swapped. The keys must be free of the `=` delimiter, which would let one
/// key mimic the other key's token.
pub proof fn lemma_encoding_order_sensitive(
    a: (Seq<char>, Option<Seq<char>>),
    b: (Seq<char>, Option<Seq<char>>),
)
    requires
        a.0 != b.0,
        a.1 is Some,
        b.1 is Some,
        !a.0.contains('='),
        !b.0.contains('='),
    ensures
        query_string_of(seq![a, b]) != query_string_of(seq![b, a]),
{
    let ka = a.0;
    let kb = b.0;
    let va = a.1.unwrap();
    let vb = b.1.unwrap();
    let s1 = query_string_of(seq![a, b]);
    let s2 = query_string_of(seq![b, a]);
    assert(seq![a, b].drop_first() =~= seq![b]);
    assert(seq![b, a].drop_first() =~= seq![a]);
    assert(seq![b].drop_first() =~= Seq::<(Seq<char>, Option<Seq<char>>)>::empty());
    assert(seq![a].drop_first() =~= Seq::<(Seq<char>, Option<Seq<char>>)>::empty());
    assert(query_string_of(Seq::<(Seq<char>, Option<Seq<char>>)>::empty()).len() == 0);
    assert(query_string_of(seq![b]) == token_of(kb, vb));
    assert(query_string_of(seq![a]) == token_of(ka, va));
    assert(s1 == token_of(ka, va) + seq!['&'] + token_of(kb, vb));
    assert(s2 == token_of(kb, vb) + seq!['&'] + token_of(ka, va));
    if ka.len() == kb.len() {
        assert(exists|j: int| 0 <= j < ka.len() && ka[j] != kb[j]) by {
            if forall|j: int| 0 <= j < ka.len() ==> ka[j] == #[trigger] kb[j] {
                assert(ka =~= kb);
            }
        }
        let j = choose|j: int| 0 <= j < ka.len() && ka[j] != kb[j];
        assert(s1[j] == ka[j]);
        assert(s2[j] == kb[j]);
        assert(s1[j] != s2[j]);
    } else if ka.len() < kb.len() {
        let j = ka.len() as int;
        assert(s1[j] == '=');
        assert(s2[j] == kb[j]);
        assert(kb[j] != '=') by {
            if kb[j] == '=' {
                assert(kb.contains('='));
            }
        }
        assert(s1[j] != s2[j]);
    } else {
        let j = kb.len() as int;
        assert(s2[j] == '=');
        assert(s1[j] == ka[j]);
        assert(ka[j] != '=') by {
            if ka[j] == '=' {
                assert(ka.contains('='));
            }
        }
        assert(s1[j] != s2[j]);
    }
}

/// Whether a string never holds the given character.
pub open spec fn free_of(s: Seq<char>, c: char) -> bool {
    forall|i: int| 0 <= i < s.len() ==> s[i] != c
}

/// Splitting a query string on `&`, accumulating the current token.
pub open spec fn split_rec(q: Seq<char>, cur: Seq<char>) -> Seq<Seq<char>>
    decreases q.len(),
{
    if q.len() == 0 {
        seq![cur]
    } else if q[0] == '&' {
        seq![cur] + split_rec(q.drop_first(), Seq::empty())
    } else {
        split_rec(q.drop_first(), cur.push(q[0]))
    }
}

/// The `&`-separated tokens of a query string; an empty string has none.
pub open spec fn query_tokens(q: Seq<char>) -> Seq<Seq<char>> {
    if q.len() == 0 {
        Seq::empty()
    } else {
        split_rec(q, Seq::empty())
    }
}

/// Splitting a token at its first `=`, accumulating the key read so far. A
/// token without `=` is all key, with an empty value.
pub open spec fn kv_rec(t: Seq<char>, acc: Seq<char>) -> (Seq<char>, Seq<char>)
    decreases t.len(),
{
    if t.len() == 0 {
        (acc, Seq::empty())
    } else if t[0] == '=' {
        (acc, t.drop_first())
    } else {
        kv_rec(t.drop_first(), acc.push(t[0]))
    }
}

/// The key and value a query-string token stands for.
pub open spec fn parse_token(t: Seq<char>) -> (Seq<char>, Seq<char>) {
    kv_rec(t, Seq::empty())
}

/// The entries a query string parses back to, in order.
pub open spec fn parse_query(q: Seq<char>) -> Seq<(Seq<char>, Seq<char>)> {
    query_tokens(q).map_values(|t: Seq<char>| parse_token(t))
}

/// The pairs of a sequence whose values are present, in order, with the
/// values unwrapped.
pub open spec fn present_pairs(ps: Seq<(Seq<char>, Option<Seq<char>>)>) -> Seq<
    (Seq<char>, Seq<char>),
>
    decreases ps.len(),
{
    if ps.len() == 0 {
        Seq::empty()
    } else {
        let rest = present_pairs(ps.drop_first());
        match ps[0].1 {
            Option::None => rest,
            Option::Some(v) => seq![(ps[0].0, v)] + rest,
        }
    }
}

/// Pairs that can cross the wire intact: no key holds a delimiter, and no
/// present value holds the pair separator.
pub open spec fn delimiter_free(ps: Seq<(Seq<char>, Option<Seq<char>>)>) -> bool {
    forall|i: int| 0 <= i < ps.len() ==> {
        &&& free_of(#[trigger] ps[i].0, '&')
        &&& free_of(ps[i].0, '=')
        &&& (ps[i].1 is Some ==> free_of(ps[i].1.unwrap(), '&'))
    }
}

proof fn lemma_split_rec_whole(a: Seq<char>, cur: Seq<char>)
    requires
        free_of(a, '&'),
    ensures
        split_rec(a, cur) == seq![cur + a],
    decreases a.len(),
{
    if a.len() == 0 {
        assert(cur + a =~= cur);
    } else {
        lemma_split_rec_whole(a.drop_first(), cur.push(a[0]));
        assert(cur.push(a[0]) + a.drop_first() =~= cur + a);
    }
}

proof fn lemma_split_rec_first(a: Seq<char>, b: Seq<char>, cur: Seq<char>)
    requires
        free_of(a, '&'),
    ensures
        split_rec(a + seq!['&'] + b, cur) == seq![cur + a] + split_rec(b, Seq::empty()),
    decreases a.len(),
{
    let q = a + seq!['&'] + b;
    if a.len() == 0 {
        assert(q[0] == '&');
        assert(q.drop_first() =~= b);
        assert(cur + a =~= cur);
    } else {
        assert(q[0] == a[0]);
        assert(q.drop_first() =~= a.drop_first() + seq!['&'] + b);
        lemma_split_rec_first(a.drop_first(), b, cur.push(a[0]));
        assert(cur.push(a[0]) + a.drop_first() =~= cur + a);
    }
}

proof fn lemma_kv_rec_split(k: Seq<char>, v: Seq<char>, acc: Seq<char>)
    requires
        free_of(k, '='),
    ensures
        kv_rec(k + seq!['='] + v, acc) == (acc + k, v),
    decreases k.len(),
{
    let t = k + seq!['='] + v;
    if k.len() == 0 {
        assert(t[0] == '=');
        assert(t.drop_first() =~= v);
        assert(acc + k =~= acc);
    } else {
        assert(t[0] == k[0]);
        assert(t.drop_first() =~= k.drop_first() + seq!['='] + v);
        lemma_kv_rec_split(k.drop_first(), v, acc.push(k[0]));
        assert(acc.push(k[0]) + k.drop_first() =~= acc + k);
    }
}

proof fn lemma_empty_query_no_present(ps: Seq<(Seq<char>, Option<Seq<char>>)>)
    requires
        query_string_of(ps).len() == 0,
    ensures
        present_pairs(ps) == Seq::<(Seq<char>, Seq<char>)>::empty(),
    decreases ps.len(),
{
    if ps.len() == 0 {
        assert(present_pairs(ps) =~= Seq::<(Seq<char>, Seq<char>)>::empty());
    } else {
        match ps[0].1 {
            Option::None => {
                lemma_empty_query_no_present(ps.drop_first());
            },
            Option::Some(v) => {
                assert(token_of(ps[0].0, v).len() >= 1);
            },
        }
    }
}

/// Encoding then parsing recovers exactly the pairs with present values, in
/// their given order, for pairs whose keys and values are free of the query
/// delimiters. In particular a pair with an absent value yields no entry.
pub proof fn lemma_encode_parse_round_trip(ps: Seq<(Seq<char>, Option<Seq<char>>)>)
    requires
        delimiter_free(ps),
    ensures
        parse_query(query_string_of(ps)) == present_pairs(ps),
    decreases ps.len(),
{
    if ps.len() == 0 {
        assert(parse_query(query_string_of(ps)) =~= present_pairs(ps));
    } else {
        assert(forall|i: int|
            0 <= i < ps.drop_first().len() ==> #[trigger] ps.drop_first()[i] == ps[i + 1]);
        lemma_encode_parse_round_trip(ps.drop_first());
        let rest_q = query_string_of(ps.drop_first());
        match ps[0].1 {
            Option::None => {},
            Option::Some(v) => {
                let k = ps[0].0;
                let tok = token_of(k, v);
                assert(free_of(k, '&') && free_of(k, '=') && free_of(v, '&'));
                assert(free_of(tok, '&')) by {
                    assert forall|i: int| 0 <= i < tok.len() implies tok[i] != '&' by {
                        if i < k.len() {
                            assert(tok[i] == k[i]);
                        } else if i == k.len() {
                            assert(tok[i] == '=');
                        } else {
                            assert(tok[i] == v[i - k.len() - 1]);
                        }
                    }
                }
                lemma_kv_rec_split(k, v, Seq::empty());
                assert(Seq::<char>::empty() + k =~= k);
                assert(parse_token(tok) == (k, v));
                if rest_q.len() == 0 {
                    assert(query_string_of(ps) == tok);
                    lemma_split_rec_whole(tok, Seq::empty());
                    assert(Seq::<char>::empty() + tok =~= tok);
                    assert(query_tokens(tok) == seq![tok]);
                    assert(parse_query(tok) =~= seq![(k, v)]);
                    lemma_empty_query_no_present(ps.drop_first());
                    assert(present_pairs(ps) =~= seq![(k, v)]);
                } else {
                    let q = query_string_of(ps);
                    assert(q == tok + seq!['&'] + rest_q);
                    assert(q.len() > 0);
                    lemma_split_rec_first(tok, rest_q, Seq::empty());
                    assert(Seq::<char>::empty() + tok =~= tok);
                    assert(query_tokens(q) == seq![tok] + split_rec(rest_q, Seq::empty()));
                    assert(split_rec(rest_q, Seq::empty()) == query_tokens(rest_q));
                    assert(parse_query(q) =~= seq![(k, v)] + parse_query(rest_q)) by {
                        assert(query_tokens(q).len() == 1 + query_tokens(rest_q).len());
                        assert forall|j: int|
                            0 <= j < parse_query(q).len() implies parse_query(q)[j] == (seq![
                            (k, v),
                        ] + parse_query(rest_q))[j] by {
                            assert(parse_query(q)[j] == parse_token(query_tokens(q)[j]));
                            if j == 0 {
                                assert(query_tokens(q)[0] == tok);
                            } else {
                                assert(query_tokens(q)[j] == query_tokens(rest_q)[j - 1]);
                                assert(parse_query(rest_q)[j - 1] == parse_token(
                                    query_tokens(rest_q)[j - 1],
                                ));
                            }
                        }
                    }
                    assert(present_pairs(ps) == seq![(k, v)] + present_pairs(ps.drop_first()));
                }
            },
        }
    }
}

proof fn lemma_present_pairs_skip_key(ps: Seq<(Seq<char>, Option<Seq<char>>)>, k: Seq<char>)
    requires
        forall|i: int| 0 <= i < ps.len() && #[trigger] ps[i].0 == k ==> ps[i].1 is None,
    ensures
        forall|j: int| 0 <= j < present_pairs(ps).len() ==> #[trigger] present_pairs(ps)[j].0 != k,
    decreases ps.len(),
{
    if ps.len() == 0 {
    } else {
        assert(forall|i: int|
            0 <= i < ps.drop_first().len() ==> #[trigger] ps.drop_first()[i] == ps[i + 1]);
        lemma_present_pairs_skip_key(ps.drop_first(), k);
        match ps[0].1 {
            Option::None => {
                assert(present_pairs(ps) == present_pairs(ps.drop_first()));
                assert forall|j: int|
                    0 <= j < present_pairs(ps).len() implies #[trigger] present_pairs(ps)[j].0
                    != k by {
                    assert(present_pairs(ps)[j] == present_pairs(ps.drop_first())[j]);
                }
            },
            Option::Some(v) => {
                assert(ps[0].0 != k);
                assert forall|j: int|
                    0 <= j < present_pairs(ps).len() implies #[trigger] present_pairs(ps)[j].0
                    != k by {
                    if j == 0 {
                        assert(present_pairs(ps)[0] == (ps[0].0, v));
                    } else {
                        assert(present_pairs(ps)[j] == present_pairs(ps.drop_first())[j - 1]);
                    }
                }
            },
        }
    }
}

/// A parameter whose value is absent everywhere it occurs leaves no entry
/// under its key in the parsed form of the encoded query string.
pub proof fn lemma_absent_key_never_parsed(ps: Seq<(Seq<char>, Option<Seq<char>>)>, k: Seq<char>)
    requires
        delimiter_free(ps),
        forall|i: int| 0 <= i < ps.len() && #[trigger] ps[i].0 == k ==> ps[i].1 is None,
    ensures
        forall|j: int|
            0 <= j < parse_query(query_string_of(ps)).len() ==> #[trigger] parse_query(
                query_string_of(ps),
            )[j].0 != k,
{
    lemma_encode_parse_round_trip(ps);
    lemma_present_pairs_skip_key(ps, k);
}

/// Flatten an ordered sequence of pairs into the canonical query string.
/// Two calls with identical arguments produce identical strings.
pub fn encode_query(params: &Vec<ParamPair>) -> (r: String)
    ensures
        r@ == query_string_of(views_of(params@)),
{
    let mut out = String::new();
    let mut i: usize = 0;
    proof {
        assert(views_of(params@.take(0)) =~= Seq::<(Seq<char>, Option<Seq<char>>)>::empty());
    }
    while i < params.len()
        invariant
            i <= params@.len(),
            out@ == query_string_of(views_of(params@.take(i as int))),
        decreases params@.len() - i,
    {
        let ghost prev = out@;
        match &params[i].value {
            Option::Some(v) => {
                if !out.as_str().is_empty() {
                    out.append("&");
                }
                out.append(params[i].key.as_str());
                out.append("=");
                out.append(v.as_str());
                proof {
                    reveal_strlit("&");
                    reveal_strlit("=");
                    assert("&"@ =~= seq!['&']);
                    assert("="@ =~= seq!['=']);
                    if prev.len() == 0 {
                        assert(out@ =~= token_of(params@[i as int].key@, v@));
                    } else {
                        assert(out@ =~= prev + seq!['&'] + token_of(
                            params@[i as int].key@,
                            v@,
                        ));
                    }
                }
            },
            Option::None => {},
        }
        proof {
            lemma_query_snoc(views_of(params@.take(i as int)), params@[i as int]@);
            assert(params@.take(i as int + 1) =~= params@.take(i as int).push(
                params@[i as int],
            ));
            assert(views_of(params@.take(i as int + 1)) =~= views_of(
                params@.take(i as int),
            ).push(params@[i as int]@));
        }
        i = i + 1;
    }
    proof {
        assert(params@.take(params@.len() as int) =~= params@);
    }
    out
}

} // verus!
