//! Text helpers used by the request handlers: suffix tests, the `%20`
//! decoding of names taken from a URL, and message assembly.
use vstd::prelude::*;

verus! {

/// `suffix` is a suffix of `s`.
pub open spec fn ends_with(s: Seq<char>, suffix: Seq<char>) -> bool {
    &&& suffix.len() <= s.len()
    &&& s.subrange(s.len() - suffix.len(), s.len() as int) == suffix
}

/// `pat` occurs in `s` starting at position `i`.
pub open spec fn occurs_at(s: Seq<char>, pat: Seq<char>, i: int) -> bool {
    &&& 0 <= i
    &&& i + pat.len() <= s.len()
    &&& s.subrange(i, i + pat.len()) == pat
}

/// `pat` occurs somewhere in `s`.
pub open spec fn contains_seq(s: Seq<char>, pat: Seq<char>) -> bool {
    exists|i: int| occurs_at(s, pat, i)
}

/// Every occurrence of the non-empty pattern `pat` in `s`, taken from left to
/// right without overlap, replaced by `to` (what `str::replace` computes).
pub open spec fn replace_all(s: Seq<char>, pat: Seq<char>, to: Seq<char>) -> Seq<char>
    decreases s.len(),
{
    if s.len() == 0 {
        s
    } else if 0 < pat.len() && pat.is_prefix_of(s) {
        to + replace_all(s.skip(pat.len() as int), pat, to)
    } else {
        seq![s[0]] + replace_all(s.skip(1), pat, to)
    }
}

/// The escape of a space in a URL.
pub open spec fn encoded_space() -> Seq<char> {
    seq!['%', '2', '0']
}

/// A name taken from a URL with each `%20` turned back into a space.
pub open spec fn decoded_name(s: Seq<char>) -> Seq<char> {
    replace_all(s, encoded_space(), seq![' '])
}

/// The file extension that endpoint and test files must carry.
pub open spec fn json_extension() -> Seq<char> {
    seq!['.', 'j', 's', 'o', 'n']
}

/// Appends one character to a string, by `String::push`; its contract
/// claims that the string afterwards is the one before followed by `c`.
#[verifier::external_body]
fn push_char(s: &mut String, c: char)
    ensures
        final(s)@ == old(s)@.push(c),
{
    s.push(c)
}

/// The characters of a string slice, in order.
pub fn chars_of(s: &str) -> (res: Vec<char>)
    ensures
        res@ == s@,
{
    let mut res: Vec<char> = Vec::new();
    for c in it: s.chars()
        invariant
            res@ == it.seq().take(it.index() as int),
    {
        res.push(c);
    }
    res
}

/// Whether `s` ends with `.json`.
pub fn ends_with_json(s: &str) -> (res: bool)
    ensures
        res == ends_with(s@, json_extension()),
{
    let v = chars_of(s);
    let n = v.len();
    if n < 5 {
        return false;
    }
    let r = v[n - 5] == '.' && v[n - 4] == 'j' && v[n - 3] == 's' && v[n - 2] == 'o' && v[n - 1] == 'n';
    assert(r == (v@.subrange(n - 5, n as int) =~= json_extension()));
    r
}

/// `s` with every `%20` replaced by a space, as `str::replace(s, "%20", " ")` does.
pub fn decode_spaces(s: &str) -> (res: String)
    ensures
        res@ == decoded_name(s@),
{
    let v = chars_of(s);
    let n = v.len();
    let mut out = String::new();
    let mut i: usize = 0;
    assert(v@.skip(0) =~= v@);
    while i < n
        invariant
            n == v@.len(),
            v@ == s@,
            i <= n,
            decoded_name(s@) == out@ + decoded_name(v@.skip(i as int)),
        decreases n - i,
    {
        let ghost rest = v@.skip(i as int);
        if n - i >= 3 && v[i] == '%' && v[i + 1] == '2' && v[i + 2] == '0' {
            assert(encoded_space().is_prefix_of(rest));
            assert(rest.skip(3) =~= v@.skip(i + 3));
            push_char(&mut out, ' ');
            i = i + 3;
        } else {
            assert(!encoded_space().is_prefix_of(rest));
            assert(rest.skip(1) =~= v@.skip(i + 1));
            push_char(&mut out, v[i]);
            i = i + 1;
        }
    }
    assert(v@.skip(n as int) =~= Seq::<char>::empty());
    out
}

/// The first character of a decoded name: a space where the name starts
/// with `%20`, else the name's own first character.
proof fn lemma_decoded_first(u: Seq<char>)
    ensures
        decoded_name(u).len() == 0 <==> u.len() == 0,
        u.len() > 0 && encoded_space().is_prefix_of(u) ==> decoded_name(u)[0] == ' ',
        u.len() > 0 && !encoded_space().is_prefix_of(u) ==> decoded_name(u)[0] == u[0],
{
    if u.len() > 0 {
        if encoded_space().is_prefix_of(u) {
            assert(decoded_name(u) == seq![' '] + decoded_name(u.skip(3)));
        } else {
            assert(decoded_name(u) == seq![u[0]] + decoded_name(u.skip(1)));
        }
    }
}

/// A decoded name holds no `%20`: decoding leaves no escaped space behind.
pub proof fn lemma_decoded_name_has_no_escape(s: Seq<char>)
    ensures
        !contains_seq(decoded_name(s), encoded_space()),
    decreases s.len(),
{
    let p = encoded_space();
    let d = decoded_name(s);
    if s.len() == 0 {
        assert(d.len() == 0);
    } else if p.is_prefix_of(s) {
        let rest = s.skip(3);
        lemma_decoded_name_has_no_escape(rest);
        assert(d == seq![' '] + decoded_name(rest));
        assert forall|i: int| !occurs_at(d, p, i) by {
            if occurs_at(d, p, i) {
                if i == 0 {
                    assert(d.subrange(0, 3)[0] == d[0]);
                } else {
                    assert(d.subrange(i, i + 3) =~= decoded_name(rest).subrange(i - 1, i + 2));
                    assert(occurs_at(decoded_name(rest), p, i - 1));
                }
            }
        }
    } else {
        let t = s.skip(1);
        lemma_decoded_name_has_no_escape(t);
        assert(d == seq![s[0]] + decoded_name(t));
        assert forall|i: int| !occurs_at(d, p, i) by {
            if occurs_at(d, p, i) {
                if i == 0 {
                    assert(d.subrange(0, 3)[0] == d[0]);
                    assert(d.subrange(0, 3)[1] == d[1]);
                    assert(d.subrange(0, 3)[2] == d[2]);
                    let dt = decoded_name(t);
                    assert(d[1] == dt[0]);
                    assert(d[2] == dt[1]);
                    lemma_decoded_first(t);
                    assert(t.len() > 0 && !p.is_prefix_of(t) && t[0] == '2');
                    assert(dt == seq![t[0]] + decoded_name(t.skip(1)));
                    let t2 = t.skip(1);
                    assert(dt[1] == decoded_name(t2)[0]);
                    lemma_decoded_first(t2);
                    assert(t2.len() > 0 && !p.is_prefix_of(t2) && t2[0] == '0');
                    assert(p.is_prefix_of(s));
                } else {
                    assert(d.subrange(i, i + 3) =~= decoded_name(t).subrange(i - 1, i + 2));
                    assert(occurs_at(decoded_name(t), p, i - 1));
                }
            }
        }
    }
}

/// A name that holds no `%20` is its own decoding.
pub proof fn lemma_decoding_plain_name_is_identity(s: Seq<char>)
    requires
        !contains_seq(s, encoded_space()),
    ensures
        decoded_name(s) == s,
    decreases s.len(),
{
    let p = encoded_space();
    if s.len() > 0 {
        if p.is_prefix_of(s) {
            assert(s.subrange(0, 3) =~= p);
            assert(occurs_at(s, p, 0));
        }
        let t = s.skip(1);
        assert forall|j: int| !occurs_at(t, p, j) by {
            if occurs_at(t, p, j) {
                assert(t.subrange(j, j + 3) =~= s.subrange(j + 1, j + 4));
                assert(occurs_at(s, p, j + 1));
            }
        }
        lemma_decoding_plain_name_is_identity(t);
        assert(decoded_name(s) == seq![s[0]] + decoded_name(t));
        assert(seq![s[0]] + t =~= s);
    }
}

} // verus!
