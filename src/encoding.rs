use vstd::prelude::*;
use vstd::utf8::{encode_utf8, decode_utf8, encode_utf8_decode_utf8};

verus! {

/// Bytes that stand for themselves in a query component: ASCII letters,
/// digits and `-`, `.`, `_`, `~`.
pub open spec fn is_unreserved(b: u8) -> bool {
    (0x41 <= b <= 0x5a) || (0x61 <= b <= 0x7a) || (0x30 <= b <= 0x39) || b == 0x2d || b == 0x2e
        || b == 0x5f || b == 0x7e
}

/// The upper-case hexadecimal digit of `n`, for `n < 16`.
pub open spec fn hex_digit(n: u8) -> char {
    if n < 10 {
        (n + 48) as char
    } else {
        (n + 55) as char
    }
}

/// The value of a hexadecimal digit (either case); 0 for any other character.
pub open spec fn hex_value(c: char) -> u8 {
    if '0' <= c <= '9' {
        (c as u32 - 48) as u8
    } else if 'A' <= c <= 'F' {
        (c as u32 - 55) as u8
    } else if 'a' <= c <= 'f' {
        (c as u32 - 87) as u8
    } else {
        0
    }
}

/// The characters that one byte becomes: itself when unreserved, else `%`
/// and two hexadecimal digits.
pub open spec fn encode_byte(b: u8) -> Seq<char> {
    if is_unreserved(b) {
        seq![b as char]
    } else {
        seq!['%', hex_digit(b / 16), hex_digit(b % 16)]
    }
}

/// Percent-encoding of a byte string.
pub open spec fn percent_encoded(bytes: Seq<u8>) -> Seq<char>
    decreases bytes.len(),
{
    if bytes.len() == 0 {
        seq![]
    } else {
        encode_byte(bytes[0]) + percent_encoded(bytes.skip(1))
    }
}

/// Percent-encoding of the UTF-8 form of a text.
pub open spec fn percent_encoded_text(s: Seq<char>) -> Seq<char> {
    percent_encoded(encode_utf8(s))
}

/// Percent-decoding: `%` and two digits give one byte, any other character
/// gives its own code.
pub open spec fn percent_decoded(cs: Seq<char>) -> Seq<u8>
    decreases cs.len(),
{
    if cs.len() == 0 {
        seq![]
    } else if cs[0] == '%' && cs.len() >= 3 {
        seq![(hex_value(cs[1]) * 16 + hex_value(cs[2])) as u8] + percent_decoded(cs.skip(3))
    } else {
        seq![cs[0] as u8] + percent_decoded(cs.skip(1))
    }
}

/// The characters that never occur in percent-encoded text, so that they can
/// delimit it.
pub open spec fn is_delimiter(c: char) -> bool {
    c == '&' || c == '=' || c == '#' || c == '?' || c == '+' || c == ' '
}

proof fn lemma_hex_round_trip(b: u8)
    ensures
        (hex_value(hex_digit(b / 16)) * 16 + hex_value(hex_digit(b % 16))) as u8 == b,
        !is_delimiter(hex_digit(b / 16)),
        !is_delimiter(hex_digit(b % 16)),
{
    let hi = b / 16;
    let lo = b % 16;
    assert(hi < 16 && lo < 16 && b == hi * 16 + lo);
    assert(hex_value(hex_digit(hi)) == hi);
    assert(hex_value(hex_digit(lo)) == lo);
}

proof fn lemma_encoded_push(bytes: Seq<u8>, b: u8)
    ensures
        percent_encoded(bytes.push(b)) == percent_encoded(bytes) + encode_byte(b),
    decreases bytes.len(),
{
    if bytes.len() == 0 {
        assert(bytes.push(b).skip(1) =~= seq![]);
        assert(percent_encoded(bytes.push(b)) =~= encode_byte(b) + percent_encoded(seq![]));
    } else {
        assert(bytes.push(b).skip(1) =~= bytes.skip(1).push(b));
        lemma_encoded_push(bytes.skip(1), b);
        assert(percent_encoded(bytes.push(b)) =~= encode_byte(bytes[0]) + (percent_encoded(
            bytes.skip(1),
        ) + encode_byte(b)));
    }
}

/// Decoding undoes encoding: the bytes of a percent-encoded component are
/// recovered exactly.
pub proof fn lemma_percent_round_trip(bytes: Seq<u8>)
    ensures
        percent_decoded(percent_encoded(bytes)) == bytes,
    decreases bytes.len(),
{
    if bytes.len() > 0 {
        let b = bytes[0];
        let rest = percent_encoded(bytes.skip(1));
        let cs = encode_byte(b) + rest;
        lemma_percent_round_trip(bytes.skip(1));
        if is_unreserved(b) {
            assert(cs[0] == b as char);
            assert(cs.skip(1) =~= rest);
            assert(percent_decoded(cs) =~= seq![b] + percent_decoded(rest));
        } else {
            lemma_hex_round_trip(b);
            assert(cs[0] == '%' && cs[1] == hex_digit(b / 16) && cs[2] == hex_digit(b % 16));
            assert(cs.skip(3) =~= rest);
            assert(percent_decoded(cs) =~= seq![b] + percent_decoded(rest));
        }
        assert(bytes =~= seq![b] + bytes.skip(1));
    }
}

/// Encoded text holds no delimiter character.
pub proof fn lemma_encoded_has_no_delimiter(bytes: Seq<u8>)
    ensures
        forall|i: int| 0 <= i < percent_encoded(bytes).len() ==> !is_delimiter(
            #[trigger] percent_encoded(bytes)[i],
        ),
    decreases bytes.len(),
{
    if bytes.len() > 0 {
        let b = bytes[0];
        lemma_encoded_has_no_delimiter(bytes.skip(1));
        lemma_hex_round_trip(b);
        let e = encode_byte(b);
        let rest = percent_encoded(bytes.skip(1));
        assert forall|i: int| 0 <= i < (e + rest).len() implies !is_delimiter(#[trigger] (e + rest)[i]) by {
            if i >= e.len() {
                assert((e + rest)[i] == rest[i - e.len()]);
            }
        }
    }
}

/// Text of a UTF-8 string is recovered from its percent-encoding.
pub proof fn lemma_percent_text_round_trip(s: Seq<char>)
    ensures
        decode_utf8(percent_decoded(percent_encoded_text(s))) == s,
{
    lemma_percent_round_trip(encode_utf8(s));
    encode_utf8_decode_utf8(s);
}

/// Relies on std's String::push: appends one character.
#[verifier::external_body]
pub(crate) fn push_char(s: &mut String, c: char)
    ensures
        final(s)@ == old(s)@.push(c),
{
    s.push(c);
}

fn hex_char(n: u8) -> (c: char)
    requires
        n < 16,
    ensures
        c == hex_digit(n),
{
    if n < 10 {
        (n + 48) as char
    } else {
        (n + 55) as char
    }
}

/// Appends the percent-encoding of the UTF-8 bytes of `s` to `out`.
pub fn push_percent_encoded(out: &mut String, s: &str)
    ensures
        final(out)@ == old(out)@ + percent_encoded_text(s@),
{
    let bytes = s.as_bytes();
    let ghost start = out@;
    let mut i: usize = 0;
    while i < bytes.len()
        invariant
            i <= bytes@.len(),
            bytes@ == encode_utf8(s@),
            out@ == start + percent_encoded(bytes@.take(i as int)),
        decreases bytes@.len() - i,
    {
        let b = bytes[i];
        proof {
            assert(bytes@.take(i + 1) =~= bytes@.take(i as int).push(b));
            lemma_encoded_push(bytes@.take(i as int), b);
        }
        if (0x41 <= b && b <= 0x5a) || (0x61 <= b && b <= 0x7a) || (0x30 <= b && b <= 0x39)
            || b == 0x2d || b == 0x2e || b == 0x5f || b == 0x7e {
            push_char(out, b as char);
            assert(out@ =~= start + percent_encoded(bytes@.take(i + 1)));
        } else {
            push_char(out, '%');
            push_char(out, hex_char(b / 16));
            push_char(out, hex_char(b % 16));
            assert(out@ =~= start + percent_encoded(bytes@.take(i + 1)));
        }
        i = i + 1;
    }
    assert(bytes@.take(i as int) =~= bytes@);
}

/// Percent-encoding of the UTF-8 bytes of `s`.
pub fn percent_encode(s: &str) -> (r: String)
    ensures
        r@ == percent_encoded_text(s@),
{
    let mut out = String::new();
    push_percent_encoded(&mut out, s);
    out
}

/// Whether two texts are the same.
pub fn text_eq(a: &str, b: &str) -> (r: bool)
    ensures
        r == (a@ == b@),
{
    let x = a.as_bytes();
    let y = b.as_bytes();
    proof {
        encode_utf8_decode_utf8(a@);
        encode_utf8_decode_utf8(b@);
    }
    if x.len() != y.len() {
        return false;
    }
    let mut i: usize = 0;
    while i < x.len()
        invariant
            x@.len() == y@.len(),
            x@ == encode_utf8(a@),
            y@ == encode_utf8(b@),
            i <= x@.len(),
            forall|j: int| 0 <= j < i ==> x@[j] == y@[j],
        decreases x@.len() - i,
    {
        if x[i] != y[i] {
            assert(x@[i as int] != y@[i as int]);
            return false;
        }
        i = i + 1;
    }
    assert(x@ =~= y@);
    true
}

/// The view of an optional text.
pub open spec fn opt_view(s: Option<&str>) -> Option<Seq<char>> {
    match s {
        Some(t) => Some(t@),
        None => None,
    }
}

/// One `key=value` pair of a query, both sides percent-encoded.
pub open spec fn pair_text(p: (Seq<char>, Seq<char>)) -> Seq<char> {
    percent_encoded_text(p.0) + seq!['='] + percent_encoded_text(p.1)
}

/// A query string (or form body): the encoded pairs, in order, joined by `&`.
pub open spec fn query_text(pairs: Seq<(Seq<char>, Seq<char>)>) -> Seq<char>
    decreases pairs.len(),
{
    if pairs.len() == 0 {
        seq![]
    } else if pairs.len() == 1 {
        pair_text(pairs[0])
    } else {
        query_text(pairs.drop_last()) + seq!['&'] + pair_text(pairs.last())
    }
}

/// Appends one more pair to the query text `out`, which holds `pairs`.
pub(crate) fn push_pair(out: &mut String, key: &str, value: &str, Ghost(pairs): Ghost<
    Seq<(Seq<char>, Seq<char>)>,
>)
    requires
        old(out)@ == query_text(pairs),
    ensures
        final(out)@ == query_text(pairs.push((key@, value@))),
{
    let ghost p = (key@, value@);
    assert(pairs.push(p).drop_last() =~= pairs);
    if out.as_str().is_empty() {
        proof {
            if pairs.len() > 0 {
                lemma_query_text_nonempty(pairs);
            }
        }
    } else {
        push_char(out, '&');
    }
    push_percent_encoded(out, key);
    push_char(out, '=');
    push_percent_encoded(out, value);
    assert(out@ =~= query_text(pairs.push(p)));
}

proof fn lemma_query_text_nonempty(pairs: Seq<(Seq<char>, Seq<char>)>)
    requires
        pairs.len() > 0,
    ensures
        query_text(pairs).len() > 0,
    decreases pairs.len(),
{
    if pairs.len() > 1 {
        lemma_query_text_nonempty(pairs.drop_last());
    }
}

/// The views of the pairs of a list of owned texts.
pub open spec fn pairs_view(pairs: Seq<(String, String)>) -> Seq<(Seq<char>, Seq<char>)> {
    pairs.map_values(|p: (String, String)| (p.0@, p.1@))
}

/// `base` with the query built from `pairs`; `base` alone when there are
/// none.
pub open spec fn url_with_query_spec(base: Seq<char>, pairs: Seq<(Seq<char>, Seq<char>)>) -> Seq<
    char,
> {
    if pairs.len() == 0 {
        base
    } else {
        base + seq!['?'] + query_text(pairs)
    }
}

/// The URL `base` with the query parameters `pairs`, in order, each key and
/// value percent-encoded.
pub fn url_with_query(base: &str, pairs: &Vec<(String, String)>) -> (r: String)
    ensures
        r@ == url_with_query_spec(base@, pairs_view(pairs@)),
{
    let mut q = String::new();
    let mut i: usize = 0;
    while i < pairs.len()
        invariant
            i <= pairs@.len(),
            q@ == query_text(pairs_view(pairs@).take(i as int)),
        decreases pairs@.len() - i,
    {
        let ghost done = pairs_view(pairs@).take(i as int);
        assert(done =~= pairs_view(pairs@.take(i as int)));
        push_pair(&mut q, pairs[i].0.as_str(), pairs[i].1.as_str(), Ghost(done));
        assert(pairs_view(pairs@).take(i + 1) =~= done.push((pairs@[i as int].0@, pairs@[i as int].1@)));
        i = i + 1;
    }
    assert(pairs_view(pairs@).take(i as int) =~= pairs_view(pairs@));
    let mut url = String::from_str(base);
    if i > 0 {
        push_char(&mut url, '?');
        url.append(q.as_str());
    }
    url
}

/// The value of the first pair whose key is `key`, if any.
pub open spec fn value_of(pairs: Seq<(Seq<char>, Seq<char>)>, key: Seq<char>) -> Option<Seq<char>>
    decreases pairs.len(),
{
    if pairs.len() == 0 {
        None
    } else if pairs[0].0 == key {
        Some(pairs[0].1)
    } else {
        value_of(pairs.skip(1), key)
    }
}

/// The first pair with a key is the one whose value is looked up.
pub proof fn lemma_value_of_first(pairs: Seq<(Seq<char>, Seq<char>)>, key: Seq<char>, i: int)
    requires
        0 <= i <= pairs.len(),
        i < pairs.len() ==> pairs[i].0 == key,
        forall|j: int| 0 <= j < i ==> pairs[j].0 != key,
    ensures
        value_of(pairs, key) == if i < pairs.len() {
            Some(pairs[i].1)
        } else {
            None
        },
    decreases i,
{
    if i > 0 {
        assert forall|j: int| 0 <= j < i - 1 implies pairs.skip(1)[j].0 != key by {
            assert(pairs.skip(1)[j] == pairs[j + 1]);
        }
        lemma_value_of_first(pairs.skip(1), key, i - 1);
    }
}

/// Index of the last `c` in `s`; -1 where there is none.
pub open spec fn last_index_of(s: Seq<char>, c: char) -> int
    decreases s.len(),
{
    if s.len() == 0 {
        -1
    } else if s.last() == c {
        s.len() - 1
    } else {
        last_index_of(s.drop_last(), c)
    }
}

/// Index of the first `c` in `s`; the length of `s` where there is none.
pub open spec fn first_index_of(s: Seq<char>, c: char) -> int
    decreases s.len(),
{
    if s.len() == 0 {
        0
    } else if s[0] == c {
        0
    } else {
        1 + first_index_of(s.skip(1), c)
    }
}

/// Reads one `key=value` pair: split at the first `=`, then decode both sides.
pub open spec fn parse_pair(s: Seq<char>) -> (Seq<u8>, Seq<u8>) {
    let j = first_index_of(s, '=');
    if j < s.len() {
        (percent_decoded(s.take(j)), percent_decoded(s.skip(j + 1)))
    } else {
        (percent_decoded(s), seq![])
    }
}

/// Reads a query string back into its pairs of byte strings, splitting at
/// each `&`.
pub open spec fn parse_query(s: Seq<char>) -> Seq<(Seq<u8>, Seq<u8>)>
    decreases s.len(),
{
    let i = last_index_of(s, '&');
    if 0 <= i < s.len() {
        parse_query(s.take(i)).push(parse_pair(s.skip(i + 1)))
    } else {
        seq![parse_pair(s)]
    }
}

/// The UTF-8 bytes of both sides of each pair.
pub open spec fn pairs_bytes(pairs: Seq<(Seq<char>, Seq<char>)>) -> Seq<(Seq<u8>, Seq<u8>)> {
    pairs.map_values(|p: (Seq<char>, Seq<char>)| (encode_utf8(p.0), encode_utf8(p.1)))
}

proof fn lemma_last_index_absent(s: Seq<char>, c: char)
    requires
        forall|i: int| 0 <= i < s.len() ==> s[i] != c,
    ensures
        last_index_of(s, c) == -1,
    decreases s.len(),
{
    if s.len() > 0 {
        lemma_last_index_absent(s.drop_last(), c);
    }
}

proof fn lemma_last_index_split(a: Seq<char>, c: char, b: Seq<char>)
    requires
        forall|i: int| 0 <= i < b.len() ==> b[i] != c,
    ensures
        last_index_of(a + seq![c] + b, c) == a.len(),
    decreases b.len(),
{
    if b.len() > 0 {
        assert((a + seq![c] + b).drop_last() =~= a + seq![c] + b.drop_last());
        lemma_last_index_split(a, c, b.drop_last());
    } else {
        assert(a + seq![c] + b =~= a.push(c));
    }
}

proof fn lemma_first_index_split(a: Seq<char>, c: char, b: Seq<char>)
    requires
        forall|i: int| 0 <= i < a.len() ==> a[i] != c,
    ensures
        first_index_of(a + seq![c] + b, c) == a.len(),
    decreases a.len(),
{
    if a.len() > 0 {
        assert((a + seq![c] + b).skip(1) =~= a.skip(1) + seq![c] + b);
        lemma_first_index_split(a.skip(1), c, b);
    }
}

proof fn lemma_parse_pair_text(p: (Seq<char>, Seq<char>))
    ensures
        parse_pair(pair_text(p)) == (encode_utf8(p.0), encode_utf8(p.1)),
        forall|i: int| 0 <= i < pair_text(p).len() ==> pair_text(p)[i] != '&',
{
    let k = percent_encoded_text(p.0);
    let v = percent_encoded_text(p.1);
    lemma_encoded_has_no_delimiter(encode_utf8(p.0));
    lemma_encoded_has_no_delimiter(encode_utf8(p.1));
    assert(forall|i: int| 0 <= i < k.len() ==> #[trigger] k[i] != '=');
    lemma_first_index_split(k, '=', v);
    let t = k + seq!['='] + v;
    assert(t.take(k.len() as int) =~= k);
    assert(t.skip(k.len() as int + 1) =~= v);
    lemma_percent_round_trip(encode_utf8(p.0));
    lemma_percent_round_trip(encode_utf8(p.1));
    assert forall|i: int| 0 <= i < t.len() implies t[i] != '&' by {
        if i < k.len() {
            assert(t[i] == k[i]);
            assert(!is_delimiter(k[i]));
        } else if i > k.len() {
            assert(t[i] == v[i - k.len() - 1]);
            assert(!is_delimiter(v[i - k.len() - 1]));
        }
    }
}

/// Reading a query string back gives exactly the pairs it was built from, as
/// the UTF-8 bytes of each key and value.
pub proof fn lemma_query_round_trip(pairs: Seq<(Seq<char>, Seq<char>)>)
    requires
        pairs.len() >= 1,
    ensures
        parse_query(query_text(pairs)) == pairs_bytes(pairs),
    decreases pairs.len(),
{
    let last = pairs.last();
    lemma_parse_pair_text(last);
    if pairs.len() == 1 {
        lemma_last_index_absent(pair_text(pairs[0]), '&');
        assert(pairs_bytes(pairs) =~= seq![(encode_utf8(pairs[0].0), encode_utf8(pairs[0].1))]);
    } else {
        let front = query_text(pairs.drop_last());
        lemma_query_round_trip(pairs.drop_last());
        lemma_last_index_split(front, '&', pair_text(last));
        let t = front + seq!['&'] + pair_text(last);
        assert(t.take(front.len() as int) =~= front);
        assert(t.skip(front.len() as int + 1) =~= pair_text(last));
        assert(pairs_bytes(pairs) =~= pairs_bytes(pairs.drop_last()).push(
            (encode_utf8(last.0), encode_utf8(last.1)),
        ));
    }
}

} // verus!
