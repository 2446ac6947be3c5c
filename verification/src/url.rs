//! Assembly of the outbound query URL: the configured base, the category's
//! numeric code, the API key, and the percent-encoded free-text parameters,
//! exactly as the transport layer sends it.

use vstd::prelude::*;
use vstd::string::StringSliceAdditionalSpecFns;
use vstd::utf8::encode_utf8;

use crate::text::push_char;
use crate::torznab_cat::code_of;
use crate::torznab_cat::TorznabCategory;

verus! {

/// Whether percent-encoding keeps a byte as itself: ASCII alphanumerics
/// and `-`, `.`, `_`, `~`.
pub open spec fn is_unreserved(b: u8) -> bool {
    (48 <= b && b <= 57) || (65 <= b && b <= 90) || (97 <= b && b <= 122) || b == 45 || b == 46
        || b == 95 || b == 126
}

/// The uppercase hexadecimal digit of a value below 16.
pub open spec fn hex_char(n: u8) -> char {
    if n == 0 {
        '0'
    } else if n == 1 {
        '1'
    } else if n == 2 {
        '2'
    } else if n == 3 {
        '3'
    } else if n == 4 {
        '4'
    } else if n == 5 {
        '5'
    } else if n == 6 {
        '6'
    } else if n == 7 {
        '7'
    } else if n == 8 {
        '8'
    } else if n == 9 {
        '9'
    } else if n == 10 {
        'A'
    } else if n == 11 {
        'B'
    } else if n == 12 {
        'C'
    } else if n == 13 {
        'D'
    } else if n == 14 {
        'E'
    } else {
        'F'
    }
}

/// One byte percent-encoded: kept when unreserved, else `%` and two
/// uppercase hexadecimal digits.
pub open spec fn enc_byte(b: u8) -> Seq<char> {
    if is_unreserved(b) {
        seq![b as char]
    } else {
        seq!['%', hex_char(b / 16), hex_char(b % 16)]
    }
}

/// A byte string percent-encoded, byte for byte.
pub open spec fn percent_encode(bs: Seq<u8>) -> Seq<char>
    decreases bs.len(),
{
    if bs.len() == 0 {
        Seq::empty()
    } else {
        enc_byte(bs[0]) + percent_encode(bs.drop_first())
    }
}

/// Relies on `urlencoding::encode`: percent-encodes every byte of the
/// UTF-8 form except ASCII alphanumerics and `-`, `.`, `_`, `~`, with
/// uppercase hexadecimal digits.
#[verifier::external_body]
fn url_encode(s: &str) -> (r: String)
    ensures
        r@ == percent_encode(s.spec_bytes()),
{
    urlencoding::encode(s).into_owned()
}

/// The decimal digits of `n`, most significant first.
pub open spec fn dec_seq(n: u32) -> Seq<char>
    decreases n,
{
    if n < 10 {
        seq![hex_char(n as u8)]
    } else {
        dec_seq(n / 10).push(hex_char((n % 10) as u8))
    }
}

/// The character of one digit value.
fn digit_char(d: u8) -> (c: char)
    requires
        d < 10,
    ensures
        c == hex_char(d),
{
    if d == 0 {
        '0'
    } else if d == 1 {
        '1'
    } else if d == 2 {
        '2'
    } else if d == 3 {
        '3'
    } else if d == 4 {
        '4'
    } else if d == 5 {
        '5'
    } else if d == 6 {
        '6'
    } else if d == 7 {
        '7'
    } else if d == 8 {
        '8'
    } else {
        '9'
    }
}

/// Renders a code in decimal, exactly as [`dec_seq`] describes.
fn u32_to_decimal(n: u32) -> (r: String)
    ensures
        r@ == dec_seq(n),
    decreases n,
{
    if n < 10 {
        let mut s = String::new();
        push_char(&mut s, digit_char(n as u8));
        proof {
            assert(s@ =~= dec_seq(n));
        }
        s
    } else {
        let mut s = u32_to_decimal(n / 10);
        push_char(&mut s, digit_char((n % 10) as u8));
        s
    }
}

/// One `key=value` pair, each side percent-encoded.
pub open spec fn pair_chars(p: (String, String)) -> Seq<char> {
    percent_encode(encode_utf8(p.0@)) + seq!['='] + percent_encode(encode_utf8(p.1@))
}

/// The pairs, each `key=value`, joined with `&`.
pub open spec fn query_chars(ps: Seq<(String, String)>) -> Seq<char>
    decreases ps.len(),
{
    if ps.len() == 0 {
        Seq::empty()
    } else if ps.len() == 1 {
        pair_chars(ps[0])
    } else {
        pair_chars(ps[0]) + seq!['&'] + query_chars(ps.drop_first())
    }
}

/// Appending one more pair appends `&` and the pair, except onto an empty
/// list.
proof fn lemma_query_snoc(ps: Seq<(String, String)>, p: (String, String))
    ensures
        ps.len() == 0 ==> query_chars(ps.push(p)) == pair_chars(p),
        ps.len() > 0 ==> query_chars(ps.push(p)) == query_chars(ps) + seq!['&'] + pair_chars(p),
    decreases ps.len(),
{
    if ps.len() == 0 {
        assert(ps.push(p)[0] == p);
        assert(query_chars(ps.push(p)) == pair_chars(p));
    } else {
        lemma_query_snoc(ps.drop_first(), p);
        assert(ps.push(p).drop_first() =~= ps.drop_first().push(p));
        assert(ps.push(p)[0] == ps[0]);
        if ps.len() == 1 {
            assert(query_chars(ps.push(p)) == pair_chars(ps[0]) + seq!['&'] + pair_chars(p));
            assert(query_chars(ps) == pair_chars(ps[0]));
        } else {
            assert(query_chars(ps.push(p)) == pair_chars(ps[0]) + seq!['&'] + (query_chars(
                ps.drop_first(),
            ) + seq!['&'] + pair_chars(p)));
            assert(pair_chars(ps[0]) + seq!['&'] + (query_chars(ps.drop_first()) + seq!['&']
                + pair_chars(p)) =~= (pair_chars(ps[0]) + seq!['&'] + query_chars(ps.drop_first()))
                + seq!['&'] + pair_chars(p));
        }
    }
}

/// The search URL: the base as configured, then `?category=`, the
/// category's code in decimal, `&apikey=`, the key as given, `&`, and the
/// percent-encoded query pairs joined with `&`. Base and key enter the URL
/// unencoded, as the caller configured them.
pub open spec fn search_url_chars(
    base: Seq<char>,
    apikey: Seq<char>,
    category: TorznabCategory,
    ps: Seq<(String, String)>,
) -> Seq<char> {
    base + "?category="@ + dec_seq(code_of(category)) + "&apikey="@ + apikey + "&"@ + query_chars(
        ps,
    )
}

/// Builds the URL of one category-scoped search query, exactly as
/// [`search_url_chars`] describes.
pub fn build_search_url(
    base_url: &str,
    apikey: &str,
    category: TorznabCategory,
    qparams: &Vec<(String, String)>,
) -> (r: String)
    ensures
        r@ == search_url_chars(base_url@, apikey@, category, qparams@),
{
    let mut s = String::from_str(base_url);
    s.append("?category=");
    let code = u32_to_decimal(category.as_u32());
    s.append(code.as_str());
    s.append("&apikey=");
    s.append(apikey);
    s.append("&");
    let ghost head = base_url@ + "?category="@ + dec_seq(code_of(category)) + "&apikey="@
        + apikey@ + "&"@;
    proof {
        assert(s@ =~= head + query_chars(qparams@.take(0)));
    }
    let mut i: usize = 0;
    while i < qparams.len()
        invariant
            0 <= i <= qparams@.len(),
            head == base_url@ + "?category="@ + dec_seq(code_of(category)) + "&apikey="@ + apikey@
                + "&"@,
            s@ == head + query_chars(qparams@.take(i as int)),
        decreases qparams@.len() - i,
    {
        proof {
            assert(qparams@.take(i as int + 1) =~= qparams@.take(i as int).push(qparams@[i as int]));
            lemma_query_snoc(qparams@.take(i as int), qparams@[i as int]);
        }
        if i > 0 {
            push_char(&mut s, '&');
        }
        let ek = url_encode(qparams[i].0.as_str());
        s.append(ek.as_str());
        push_char(&mut s, '=');
        let ev = url_encode(qparams[i].1.as_str());
        s.append(ev.as_str());
        proof {
            assert(pair_chars(qparams@[i as int]) =~= percent_encode(
                encode_utf8(qparams@[i as int].0@),
            ) + seq!['='] + percent_encode(encode_utf8(qparams@[i as int].1@)));
            if i > 0 {
                assert(s@ =~= head + query_chars(qparams@.take(i as int + 1)));
            } else {
                assert(s@ =~= head + query_chars(qparams@.take(1)));
            }
        }
        i += 1;
    }
    proof {
        assert(qparams@.take(qparams@.len() as int) =~= qparams@);
    }
    s
}

/// The query parameters of one free-text search: a single `q` pair when a
/// term was given, none otherwise.
pub fn search_params(q: Option<&str>) -> (r: Vec<(String, String)>)
    ensures
        q is None ==> r@.len() == 0,
        q matches Some(term) ==> r@.len() == 1 && r@[0].0@ == "q"@ && r@[0].1@ == term@,
{
    let mut params: Vec<(String, String)> = Vec::new();
    if let Some(term) = q {
        params.push((String::from_str("q"), String::from_str(term)));
    }
    params
}

} // verus!
