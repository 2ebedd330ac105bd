//! Conversion between the library's request/response model and the host's
//! transport representation.
use vstd::prelude::*;
use vstd::utf8::valid_utf8;

use crate::model::{HostMethod, HostScheme};

verus! {

/// Smallest status code the generic response model accepts.
pub const STATUS_MIN: u16 = 100;

/// Largest status code the generic response model accepts.
pub const STATUS_MAX: u16 = 999;

/// Whether `code` is a legal HTTP status code.
pub open spec fn status_is_legal(code: u16) -> bool {
    STATUS_MIN <= code && code <= STATUS_MAX
}

/// The token that names a host method.
pub open spec fn method_token(m: HostMethod) -> Seq<char> {
    match m {
        HostMethod::Options => "OPTIONS"@,
        HostMethod::Get => "GET"@,
        HostMethod::Post => "POST"@,
        HostMethod::Put => "PUT"@,
        HostMethod::Delete => "DELETE"@,
        HostMethod::Head => "HEAD"@,
        HostMethod::Trace => "TRACE"@,
        HostMethod::Connect => "CONNECT"@,
        HostMethod::Patch => "PATCH"@,
        HostMethod::Other(s) => s@,
    }
}

/// Whether `t` is one of the nine standard method tokens (case-sensitive).
pub open spec fn is_standard_method(t: Seq<char>) -> bool {
    t == "OPTIONS"@ || t == "GET"@ || t == "POST"@ || t == "PUT"@ || t == "DELETE"@ || t
        == "HEAD"@ || t == "TRACE"@ || t == "CONNECT"@ || t == "PATCH"@
}

/// ASCII lower-casing of one character; every other character is kept.
pub open spec fn ascii_lower(c: char) -> char {
    if 'A' <= c && c <= 'Z' {
        ((c as u32) + 32) as char
    } else {
        c
    }
}

/// Whether a scheme reads `https`, ignoring ASCII case.
pub open spec fn is_https(t: Seq<char>) -> bool {
    t.len() == 5 && ascii_lower(t[0]) == 'h' && ascii_lower(t[1]) == 't' && ascii_lower(t[2])
        == 't' && ascii_lower(t[3]) == 'p' && ascii_lower(t[4]) == 's'
}

/// The host scheme for an optional scheme: secure for `https` in any case,
/// plain for everything else, absence included.
pub open spec fn scheme_of(s: Option<Seq<char>>) -> HostScheme {
    match s {
        Some(t) => if is_https(t) {
            HostScheme::Https
        } else {
            HostScheme::Http
        },
        None => HostScheme::Http,
    }
}

/// A generic header multimap: ordered (key, raw value) pairs.
pub type HeaderPairs = Seq<(Seq<char>, Seq<u8>)>;

/// The host's header form: one entry per key, with the key's values in order.
pub type HostHeaders = Seq<(Seq<char>, Seq<Seq<u8>>)>;

/// The distinct keys of `hs`, in order of first appearance.
pub open spec fn key_order(hs: HeaderPairs) -> Seq<Seq<char>>
    decreases hs.len(),
{
    if hs.len() == 0 {
        seq![]
    } else {
        let prev = key_order(hs.drop_last());
        if prev.contains(hs.last().0) {
            prev
        } else {
            prev.push(hs.last().0)
        }
    }
}

/// Whether a pair belongs to key `k` and carries a UTF-8 value.
pub open spec fn kept_for(k: Seq<char>) -> spec_fn((Seq<char>, Seq<u8>)) -> bool {
    |p: (Seq<char>, Seq<u8>)| p.0 == k && valid_utf8(p.1)
}

/// The values of a sequence of pairs.
pub open spec fn values(hs: HeaderPairs) -> Seq<Seq<u8>> {
    hs.map_values(|p: (Seq<char>, Seq<u8>)| p.1)
}

/// Whether a pair belongs to key `k`.
pub open spec fn key_is(k: Seq<char>) -> spec_fn((Seq<char>, Seq<u8>)) -> bool {
    |p: (Seq<char>, Seq<u8>)| p.0 == k
}

/// The UTF-8 values of key `k` in `hs`, in insertion order.
pub open spec fn values_of(hs: HeaderPairs, k: Seq<char>) -> Seq<Seq<u8>> {
    values(hs.filter(kept_for(k)))
}

/// The host form of a header multimap.
pub open spec fn host_headers(hs: HeaderPairs) -> HostHeaders {
    key_order(hs).map_values(|k: Seq<char>| (k, values_of(hs, k)))
}

/// Relies on std::str::from_utf8: it succeeds exactly on well-formed UTF-8.
#[verifier::external_body]
fn utf8_valid(b: &[u8]) -> (r: bool)
    ensures
        r == valid_utf8(b@),
{
    std::str::from_utf8(b).is_ok()
}

/// Checks a host status code against the legal range.
pub fn check_status(code: u16) -> (r: bool)
    ensures
        r == status_is_legal(code),
{
    STATUS_MIN <= code && code <= STATUS_MAX
}

fn token_is(t: &String, lit: &str) -> (r: bool)
    ensures
        r == (t@ == lit@),
{
    let owned = lit.to_owned();
    *t == owned
}

proof fn lemma_method_tokens_differ()
    ensures
        "OPTIONS"@ != "GET"@,
        "OPTIONS"@ != "POST"@,
        "OPTIONS"@ != "PUT"@,
        "OPTIONS"@ != "DELETE"@,
        "OPTIONS"@ != "HEAD"@,
        "OPTIONS"@ != "TRACE"@,
        "OPTIONS"@ != "CONNECT"@,
        "OPTIONS"@ != "PATCH"@,
        "GET"@ != "POST"@,
        "GET"@ != "PUT"@,
        "GET"@ != "DELETE"@,
        "GET"@ != "HEAD"@,
        "GET"@ != "TRACE"@,
        "GET"@ != "CONNECT"@,
        "GET"@ != "PATCH"@,
        "POST"@ != "PUT"@,
        "POST"@ != "DELETE"@,
        "POST"@ != "HEAD"@,
        "POST"@ != "TRACE"@,
        "POST"@ != "CONNECT"@,
        "POST"@ != "PATCH"@,
        "PUT"@ != "DELETE"@,
        "PUT"@ != "HEAD"@,
        "PUT"@ != "TRACE"@,
        "PUT"@ != "CONNECT"@,
        "PUT"@ != "PATCH"@,
        "DELETE"@ != "HEAD"@,
        "DELETE"@ != "TRACE"@,
        "DELETE"@ != "CONNECT"@,
        "DELETE"@ != "PATCH"@,
        "HEAD"@ != "TRACE"@,
        "HEAD"@ != "CONNECT"@,
        "HEAD"@ != "PATCH"@,
        "TRACE"@ != "CONNECT"@,
        "TRACE"@ != "PATCH"@,
        "CONNECT"@ != "PATCH"@,
{
    reveal_strlit("OPTIONS");
    reveal_strlit("GET");
    reveal_strlit("POST");
    reveal_strlit("PUT");
    reveal_strlit("DELETE");
    reveal_strlit("HEAD");
    reveal_strlit("TRACE");
    reveal_strlit("CONNECT");
    reveal_strlit("PATCH");
    assert("OPTIONS"@.len() == 7 && "GET"@.len() == 3 && "POST"@.len() == 4 && "PUT"@.len() == 3
        && "DELETE"@.len() == 6 && "HEAD"@.len() == 4 && "TRACE"@.len() == 5 && "CONNECT"@.len()
        == 7 && "PATCH"@.len() == 5);
    assert("GET"@[0] != "PUT"@[0]);
    assert("POST"@[0] != "HEAD"@[0]);
    assert("TRACE"@[0] != "PATCH"@[0]);
    assert("OPTIONS"@[0] != "CONNECT"@[0]);
}

/// Maps a method token to the host's method: an exact match of a standard
/// token gives its variant, any other token is carried verbatim.
pub fn method_to_host(t: &String) -> (r: HostMethod)
    ensures
        method_token(r) == t@,
        r is Other <==> !is_standard_method(t@),
        t@ == "OPTIONS"@ ==> r is Options,
        t@ == "GET"@ ==> r is Get,
        t@ == "POST"@ ==> r is Post,
        t@ == "PUT"@ ==> r is Put,
        t@ == "DELETE"@ ==> r is Delete,
        t@ == "HEAD"@ ==> r is Head,
        t@ == "TRACE"@ ==> r is Trace,
        t@ == "CONNECT"@ ==> r is Connect,
        t@ == "PATCH"@ ==> r is Patch,
        !is_standard_method(t@) ==> r == HostMethod::Other(*t),
{
    proof {
        lemma_method_tokens_differ();
    }
    if token_is(t, "OPTIONS") {
        HostMethod::Options
    } else if token_is(t, "GET") {
        HostMethod::Get
    } else if token_is(t, "POST") {
        HostMethod::Post
    } else if token_is(t, "PUT") {
        HostMethod::Put
    } else if token_is(t, "DELETE") {
        HostMethod::Delete
    } else if token_is(t, "HEAD") {
        HostMethod::Head
    } else if token_is(t, "TRACE") {
        HostMethod::Trace
    } else if token_is(t, "CONNECT") {
        HostMethod::Connect
    } else if token_is(t, "PATCH") {
        HostMethod::Patch
    } else {
        HostMethod::Other(t.clone())
    }
}

fn lower_byte(b: u8) -> (r: u8)
    ensures
        r == ascii_lower(b as char) as u8,
{
    if 65 <= b && b <= 90 {
        b + 32
    } else {
        b
    }
}

/// Whether a scheme string reads `https`, ignoring ASCII case.
pub fn scheme_is_https(s: &String) -> (r: bool)
    ensures
        r == is_https(s@),
{
    if !s.is_ascii() {
        proof {
            if is_https(s@) {
                assert forall|i: int| 0 <= i < s@.len() implies (s@[i] as u32) < 128 by {
                    assert(ascii_lower(s@[i]) as u32 <= 116);
                }
                assert(vstd::utf8::is_ascii_chars(s@));
            }
        }
        return false;
    }
    let st = s.as_str();
    let b = st.as_bytes();
    proof {
        vstd::string::is_ascii_spec_bytes(st);
    }
    if b.len() != 5 {
        return false;
    }
    lower_byte(b[0]) == 104 && lower_byte(b[1]) == 116 && lower_byte(b[2]) == 116 && lower_byte(
        b[3],
    ) == 112 && lower_byte(b[4]) == 115
}

/// Maps an optional URI scheme to the host scheme. The mapping is lossy on
/// purpose: only `https` (any ASCII case) is secure.
pub fn scheme_to_host(s: &Option<String>) -> (r: HostScheme)
    ensures
        r == scheme_of(s.deep_view()),
{
    match s {
        Some(t) => if scheme_is_https(t) {
            HostScheme::Https
        } else {
            HostScheme::Http
        },
        None => HostScheme::Http,
    }
}

/// A copy of a byte vector.
pub(crate) fn copy_bytes(b: &[u8]) -> (r: Vec<u8>)
    ensures
        r@ == b@,
{
    let mut r: Vec<u8> = Vec::new();
    let mut i: usize = 0;
    while i < b.len()
        invariant
            i <= b.len(),
            r@ == b@.take(i as int),
        decreases b.len() - i,
    {
        r.push(b[i]);
        i = i + 1;
        assert(r@ =~= b@.take(i as int));
    }
    assert(r@ =~= b@);
    r
}

pub(crate) proof fn lemma_bytes_deep_view(v: Vec<u8>)
    ensures
        v.deep_view() == v@,
{
    assert(v.deep_view() =~= v@);
}

fn contains_key(keys: &Vec<String>, k: &String) -> (r: bool)
    ensures
        r == keys.deep_view().contains(k@),
{
    let mut i: usize = 0;
    while i < keys.len()
        invariant
            i <= keys.len(),
            forall|j: int| 0 <= j < i ==> keys.deep_view()[j] != k@,
        decreases keys.len() - i,
    {
        if keys[i] == *k {
            assert(keys.deep_view()[i as int] == k@);
            return true;
        }
        i = i + 1;
    }
    false
}

/// The distinct header keys, in order of first appearance.
pub fn header_keys(hs: &Vec<(String, Vec<u8>)>) -> (r: Vec<String>)
    ensures
        r.deep_view() == key_order(hs.deep_view()),
{
    let ghost s = hs.deep_view();
    let mut r: Vec<String> = Vec::new();
    let mut i: usize = 0;
    assert(s.take(0) =~= seq![]);
    assert(r.deep_view() =~= seq![]);
    while i < hs.len()
        invariant
            i <= hs.len(),
            s == hs.deep_view(),
            r.deep_view() == key_order(s.take(i as int)),
        decreases hs.len() - i,
    {
        let key = &hs[i].0;
        assert(s.take(i + 1).drop_last() =~= s.take(i as int));
        assert(s.take(i + 1).last() == s[i as int]);
        if !contains_key(&r, key) {
            let ghost before = r.deep_view();
            r.push(key.clone());
            assert(r.deep_view() =~= before.push(key@));
        }
        i = i + 1;
    }
    assert(s.take(hs.len() as int) =~= s);
    r
}

/// The UTF-8 values stored under `k`, in insertion order; other values of
/// `k` are left out.
pub fn header_values(hs: &Vec<(String, Vec<u8>)>, k: &String) -> (r: Vec<Vec<u8>>)
    ensures
        r.deep_view() == values_of(hs.deep_view(), k@),
{
    let ghost s = hs.deep_view();
    let mut r: Vec<Vec<u8>> = Vec::new();
    let mut i: usize = 0;
    assert(s.take(0) =~= seq![]);
    assert(values_of(s.take(0), k@) =~= seq![]);
    assert(r.deep_view() =~= seq![]);
    while i < hs.len()
        invariant
            i <= hs.len(),
            s == hs.deep_view(),
            r.deep_view() == values_of(s.take(i as int), k@),
        decreases hs.len() - i,
    {
        let pair = &hs[i];
        let ghost t = s.take(i + 1);
        assert(t.drop_last() =~= s.take(i as int));
        assert(t.last() == s[i as int]);
        proof {
            lemma_bytes_deep_view(pair.1);
        }
        let ghost prev = s.take(i as int).filter(kept_for(k@));
        proof {
            reveal(Seq::filter);
        }
        if pair.0 == *k && utf8_valid(pair.1.as_slice()) {
            let ghost before = r.deep_view();
            let v = copy_bytes(pair.1.as_slice());
            r.push(v);
            proof {
                lemma_bytes_deep_view(v);
                assert(t.filter(kept_for(k@)) == prev.push(t.last()));
                assert(r.deep_view() =~= before.push(v@));
                assert(values_of(t, k@) =~= values_of(s.take(i as int), k@).push(v@));
            }
        } else {
            assert(t.filter(kept_for(k@)) == prev);
        }
        i = i + 1;
    }
    assert(s.take(hs.len() as int) =~= s);
    r
}

/// Converts a header multimap into the host's form: one entry per distinct
/// key, in order of first appearance, holding that key's UTF-8 values in
/// insertion order. Values that are not UTF-8 are dropped without error.
pub fn headers_to_host(hs: &Vec<(String, Vec<u8>)>) -> (r: Vec<(String, Vec<Vec<u8>>)>)
    ensures
        r.deep_view() == host_headers(hs.deep_view()),
{
    let keys = header_keys(hs);
    let ghost ks = keys.deep_view();
    let mut r: Vec<(String, Vec<Vec<u8>>)> = Vec::new();
    let mut j: usize = 0;
    while j < keys.len()
        invariant
            j <= keys.len(),
            ks == keys.deep_view(),
            ks == key_order(hs.deep_view()),
            r.deep_view() =~= host_headers(hs.deep_view()).take(j as int),
            host_headers(hs.deep_view()).len() == ks.len(),
        decreases keys.len() - j,
    {
        let vals = header_values(hs, &keys[j]);
        let ghost before = r.deep_view();
        let key = keys[j].clone();
        assert(key@ == ks[j as int]);
        let ghost entry = (key@, vals.deep_view());
        r.push((key, vals));
        assert(r.deep_view() =~= before.push(entry));
        assert(host_headers(hs.deep_view())[j as int] == entry);
        assert(r.deep_view() =~= host_headers(hs.deep_view()).take(j + 1));
        j = j + 1;
    }
    r
}

/// Every value stored under key `k`, in insertion order.
pub open spec fn all_values_of(hs: HeaderPairs, k: Seq<char>) -> Seq<Seq<u8>> {
    values(hs.filter(key_is(k)))
}

/// Whether some pair of `hs` has key `k`.
pub open spec fn has_key(hs: HeaderPairs, k: Seq<char>) -> bool {
    exists|i: int| 0 <= i < hs.len() && hs[i].0 == k
}

proof fn lemma_key_order(hs: HeaderPairs)
    ensures
        key_order(hs).no_duplicates(),
        forall|k: Seq<char>| key_order(hs).contains(k) <==> has_key(hs, k),
    decreases hs.len(),
{
    if hs.len() > 0 {
        let init = hs.drop_last();
        lemma_key_order(init);
        let prev = key_order(init);
        let last = hs.last().0;
        assert forall|k: Seq<char>| has_key(hs, k) <==> has_key(init, k) || k == last by {
            if has_key(hs, k) {
                let i = choose|i: int| 0 <= i < hs.len() && hs[i].0 == k;
                if i < hs.len() - 1 {
                    assert(init[i] == hs[i]);
                }
            }
            if has_key(init, k) {
                let i = choose|i: int| 0 <= i < init.len() && init[i].0 == k;
                assert(hs[i] == init[i]);
            }
            if k == last {
                assert(hs[hs.len() - 1].0 == k);
            }
        }
        if !prev.contains(last) {
            let next = prev.push(last);
            assert forall|k: Seq<char>| next.contains(k) <==> prev.contains(k) || k == last by {
                if next.contains(k) {
                    let j = choose|j: int| 0 <= j < next.len() && next[j] == k;
                    if j < prev.len() {
                        assert(prev[j] == k);
                    }
                }
                if prev.contains(k) {
                    let j = choose|j: int| 0 <= j < prev.len() && prev[j] == k;
                    assert(next[j] == k);
                }
                if k == last {
                    assert(next[next.len() - 1] == k);
                }
            }
        }
    }
}

proof fn lemma_all_valid_values(hs: HeaderPairs, k: Seq<char>)
    requires
        forall|i: int| 0 <= i < hs.len() ==> valid_utf8(#[trigger] hs[i].1),
    ensures
        hs.filter(kept_for(k)) == hs.filter(key_is(k)),
        values_of(hs, k) == all_values_of(hs, k),
    decreases hs.len(),
{
    reveal(Seq::filter);
    if hs.len() > 0 {
        let init = hs.drop_last();
        assert forall|i: int| 0 <= i < init.len() implies valid_utf8(#[trigger] init[i].1) by {
            assert(init[i] == hs[i]);
        }
        lemma_all_valid_values(init, k);
        assert(valid_utf8(hs[hs.len() - 1].1));
        assert(hs.filter(kept_for(k)) == hs.filter(key_is(k)));
    }
}

/// Headers survive the trip to the host form and back: where every value is
/// UTF-8, the host form holds one entry per distinct key, for exactly the
/// keys of the request, and each entry holds every value of its key, in
/// order (so the same multiset of values).
pub proof fn lemma_header_round_trip(hs: HeaderPairs)
    requires
        forall|i: int| 0 <= i < hs.len() ==> valid_utf8(#[trigger] hs[i].1),
    ensures
        forall|i: int, j: int|
            0 <= i < j < host_headers(hs).len() ==> host_headers(hs)[i].0 != host_headers(hs)[j].0,
        forall|k: Seq<char>|
            has_key(hs, k) <==> exists|j: int|
                0 <= j < host_headers(hs).len() && host_headers(hs)[j].0 == k,
        forall|j: int|
            0 <= j < host_headers(hs).len() ==> host_headers(hs)[j].1 == all_values_of(
                hs,
                #[trigger] host_headers(hs)[j].0,
            ),
        forall|j: int|
            0 <= j < host_headers(hs).len() ==> host_headers(hs)[j].1.to_multiset()
                == all_values_of(hs, #[trigger] host_headers(hs)[j].0).to_multiset(),
{
    lemma_key_order(hs);
    let ko = key_order(hs);
    let hh = host_headers(hs);
    assert forall|i: int, j: int| 0 <= i < j < hh.len() implies hh[i].0 != hh[j].0 by {
        assert(hh[i].0 == ko[i] && hh[j].0 == ko[j]);
    }
    assert forall|k: Seq<char>|
        has_key(hs, k) <==> exists|j: int| 0 <= j < hh.len() && hh[j].0 == k by {
        if has_key(hs, k) {
            assert(ko.contains(k));
            let j = choose|j: int| 0 <= j < ko.len() && ko[j] == k;
            assert(hh[j].0 == k);
        }
        if exists|j: int| 0 <= j < hh.len() && hh[j].0 == k {
            let j = choose|j: int| 0 <= j < hh.len() && hh[j].0 == k;
            assert(ko[j] == k);
            assert(ko.contains(k));
        }
    }
    assert forall|j: int| 0 <= j < hh.len() implies hh[j].1 == all_values_of(
        hs,
        #[trigger] hh[j].0,
    ) by {
        lemma_all_valid_values(hs, ko[j]);
        assert(hh[j] == (ko[j], values_of(hs, ko[j])));
    }
}

proof fn lemma_filter_skips(hs: HeaderPairs, i: int, k: Seq<char>)
    requires
        0 <= i < hs.len(),
        !valid_utf8(hs[i].1),
    ensures
        hs.remove(i).filter(kept_for(k)) == hs.filter(kept_for(k)),
    decreases hs.len(),
{
    reveal(Seq::filter);
    if i == hs.len() - 1 {
        assert(hs.remove(i) =~= hs.drop_last());
    } else {
        let r = hs.remove(i);
        assert(r.drop_last() =~= hs.drop_last().remove(i));
        assert(r.last() == hs.last());
        lemma_filter_skips(hs.drop_last(), i, k);
    }
}

/// A value that is not UTF-8 is dropped without trace: removing it from the
/// request leaves the values of every key in the host form unchanged.
pub proof fn lemma_invalid_value_dropped(hs: HeaderPairs, i: int, k: Seq<char>)
    requires
        0 <= i < hs.len(),
        !valid_utf8(hs[i].1),
    ensures
        values_of(hs.remove(i), k) == values_of(hs, k),
{
    lemma_filter_skips(hs, i, k);
}

} // verus!
