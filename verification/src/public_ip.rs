use vstd::prelude::*;

use crate::errors::Error;

verus! {

/// A character the address pattern counts as a digit.
pub open spec fn is_ip_digit(c: char) -> bool {
    ('0' as int) <= c as int && c as int <= ('9' as int)
}

/// Length of the run of digits starting at position `p`.
pub open spec fn digit_run(s: Seq<char>, p: int) -> int
    decreases s.len() - p,
{
    if p < 0 || p >= s.len() || !is_ip_digit(s[p]) {
        0
    } else {
        1 + digit_run(s, p + 1)
    }
}

/// Position just past one `digits '.'` group starting at `p`, if the text
/// holds one there: one to three digits with a dot right after them.
pub open spec fn octet_dot_end(s: Seq<char>, p: int) -> Option<int> {
    let d = digit_run(s, p);
    if 1 <= d && d <= 3 && p + d < s.len() && s[p + d] == '.' {
        Option::Some(p + d + 1)
    } else {
        Option::None
    }
}

/// Length of the dotted-quad match starting at `p`, if the text holds one
/// there: three `digits '.'` groups, then one to three digits, each group
/// taking as many digits as it can.
pub open spec fn quad_len_at(s: Seq<char>, p: int) -> Option<int> {
    match octet_dot_end(s, p) {
        Option::None => Option::None,
        Option::Some(q1) => match octet_dot_end(s, q1) {
            Option::None => Option::None,
            Option::Some(q2) => match octet_dot_end(s, q2) {
                Option::None => Option::None,
                Option::Some(q3) => {
                    let d = digit_run(s, q3);
                    if d < 1 {
                        Option::None
                    } else {
                        Option::Some(q3 + (if d > 3 { 3 } else { d }) - p)
                    }
                },
            },
        },
    }
}

/// The first position at or after `p` where a dotted quad starts.
pub open spec fn first_quad_from(s: Seq<char>, p: int) -> Option<int>
    decreases s.len() - p,
{
    if p >= s.len() {
        Option::None
    } else if quad_len_at(s, p) is Some {
        Option::Some(p)
    } else {
        first_quad_from(s, p + 1)
    }
}

/// The address the discoverer extracts from a response body: the first
/// dotted-quad substring, or nothing when the body holds none.
pub open spec fn extracted_ip(s: Seq<char>) -> Option<Seq<char>> {
    match first_quad_from(s, 0) {
        Option::None => Option::None,
        Option::Some(p) => match quad_len_at(s, p) {
            Option::Some(l) => Option::Some(s.subrange(p, p + l)),
            Option::None => Option::None,
        },
    }
}

/// Run-time form of `is_ip_digit`.
fn is_digit_char(c: char) -> (b: bool)
    ensures
        b == is_ip_digit(c),
{
    let u = c as u32;
    48 <= u && u <= 57
}

/// Length of the digit run at `p`, as `digit_run` counts it.
fn digit_run_len(s: &str, p: usize) -> (d: usize)
    requires
        p <= s@.len(),
    ensures
        d == digit_run(s@, p as int),
        d <= s@.len() - p,
{
    let len = s.unicode_len();
    let mut q: usize = p;
    loop
        invariant
            p <= q <= len,
            len == s@.len(),
            digit_run(s@, p as int) == (q - p) + digit_run(s@, q as int),
        ensures
            p <= q <= len,
            digit_run(s@, p as int) == q - p,
        decreases len - q,
    {
        if q >= len {
            break;
        }
        let c = s.get_char(q);
        if !is_digit_char(c) {
            break;
        }
        q = q + 1;
    }
    q - p
}

/// Run-time form of `octet_dot_end`.
fn octet_dot(s: &str, p: usize) -> (r: Option<usize>)
    requires
        p <= s@.len(),
    ensures
        match r {
            Some(q) => octet_dot_end(s@, p as int) == Option::Some(q as int) && p < q <= s@.len(),
            None => octet_dot_end(s@, p as int) is None,
        },
{
    let len = s.unicode_len();
    let d = digit_run_len(s, p);
    if 1 <= d && d <= 3 && p + d < len {
        let c = s.get_char(p + d);
        if c == '.' {
            Some(p + d + 1)
        } else {
            None
        }
    } else {
        None
    }
}

/// Run-time form of `quad_len_at`.
fn quad_len_here(s: &str, p: usize) -> (r: Option<usize>)
    requires
        p <= s@.len(),
    ensures
        match r {
            Some(l) => quad_len_at(s@, p as int) == Option::Some(l as int) && 1 <= l && p + l
                <= s@.len(),
            None => quad_len_at(s@, p as int) is None,
        },
{
    let len = s.unicode_len();
    let q1 = match octet_dot(s, p) {
        Some(q) => q,
        None => {
            return None;
        },
    };
    let q2 = match octet_dot(s, q1) {
        Some(q) => q,
        None => {
            return None;
        },
    };
    let q3 = match octet_dot(s, q2) {
        Some(q) => q,
        None => {
            return None;
        },
    };
    let d = digit_run_len(s, q3);
    if d < 1 {
        None
    } else {
        let take = if d > 3 {
            3
        } else {
            d
        };
        Some(q3 + take - p)
    }
}

/// Scans the text left to right and hands back the first dotted-quad
/// substring, or nothing when there is none.
pub fn extract_ipv4(body: &str) -> (r: Option<String>)
    ensures
        match r {
            Some(ip) => extracted_ip(body@) == Option::Some(ip@),
            None => extracted_ip(body@) is None,
        },
{
    let len = body.unicode_len();
    let mut p: usize = 0;
    while p < len
        invariant
            p <= len,
            len == body@.len(),
            first_quad_from(body@, 0) == first_quad_from(body@, p as int),
        decreases len - p,
    {
        match quad_len_here(body, p) {
            Some(l) => {
                let sub = body.substring_char(p, p + l);
                return Some(sub.to_owned());
            },
            None => {},
        }
        p = p + 1;
    }
    None
}

/// The character for one decimal digit.
pub open spec fn digit_char(d: int) -> char {
    if d == 0 {
        '0'
    } else if d == 1 {
        '1'
    } else if d == 2 {
        '2'
    } else if d == 3 {
        '3'
    } else if d == 4 {
        '4'
    } else if d == 5 {
        '5'
    } else if d == 6 {
        '6'
    } else if d == 7 {
        '7'
    } else if d == 8 {
        '8'
    } else {
        '9'
    }
}

/// Decimal text of a non-negative number.
pub open spec fn dec_rep(n: int) -> Seq<char>
    decreases n,
{
    if n < 10 {
        seq![digit_char(n)]
    } else {
        dec_rep(n / 10) + seq![digit_char(n % 10)]
    }
}

/// Appends the character of one decimal digit.
fn push_digit(out: &mut String, d: u16)
    requires
        d < 10,
    ensures
        final(out)@ == old(out)@ + seq![digit_char(d as int)],
{
    let t: &str = if d == 0 {
        "0"
    } else if d == 1 {
        "1"
    } else if d == 2 {
        "2"
    } else if d == 3 {
        "3"
    } else if d == 4 {
        "4"
    } else if d == 5 {
        "5"
    } else if d == 6 {
        "6"
    } else if d == 7 {
        "7"
    } else if d == 8 {
        "8"
    } else {
        "9"
    };
    proof {
        reveal_strlit("0");
        reveal_strlit("1");
        reveal_strlit("2");
        reveal_strlit("3");
        reveal_strlit("4");
        reveal_strlit("5");
        reveal_strlit("6");
        reveal_strlit("7");
        reveal_strlit("8");
        reveal_strlit("9");
        assert(t@ =~= seq![digit_char(d as int)]);
    }
    out.append(t);
}

/// Appends the decimal text of `n`.
fn push_dec(out: &mut String, n: u16)
    ensures
        final(out)@ == old(out)@ + dec_rep(n as int),
    decreases n,
{
    if n >= 10 {
        push_dec(out, n / 10);
    }
    push_digit(out, n % 10);
    proof {
        if n < 10 {
            assert(n % 10 == n);
        } else {
            assert(old(out)@ + dec_rep((n / 10) as int) + seq![digit_char((n % 10) as int)] =~= old(
                out,
            )@ + dec_rep(n as int));
        }
    }
}

/// The error text for a response status the discoverer rejects.
pub open spec fn status_error_text(status: int) -> Seq<char> {
    "Status: "@ + dec_rep(status)
}

/// Builds the error for a rejected status, the status value spelled out in
/// the message.
fn status_error(status: u16) -> (e: Error)
    ensures
        e@ == status_error_text(status as int),
{
    let mut m = String::new();
    m.append("Status: ");
    push_dec(&mut m, status);
    proof {
        assert(Seq::<char>::empty() + "Status: "@ + dec_rep(status as int) =~= status_error_text(
            status as int,
        ));
    }
    Error { message: m }
}

/// Decides the discoverer's outcome from what the device control endpoint
/// answered: any status other than 200 is an error carrying the status
/// value, and otherwise the first dotted-quad substring of the body is the
/// discovered address; a body without one is an error. Never panics.
pub fn get_public_ip_address(status: u16, body: &str) -> (r: Result<String, Error>)
    ensures
        status != 200 ==> (r matches Err(e) && e@ == status_error_text(status as int)),
        status == 200 ==> match r {
            Ok(ip) => extracted_ip(body@) == Option::Some(ip@),
            Err(e) => extracted_ip(body@) is None && e@ == "No address in response"@,
        },
{
    if status != 200 {
        return Err(status_error(status));
    }
    match extract_ipv4(body) {
        Some(ip) => Ok(ip),
        None => Err(Error::new("No address in response")),
    }
}

/// The extraction returns the first dotted quad: where a match of length `l`
/// stands at position `p` and none starts earlier, the extraction returns
/// exactly that substring.
pub proof fn lemma_first_quad_is_extracted(s: Seq<char>, p: int, l: int)
    requires
        0 <= p,
        quad_len_at(s, p) == Option::Some(l),
        forall|q: int| 0 <= q < p ==> quad_len_at(s, q) is None,
    ensures
        extracted_ip(s) == Option::Some(s.subrange(p, p + l)),
{
    lemma_first_quad_from_reaches(s, 0, p);
}

/// A body without a dotted quad anywhere yields no address.
pub proof fn lemma_no_quad_no_ip(s: Seq<char>)
    requires
        forall|q: int| 0 <= q < s.len() ==> quad_len_at(s, q) is None,
    ensures
        extracted_ip(s) is None,
{
    lemma_first_quad_from_none(s, 0);
}

/// What it is for a piece of text to be one dotted quad, stated on its own:
/// four digit groups of one to three digits each, with dots between them,
/// and nothing else.
pub open spec fn dotted_quad_shape(t: Seq<char>, d1: int, d2: int, d3: int, d4: int) -> bool {
    &&& 1 <= d1 <= 3
    &&& 1 <= d2 <= 3
    &&& 1 <= d3 <= 3
    &&& 1 <= d4 <= 3
    &&& t.len() == d1 + d2 + d3 + d4 + 3
    &&& t[d1] == '.'
    &&& t[d1 + d2 + 1] == '.'
    &&& t[d1 + d2 + d3 + 2] == '.'
    &&& forall|k: int|
        0 <= k < t.len() && k != d1 && k != d1 + d2 + 1 && k != d1 + d2 + d3 + 2 ==> is_ip_digit(
            t[k],
        )
}

/// Whether the text is exactly one dotted quad.
pub open spec fn is_dotted_quad(t: Seq<char>) -> bool {
    exists|d1: int, d2: int, d3: int, d4: int| dotted_quad_shape(t, d1, d2, d3, d4)
}

proof fn lemma_digit_run_bound(s: Seq<char>, p: int)
    requires
        0 <= p <= s.len(),
    ensures
        0 <= digit_run(s, p),
        p + digit_run(s, p) <= s.len(),
    decreases s.len() - p,
{
    if p < s.len() && is_ip_digit(s[p]) {
        lemma_digit_run_bound(s, p + 1);
    }
}

proof fn lemma_digit_run_digits(s: Seq<char>, p: int, k: int)
    requires
        0 <= p,
        0 <= k < digit_run(s, p),
    ensures
        p + k < s.len(),
        is_ip_digit(s[p + k]),
    decreases k,
{
    if k > 0 {
        lemma_digit_run_digits(s, p + 1, k - 1);
    }
}

proof fn lemma_digit_run_exact(s: Seq<char>, p: int, d: int)
    requires
        0 <= p,
        0 <= d,
        p + d <= s.len(),
        forall|k: int| 0 <= k < d ==> #[trigger] is_ip_digit(s[p + k]),
        p + d == s.len() || !is_ip_digit(s[p + d]),
    ensures
        digit_run(s, p) == d,
    decreases d,
{
    if d == 0 {
    } else {
        assert(is_ip_digit(s[p + 0]));
        assert forall|k: int| 0 <= k < d - 1 implies #[trigger] is_ip_digit(s[(p + 1) + k]) by {
            assert(is_ip_digit(s[p + (k + 1)]));
        }
        lemma_digit_run_exact(s, p + 1, d - 1);
    }
}

/// The extraction hands back nothing but a dotted quad, and one that stands
/// in the scanned text.
pub proof fn lemma_extracted_is_dotted_quad(s: Seq<char>, ip: Seq<char>)
    requires
        extracted_ip(s) == Option::Some(ip),
    ensures
        is_dotted_quad(ip),
        exists|a: int|
            0 <= a && a + ip.len() <= s.len() && #[trigger] s.subrange(a, a + ip.len()) == ip,
{
    let p = match first_quad_from(s, 0) {
        Option::Some(p) => p,
        Option::None => 0,
    };
    lemma_first_quad_from_is_match(s, 0);
    let l = match quad_len_at(s, p) {
        Option::Some(l) => l,
        Option::None => 0,
    };
    lemma_quad_match_shape(s, p, l);
    assert(0 <= p && p + ip.len() <= s.len() && s.subrange(p, p + ip.len()) == ip);
}

proof fn lemma_quad_match_shape(s: Seq<char>, p: int, l: int)
    requires
        0 <= p,
        quad_len_at(s, p) == Option::Some(l),
    ensures
        0 < l,
        p + l <= s.len(),
        is_dotted_quad(s.subrange(p, p + l)),
{
    let d1 = digit_run(s, p);
    let q1 = p + d1 + 1;
    let d2 = digit_run(s, q1);
    let q2 = q1 + d2 + 1;
    let d3 = digit_run(s, q2);
    let q3 = q2 + d3 + 1;
    let dr = digit_run(s, q3);
    let d4 = if dr > 3 { 3int } else { dr };
    lemma_digit_run_bound(s, q3);
    let t = s.subrange(p, p + l);
    assert forall|k: int|
        0 <= k < t.len() && k != d1 && k != d1 + d2 + 1 && k != d1 + d2 + d3 + 2 implies is_ip_digit(
        t[k],
    ) by {
        if k < d1 {
            lemma_digit_run_digits(s, p, k);
        } else if k < d1 + d2 + 1 {
            lemma_digit_run_digits(s, q1, k - (d1 + 1));
        } else if k < d1 + d2 + d3 + 2 {
            lemma_digit_run_digits(s, q2, k - (d1 + d2 + 2));
        } else {
            lemma_digit_run_digits(s, q3, k - (d1 + d2 + d3 + 3));
        }
    }
    assert(dotted_quad_shape(t, d1, d2, d3, d4));
}

proof fn lemma_first_quad_from_is_match(s: Seq<char>, a: int)
    requires
        0 <= a,
    ensures
        first_quad_from(s, a) matches Option::Some(p0) ==> a <= p0 && quad_len_at(s, p0) is Some,
    decreases s.len() - a,
{
    if a < s.len() && !(quad_len_at(s, a) is Some) {
        lemma_first_quad_from_is_match(s, a + 1);
    }
}

proof fn lemma_first_quad_from_finds(s: Seq<char>, a: int, p: int)
    requires
        0 <= a <= p,
        quad_len_at(s, p) is Some,
    ensures
        first_quad_from(s, a) is Some,
    decreases p - a,
{
    assert(p < s.len());
    if a < p && !(quad_len_at(s, a) is Some) {
        lemma_first_quad_from_finds(s, a + 1, p);
    }
}

/// A text that holds a dotted quad anywhere inside it yields an address:
/// the extraction cannot miss one.
pub proof fn lemma_contained_quad_is_found(s: Seq<char>, i: int, j: int)
    requires
        0 <= i <= j <= s.len(),
        is_dotted_quad(s.subrange(i, j)),
    ensures
        extracted_ip(s) is Some,
{
    let t = s.subrange(i, j);
    let (d1, d2, d3, d4) = choose|d1: int, d2: int, d3: int, d4: int|
        dotted_quad_shape(t, d1, d2, d3, d4);
    let p = i + d1 - 1;
    assert(t[d1 - 1] == s[p]);
    assert(is_ip_digit(s[p]));
    assert(t[d1] == s[p + 1]);
    lemma_digit_run_exact(s, p, 1);
    assert(octet_dot_end(s, p) == Option::Some(p + 2));
    let q1 = i + d1 + 1;
    assert forall|k: int| 0 <= k < d2 implies #[trigger] is_ip_digit(s[q1 + k]) by {
        assert(t[d1 + 1 + k] == s[q1 + k]);
    }
    assert(t[d1 + d2 + 1] == s[q1 + d2]);
    lemma_digit_run_exact(s, q1, d2);
    assert(octet_dot_end(s, q1) == Option::Some(q1 + d2 + 1));
    let q2 = q1 + d2 + 1;
    assert forall|k: int| 0 <= k < d3 implies #[trigger] is_ip_digit(s[q2 + k]) by {
        assert(t[d1 + d2 + 2 + k] == s[q2 + k]);
    }
    assert(t[d1 + d2 + d3 + 2] == s[q2 + d3]);
    lemma_digit_run_exact(s, q2, d3);
    assert(octet_dot_end(s, q2) == Option::Some(q2 + d3 + 1));
    let q3 = q2 + d3 + 1;
    assert(t[d1 + d2 + d3 + 3] == s[q3]);
    assert(is_ip_digit(s[q3]));
    assert(q3 + 1 <= s.len());
    lemma_digit_run_bound(s, q3 + 1);
    assert(digit_run(s, q3) >= 1);
    assert(quad_len_at(s, p) is Some);
    lemma_first_quad_from_finds(s, 0, p);
    lemma_first_quad_from_is_match(s, 0);
}

proof fn lemma_first_quad_from_reaches(s: Seq<char>, a: int, p: int)
    requires
        0 <= a <= p,
        quad_len_at(s, p) is Some,
        forall|q: int| a <= q < p ==> quad_len_at(s, q) is None,
    ensures
        first_quad_from(s, a) == Option::Some(p),
    decreases p - a,
{
    assert(p < s.len());
    if a < p {
        lemma_first_quad_from_reaches(s, a + 1, p);
    }
}

proof fn lemma_first_quad_from_none(s: Seq<char>, a: int)
    requires
        0 <= a,
        forall|q: int| a <= q < s.len() ==> quad_len_at(s, q) is None,
    ensures
        first_quad_from(s, a) is None,
    decreases s.len() - a,
{
    if a < s.len() {
        lemma_first_quad_from_none(s, a + 1);
    }
}

} // verus!
