//! The text of the HTTP messages that the agent transport reads and writes:
//! the parts of a request, the answer to a request, and what a client takes
//! from a response.
use crate::contract::{closed_lines, lines_of, pending_line, split_lines, string_views};
use crate::protocol::{http_reason, reason_spec};
use crate::text::{chars_of, decimal, decimal_string, is_whitespace, is_ws, push_char, str_eq, string_of};
use vstd::prelude::*;

verus! {

// ----- words -----
/// The characters after the last whitespace character of `s`.
pub open spec fn pending_word(s: Seq<char>) -> Seq<char>
    decreases s.len(),
{
    if s.len() == 0 {
        s
    } else if is_ws(s.last()) {
        Seq::empty()
    } else {
        pending_word(s.drop_last()).push(s.last())
    }
}

/// The words of `s` that a whitespace character has closed.
pub open spec fn closed_words(s: Seq<char>) -> Seq<Seq<char>>
    decreases s.len(),
{
    if s.len() == 0 {
        Seq::empty()
    } else if is_ws(s.last()) && pending_word(s.drop_last()).len() > 0 {
        closed_words(s.drop_last()).push(pending_word(s.drop_last()))
    } else {
        closed_words(s.drop_last())
    }
}

/// The words of `s` as `str::split_whitespace` yields them: the non-empty
/// runs of characters between whitespace.
pub open spec fn words(s: Seq<char>) -> Seq<Seq<char>> {
    if pending_word(s).len() > 0 {
        closed_words(s).push(pending_word(s))
    } else {
        closed_words(s)
    }
}

/// The words of `s`.
pub fn split_words(s: &str) -> (r: Vec<String>)
    ensures
        string_views(r@) == words(s@),
{
    let v = chars_of(s);
    let n = v.len();
    let mut done: Vec<String> = Vec::new();
    let mut cur = String::new();
    let mut i: usize = 0;
    while i < n
        invariant
            n == v@.len(),
            v@ == s@,
            i <= n,
            string_views(done@) == closed_words(v@.subrange(0, i as int)),
            cur@ == pending_word(v@.subrange(0, i as int)),
        decreases n - i,
    {
        let c = v[i];
        let ghost pre = v@.subrange(0, i as int);
        assert(v@.subrange(0, i + 1).drop_last() =~= pre);
        assert(v@.subrange(0, i + 1).last() == c);
        if is_whitespace(c) {
            if cur.as_str().unicode_len() > 0 {
                let ghost before = string_views(done@);
                let ghost last = cur@;
                done.push(cur);
                assert(string_views(done@) =~= before.push(last));
            }
            cur = String::new();
        } else {
            push_char(&mut cur, c);
        }
        i = i + 1;
    }
    assert(v@.subrange(0, n as int) =~= v@);
    if cur.as_str().unicode_len() > 0 {
        let ghost before = string_views(done@);
        let ghost last = cur@;
        done.push(cur);
        assert(string_views(done@) =~= before.push(last));
    }
    done
}

/// The `k`-th of `w`, or `default` when there is none.
pub open spec fn nth_or(w: Seq<Seq<char>>, k: int, default: Seq<char>) -> Seq<char> {
    if 0 <= k < w.len() {
        w[k]
    } else {
        default
    }
}

fn nth_or_exec(w: &Vec<String>, k: usize, default: &str) -> (r: String)
    ensures
        r@ == nth_or(string_views(w@), k as int, default@),
{
    if k < w.len() {
        w[k].clone()
    } else {
        default.to_owned()
    }
}

/// The first line of `s`, empty when `s` has none.
pub open spec fn first_line(s: Seq<char>) -> Seq<char> {
    nth_or(lines_of(s), 0, Seq::empty())
}

fn first_line_of(s: &str) -> (r: String)
    ensures
        r@ == first_line(s@),
{
    let lines = split_lines(s);
    proof {
        reveal_strlit("");
    }
    nth_or_exec(&lines, 0, "")
}

// ----- finding a separator -----
/// Whether `p` occurs in `s` at position `i`.
pub open spec fn occurs_at(s: Seq<char>, p: Seq<char>, i: int) -> bool {
    0 <= i && i + p.len() <= s.len() && s.subrange(i, i + p.len()) == p
}

/// The first position at or after `from` where the non-empty `p` occurs in `s`.
pub open spec fn find_from(s: Seq<char>, p: Seq<char>, from: int) -> Option<int>
    decreases s.len() - from,
{
    if from < 0 || p.len() == 0 || from + p.len() > s.len() {
        None
    } else if occurs_at(s, p, from) {
        Some(from)
    } else {
        find_from(s, p, from + 1)
    }
}

fn occurs_at_exec(v: &Vec<char>, p: &Vec<char>, i: usize) -> (r: bool)
    requires
        i + p@.len() <= v@.len(),
    ensures
        r == occurs_at(v@, p@, i as int),
{
    let n = v.len();
    let m = p.len();
    let mut j: usize = 0;
    while j < m
        invariant
            n == v@.len(),
            m == p@.len(),
            i + m <= v@.len(),
            j <= m,
            forall|t: int| 0 <= t < j ==> v@[i + t] == p@[t],
        decreases m - j,
    {
        if v[i + j] != p[j] {
            assert(v@.subrange(i as int, i + m)[j as int] == v@[i + j]);
            return false;
        }
        j = j + 1;
    }
    assert(v@.subrange(i as int, i + m) =~= p@);
    true
}

/// The first position at or after `from` where `p` occurs in `v`.
fn find_exec(v: &Vec<char>, p: &Vec<char>, from: usize) -> (r: Option<usize>)
    requires
        p@.len() > 0,
    ensures
        match r {
            Some(i) => find_from(v@, p@, from as int) == Some(i as int),
            None => find_from(v@, p@, from as int) is None,
        },
{
    let n = v.len();
    let m = p.len();
    if m > n {
        return None;
    }
    let mut i = from;
    while i <= n - m
        invariant
            n == v@.len(),
            m == p@.len(),
            0 < m <= n,
            from <= i,
            find_from(v@, p@, from as int) == find_from(v@, p@, i as int),
        decreases n - i,
    {
        if occurs_at_exec(v, p, i) {
            return Some(i);
        }
        i = i + 1;
    }
    None
}

/// The blank line that ends the head of an HTTP message.
pub open spec fn blank_line() -> Seq<char> {
    seq!['\r', '\n', '\r', '\n']
}

fn blank_line_exec() -> (r: Vec<char>)
    ensures
        r@ == blank_line(),
{
    let mut r: Vec<char> = Vec::new();
    r.push('\r');
    r.push('\n');
    r.push('\r');
    r.push('\n');
    assert(r@ =~= blank_line());
    r
}

// ----- requests -----
/// A request as the server reads it.
#[derive(Debug, Clone, PartialEq, Eq)]
pub struct HttpRequestParts {
    pub method: String,
    pub path: String,
    pub body: String,
}

/// The body of a request: what lies between the first blank line and the
/// next one (or the end).
pub open spec fn request_body(s: Seq<char>) -> Seq<char> {
    match find_from(s, blank_line(), 0) {
        None => Seq::empty(),
        Some(a) => match find_from(s, blank_line(), a + 4) {
            None => s.subrange(a + 4, s.len() as int),
            Some(b) => s.subrange(a + 4, b),
        },
    }
}

/// The method, the path and the body of a request: the first and second
/// word of its first line, and the text after the first blank line up to
/// the next blank line.
pub fn parse_request(request: &str) -> (r: HttpRequestParts)
    ensures
        r.method@ == nth_or(words(first_line(request@)), 0, Seq::empty()),
        r.path@ == nth_or(words(first_line(request@)), 1, Seq::empty()),
        r.body@ == request_body(request@),
{
    let line = first_line_of(request);
    let parts = split_words(line.as_str());
    proof {
        reveal_strlit("");
    }
    let method = nth_or_exec(&parts, 0, "");
    let path = nth_or_exec(&parts, 1, "");
    let v = chars_of(request);
    let n = v.len();
    let sep = blank_line_exec();
    let body = match find_exec(&v, &sep, 0) {
        None => String::new(),
        Some(a) => {
            proof {
                lemma_found_fits(v@, blank_line(), 0, a as int);
                assert(blank_line().len() == 4);
                assert(a + 4 <= v@.len());
            }
            match find_exec(&v, &sep, a + 4) {
                None => string_of(&v, a + 4, v.len()),
                Some(b) => {
                    proof {
                        lemma_found_fits(v@, blank_line(), a + 4, b as int);
                    }
                    string_of(&v, a + 4, b)
                },
            }
        },
    };
    HttpRequestParts { method, path, body }
}

/// A position that `find_from` returns lies at or after `from`, and `p`
/// fits there.
pub proof fn lemma_found_fits(s: Seq<char>, p: Seq<char>, from: int, i: int)
    requires
        find_from(s, p, from) == Some(i),
    ensures
        from <= i,
        occurs_at(s, p, i),
    decreases s.len() - from,
{
    if !occurs_at(s, p, from) {
        lemma_found_fits(s, p, from + 1, i);
    }
}

// ----- requests -----
/// The request that a client sends: the request line, the host and
/// connection headers, the JSON headers when there is a body, a blank line
/// and the body.
pub open spec fn request_text(method: Seq<char>, path: Seq<char>, body: Seq<char>) -> Seq<char> {
    method + " "@ + path + " HTTP/1.1\r\nHost: localhost\r\nConnection: close\r\n"@ + (if body.len()
        == 0 {
        Seq::empty()
    } else {
        "Content-Type: application/json\r\nContent-Length: "@ + decimal(
            vstd::utf8::encode_utf8(body).len(),
        ) + "\r\n"@
    }) + "\r\n"@ + body
}

/// The request for `method` on `path` with an optional JSON `body`; the
/// length that it announces is that of the body's UTF-8 encoding.
pub fn http_request_text(method: &str, path: &str, body: &str) -> (r: String)
    ensures
        r@ == request_text(method@, path@, body@),
{
    let mut r = method.to_owned();
    r.append(" ");
    r.append(path);
    r.append(" HTTP/1.1\r\nHost: localhost\r\nConnection: close\r\n");
    if body.unicode_len() > 0 {
        r.append("Content-Type: application/json\r\nContent-Length: ");
        let length = decimal_string(crate::text::byte_len(body) as u64);
        r.append(length.as_str());
        r.append("\r\n");
    }
    r.append("\r\n");
    r.append(body);
    r
}

// ----- responses -----
/// The answer with `status` and a JSON `body`, closing the connection.
pub open spec fn response_text(status: u16, body: Seq<char>, body_bytes: nat) -> Seq<char> {
    "HTTP/1.1 "@ + decimal(status as nat) + " "@ + reason_spec(status)
        + "\r\nContent-Type: application/json\r\nContent-Length: "@ + decimal(body_bytes)
        + "\r\nConnection: close\r\n\r\n"@ + body
}

/// The answer with `status` and a JSON `body`; the length that it announces
/// is that of the body's UTF-8 encoding.
pub fn http_response(status: u16, body: &str) -> (r: String)
    ensures
        r@ == response_text(status, body@, vstd::utf8::encode_utf8(body@).len()),
{
    let mut r = "HTTP/1.1 ".to_owned();
    let code = decimal_string(status as u64);
    r.append(code.as_str());
    r.append(" ");
    r.append(http_reason(status));
    r.append("\r\nContent-Type: application/json\r\nContent-Length: ");
    let length = decimal_string(crate::text::byte_len(body) as u64);
    r.append(length.as_str());
    r.append("\r\nConnection: close\r\n\r\n");
    r.append(body);
    r
}

/// What a client takes from a response: its body when the status is 200,
/// the body as the error otherwise, and an error when the head does not
/// end. The status is the second word of the first line, `500` when there
/// is none.
pub open spec fn response_outcome(s: Seq<char>) -> Result<Seq<char>, Seq<char>> {
    match find_from(s, blank_line(), 0) {
        None => Err("invalid agent API response"@),
        Some(a) => {
            let body = s.subrange(a + 4, s.len() as int);
            if nth_or(words(first_line(s.subrange(0, a))), 1, "500"@) == "200"@ {
                Ok(body)
            } else {
                Err(body)
            }
        },
    }
}

/// The body of a successful response, or the error it reports.
pub fn read_response(response: &str) -> (r: Result<String, String>)
    ensures
        match r {
            Ok(b) => response_outcome(response@) == Ok::<Seq<char>, Seq<char>>(b@),
            Err(e) => response_outcome(response@) == Err::<Seq<char>, Seq<char>>(e@),
        },
{
    let v = chars_of(response);
    let n = v.len();
    let sep = blank_line_exec();
    match find_exec(&v, &sep, 0) {
        None => Err("invalid agent API response".to_owned()),
        Some(a) => {
            proof {
                lemma_found_fits(v@, blank_line(), 0, a as int);
                assert(blank_line().len() == 4);
                assert(a + 4 <= v@.len());
            }
            let head = string_of(&v, 0, a);
            let body = string_of(&v, a + 4, v.len());
            let line = first_line_of(head.as_str());
            let parts = split_words(line.as_str());
            let status = nth_or_exec(&parts, 1, "500");
            if str_eq(status.as_str(), "200") {
                Ok(body)
            } else {
                Err(body)
            }
        },
    }
}

// ----- a response as a client reads it -----
/// A line ending: carriage return and line feed.
pub open spec fn crlf() -> Seq<char> {
    seq!['\r', '\n']
}

/// Whether `t` holds neither a carriage return nor a line feed.
pub open spec fn no_line_end(t: Seq<char>) -> bool {
    forall|i: int| 0 <= i < t.len() ==> #[trigger] t[i] != '\r' && t[i] != '\n'
}

/// Whether `t` holds no whitespace.
pub open spec fn no_ws(t: Seq<char>) -> bool {
    forall|i: int| 0 <= i < t.len() ==> !is_ws(#[trigger] t[i])
}

/// Whether `t` holds no carriage return that a line feed and another
/// carriage return follow.
pub open spec fn no_cr_lf_cr(t: Seq<char>) -> bool {
    forall|i: int|
        0 <= i && i + 2 < t.len() ==> !(#[trigger] t[i] == '\r' && t[i + 1] == '\n' && t[i + 2] == '\r')
}

proof fn lemma_find_skips(s: Seq<char>, p: Seq<char>, from: int, k: int)
    requires
        0 <= from <= k,
        p.len() > 0,
        forall|i: int| from <= i < k ==> !occurs_at(s, p, i),
    ensures
        find_from(s, p, from) == find_from(s, p, k),
    decreases k - from,
{
    if from < k && from + p.len() <= s.len() {
        lemma_find_skips(s, p, from + 1, k);
    }
}

/// In a head followed by a blank line, the first blank line is the one that
/// follows the head.
proof fn lemma_blank_line_ends_head(h: Seq<char>, b: Seq<char>)
    requires
        no_cr_lf_cr(h),
        h.len() > 0,
        h.last() != '\n',
    ensures
        find_from(h + blank_line() + b, blank_line(), 0) == Some(h.len() as int),
{
    let s = h + blank_line() + b;
    let k = h.len() as int;
    assert forall|i: int| 0 <= i < k implies !occurs_at(s, blank_line(), i) by {
        if occurs_at(s, blank_line(), i) {
            assert(s.subrange(i, i + 4)[0] == s[i]);
            assert(s.subrange(i, i + 4)[1] == s[i + 1]);
            assert(s.subrange(i, i + 4)[2] == s[i + 2]);
            if i + 2 < k {
                assert(s[i] == h[i] && s[i + 1] == h[i + 1] && s[i + 2] == h[i + 2]);
            } else if i + 2 == k {
                assert(s[i + 1] == h.last());
            } else {
                assert(s[i + 1] == '\r');
            }
        }
    }
    assert(s.subrange(k, k + 4) =~= blank_line());
    lemma_find_skips(s, blank_line(), 0, k);
}

/// Joining a line onto lines keeps the head free of blank lines.
proof fn lemma_join_line(x: Seq<char>, y: Seq<char>)
    requires
        no_cr_lf_cr(x),
        x.len() > 0,
        x.last() != '\n',
        no_line_end(y),
        y.len() > 0,
    ensures
        no_cr_lf_cr(x + crlf() + y),
        (x + crlf() + y).len() > 0,
        (x + crlf() + y).last() != '\n',
{
    let t = x + crlf() + y;
    let k = x.len() as int;
    assert forall|i: int| 0 <= i && i + 2 < t.len() implies !(#[trigger] t[i] == '\r' && t[i + 1] == '\n'
        && t[i + 2] == '\r') by {
        if i + 2 < k {
            assert(t[i] == x[i] && t[i + 1] == x[i + 1] && t[i + 2] == x[i + 2]);
        } else if i + 2 == k {
            assert(t[i + 1] == x.last());
        } else if i + 1 == k {
            assert(t[i + 1] == '\r');
        } else if i == k {
            assert(t[i + 2] == y[0]);
        } else if i == k + 1 {
            assert(t[i] == '\n');
        } else {
            assert(t[i] == y[i - k - 2]);
        }
    }
    assert(t.last() == y.last());
}

proof fn lemma_line_alone(t: Seq<char>)
    requires
        no_line_end(t),
    ensures
        no_cr_lf_cr(t),
{
}

proof fn lemma_no_lf_lines(t: Seq<char>)
    requires
        forall|i: int| 0 <= i < t.len() ==> #[trigger] t[i] != '\n',
    ensures
        closed_lines(t) == Seq::<Seq<char>>::empty(),
        pending_line(t) == t,
    decreases t.len(),
{
    if t.len() > 0 {
        lemma_no_lf_lines(t.drop_last());
        assert(t.drop_last().push(t.last()) =~= t);
    }
}

proof fn lemma_closed_lines_prefix(x: Seq<char>, r: Seq<char>)
    requires
        x.len() > 0,
        x.last() == '\n',
    ensures
        closed_lines(x + r).len() >= closed_lines(x).len(),
        forall|k: int| 0 <= k < closed_lines(x).len() ==> closed_lines(x + r)[k] == closed_lines(x)[k],
    decreases r.len(),
{
    if r.len() == 0 {
        assert(x + r =~= x);
    } else {
        lemma_closed_lines_prefix(x, r.drop_last());
        assert((x + r).drop_last() =~= x + r.drop_last());
        assert((x + r).last() == r.last());
    }
}

/// The first line of a text that starts with a line and a line ending is
/// that line.
proof fn lemma_first_line(a: Seq<char>, r: Seq<char>)
    requires
        no_line_end(a),
    ensures
        first_line(a + crlf() + r) == a,
{
    let x = a + crlf();
    let ar = a.push('\r');
    assert(x.drop_last() =~= ar);
    lemma_no_lf_lines(ar);
    assert(ar.drop_last() =~= a);
    assert(closed_lines(x) =~= seq![a]);
    lemma_closed_lines_prefix(x, r);
    assert(a + crlf() + r =~= x + r);
    let s = x + r;
    assert(closed_lines(x).len() == 1 && closed_lines(x)[0] == a);
    assert(closed_lines(s)[0] == closed_lines(x)[0]);
    assert(lines_of(s)[0] == closed_lines(s)[0]);
}

proof fn lemma_no_ws_words(t: Seq<char>)
    requires
        no_ws(t),
    ensures
        closed_words(t) == Seq::<Seq<char>>::empty(),
        pending_word(t) == t,
    decreases t.len(),
{
    if t.len() > 0 {
        lemma_no_ws_words(t.drop_last());
        assert(t.drop_last().push(t.last()) =~= t);
    }
}

proof fn lemma_word_after_ws(x: Seq<char>, d: Seq<char>)
    requires
        x.len() > 0,
        is_ws(x.last()),
        no_ws(d),
    ensures
        closed_words(x + d) == closed_words(x),
        pending_word(x + d) == d,
    decreases d.len(),
{
    if d.len() == 0 {
        assert(x + d =~= x);
    } else {
        lemma_word_after_ws(x, d.drop_last());
        assert((x + d).drop_last() =~= x + d.drop_last());
        assert((x + d).last() == d.last());
        assert(d.drop_last().push(d.last()) =~= d);
    }
}

proof fn lemma_closed_words_prefix(x: Seq<char>, r: Seq<char>)
    requires
        x.len() > 0,
        is_ws(x.last()),
    ensures
        closed_words(x + r).len() >= closed_words(x).len(),
        forall|k: int| 0 <= k < closed_words(x).len() ==> closed_words(x + r)[k] == closed_words(x)[k],
    decreases r.len(),
{
    if r.len() == 0 {
        assert(x + r =~= x);
    } else {
        lemma_closed_words_prefix(x, r.drop_last());
        assert((x + r).drop_last() =~= x + r.drop_last());
        assert((x + r).last() == r.last());
    }
}

/// The second word of `w d rest`, with single spaces after `w` and `d`, is `d`.
proof fn lemma_second_word(w: Seq<char>, d: Seq<char>, rest: Seq<char>)
    requires
        no_ws(w),
        w.len() > 0,
        no_ws(d),
        d.len() > 0,
    ensures
        nth_or(words(w + seq![' '] + d + seq![' '] + rest), 1, "500"@) == d,
{
    assert(is_ws(' '));
    let x1 = w + seq![' '];
    assert(x1.drop_last() =~= w);
    lemma_no_ws_words(w);
    assert(closed_words(x1) =~= seq![w]);
    lemma_word_after_ws(x1, d);
    let x2 = x1 + d + seq![' '];
    assert(x2.drop_last() =~= x1 + d);
    assert(closed_words(x2) =~= seq![w, d]);
    lemma_closed_words_prefix(x2, rest);
    let s = w + seq![' '] + d + seq![' '] + rest;
    assert(s =~= x2 + rest);
    assert(closed_words(s).len() >= 2);
}

/// The head of the answer that `http_response` writes.
pub open spec fn response_head(status: u16, body_bytes: nat) -> Seq<char> {
    ("HTTP/1.1 "@ + decimal(status as nat) + " "@ + reason_spec(status)) + crlf()
        + "Content-Type: application/json"@ + crlf() + ("Content-Length: "@ + decimal(body_bytes))
        + crlf() + "Connection: close"@
}

/// What a client reads of an answer that the server wrote is the body when
/// the status is 200, and the body as the error for any other status.
pub proof fn lemma_client_reads_what_server_wrote(status: u16, body: Seq<char>, body_bytes: nat)
    ensures
        response_outcome(response_text(status, body, body_bytes)) == (if status == 200 {
            Ok::<Seq<char>, Seq<char>>(body)
        } else {
            Err::<Seq<char>, Seq<char>>(body)
        }),
{
    reveal_strlit("HTTP/1.1 ");
    reveal_strlit(" ");
    reveal_strlit("\r\nContent-Type: application/json\r\nContent-Length: ");
    reveal_strlit("\r\nConnection: close\r\n\r\n");
    reveal_strlit("Content-Type: application/json");
    reveal_strlit("Content-Length: ");
    reveal_strlit("Connection: close");
    reveal_strlit("OK");
    reveal_strlit("Bad Request");
    reveal_strlit("Not Found");
    reveal_strlit("Error");
    reveal_strlit("200");
    let d = decimal(status as nat);
    let n = decimal(body_bytes);
    crate::text::lemma_decimal_digits(status as nat);
    crate::text::lemma_decimal_digits(body_bytes);
    let reason = reason_spec(status);
    let w = seq!['H', 'T', 'T', 'P', '/', '1', '.', '1'];
    assert("HTTP/1.1 "@ =~= w + seq![' ']);
    let l1 = "HTTP/1.1 "@ + d + " "@ + reason;
    assert(l1 =~= w + seq![' '] + d + seq![' '] + reason);
    let l2 = "Content-Type: application/json"@;
    let l3 = "Content-Length: "@ + n;
    let l4 = "Connection: close"@;
    assert(no_line_end(reason));
    assert(no_line_end(l1));
    assert(no_line_end(l3));
    let h = response_head(status, body_bytes);
    assert(h == l1 + crlf() + l2 + crlf() + l3 + crlf() + l4);
    assert(response_text(status, body, body_bytes) =~= h + blank_line() + body) by {
        assert("\r\nContent-Type: application/json\r\nContent-Length: "@ =~= crlf() + l2 + crlf()
            + "Content-Length: "@);
        assert("\r\nConnection: close\r\n\r\n"@ =~= crlf() + l4 + blank_line());
    }
    lemma_line_alone(l1);
    lemma_join_line(l1, l2);
    lemma_join_line(l1 + crlf() + l2, l3);
    lemma_join_line(l1 + crlf() + l2 + crlf() + l3, l4);
    lemma_blank_line_ends_head(h, body);
    let s = response_text(status, body, body_bytes);
    let k = h.len() as int;
    assert(s.subrange(0, k) =~= h);
    assert(s.subrange(k + 4, s.len() as int) =~= body);
    assert(h =~= l1 + crlf() + (l2 + crlf() + l3 + crlf() + l4));
    lemma_first_line(l1, l2 + crlf() + l3 + crlf() + l4);
    assert(no_ws(w));
    assert(no_ws(d));
    lemma_second_word(w, d, reason);
    if d == "200"@ {
        reveal_with_fuel(decimal, 3);
        assert(decimal(200) == "200"@);
        crate::text::lemma_decimal_injective(status as nat, 200);
    }
    if status == 200 {
        reveal_with_fuel(decimal, 3);
        assert(d == "200"@);
    }
}

} // verus!
