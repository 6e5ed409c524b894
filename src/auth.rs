//! Token extraction for the authentication middleware, and the reading of
//! the verified subject as a user identifier.
use crate::http::{Request, RequestModel};
use crate::strmap::StrMap;
use crate::text::{chars_of, find_whitespace, same_chars, skip_whitespace, string_of, word};
use vstd::prelude::*;
use vstd::string::*;

verus! {

#[derive(PartialEq, Eq, Structural, Debug, Clone, Copy)]
pub enum AuthError {
    Unauthorized,
}

/// The token of an `authorization` header of the form `Bearer <token>`.
pub open spec fn bearer_token(headers: Map<Seq<char>, Seq<char>>) -> Option<Seq<char>> {
    if headers.contains_key("authorization"@) {
        let v = headers["authorization"@];
        if word(v, 0) == Some("Bearer"@) {
            word(v, 1)
        } else {
            None
        }
    } else {
        None
    }
}

pub open spec fn opt_view(o: Option<String>) -> Option<Seq<char>> {
    match o {
        Some(s) => Some(s@),
        None => None,
    }
}

/// The bearer token of the `authorization` header, if it has that form.
pub fn extract_token(headers: &StrMap) -> (r: Option<String>)
    ensures
        opt_view(r) == bearer_token(headers@),
{
    let v = match headers.get("authorization") {
        Some(v) => v,
        None => {
            return None;
        },
    };
    let c = chars_of(v.as_str());
    proof {
        crate::text::lemma_word_start_bounds(c@, 0);
        crate::text::lemma_word_start_bounds(c@, 1);
    }
    let a1 = skip_whitespace(&c, 0);
    if a1 == c.len() {
        return None;
    }
    let e1 = find_whitespace(&c, a1);
    let scheme = string_of(&c, a1, e1);
    if !same_chars(&chars_of(scheme.as_str()), "Bearer") {
        return None;
    }
    let a2 = skip_whitespace(&c, e1);
    if a2 == c.len() {
        return None;
    }
    let e2 = find_whitespace(&c, a2);
    Some(string_of(&c, a2, e2))
}

/// `ws` stands at `i` in `s`.
pub open spec fn ws_at(s: Seq<char>, i: int) -> bool {
    0 <= i && i + 1 < s.len() && s[i] == 'w' && s[i + 1] == 's'
}

/// `ws` occurs in `s`.
pub open spec fn mentions_ws(s: Seq<char>) -> bool {
    exists|i: int| #[trigger] ws_at(s, i)
}

/// The token a request carries: the `token` query parameter on a path that
/// mentions `ws`, the bearer token of the `authorization` header otherwise.
pub open spec fn token_of(m: RequestModel) -> Option<Seq<char>> {
    if mentions_ws(m.path) {
        match m.params {
            Some(p) => if p.contains_key("token"@) {
                Some(p["token"@])
            } else {
                None
            },
            None => None,
        }
    } else {
        bearer_token(m.headers)
    }
}

pub fn token_for(req: &Request) -> (r: Option<String>)
    ensures
        opt_view(r) == token_of(req@),
{
    let p = chars_of(req.path.as_str());
    let mut ws = false;
    let mut i: usize = 0;
    while i < p.len() && p.len() - i > 1
        invariant
            i <= p@.len(),
            p@ == req.path@,
            ws == exists|j: int| j < i && #[trigger] ws_at(p@, j),
        decreases p@.len() - i,
    {
        if p[i] == 'w' && p[i + 1] == 's' {
            assert(ws_at(p@, i as int));
            ws = true;
        }
        i = i + 1;
    }
    assert(ws == mentions_ws(p@)) by {
        if mentions_ws(p@) {
            let j = choose|j: int| #[trigger] ws_at(p@, j);
            assert(j < i);
        }
    }
    if ws {
        match &req.params {
            Some(params) => params.get("token"),
            None => None,
        }
    } else {
        extract_token(&req.headers)
    }
}

pub open spec fn is_digit(c: char) -> bool {
    '0' <= c && c <= '9'
}

/// The value of a string of decimal digits.
pub open spec fn digits_value(s: Seq<char>) -> int
    decreases s.len(),
{
    if s.len() == 0 {
        0
    } else {
        digits_value(s.drop_last()) * 10 + (s.last() as int - '0' as int)
    }
}

pub open spec fn all_digits(d: Seq<char>) -> bool {
    forall|i: int| 0 <= i < d.len() ==> is_digit(#[trigger] d[i])
}

pub open spec fn has_sign(s: Seq<char>) -> bool {
    s.len() > 0 && (s[0] == '-' || s[0] == '+')
}

/// The digits of `s` after its sign, if it has one.
pub open spec fn unsigned_part(s: Seq<char>) -> Seq<char> {
    if has_sign(s) {
        s.drop_first()
    } else {
        s
    }
}

/// The integer that `i32::from_str` reads from `s`: an optional sign, then
/// one or more decimal digits, in range.
pub open spec fn i32_of(s: Seq<char>) -> Option<i32> {
    let d = unsigned_part(s);
    let v = if has_sign(s) && s[0] == '-' {
        -digits_value(d)
    } else {
        digits_value(d)
    };
    if d.len() > 0 && all_digits(d) && i32::MIN <= v <= i32::MAX {
        Some(v as i32)
    } else {
        None
    }
}

proof fn lemma_digits_grow(s: Seq<char>, k: int)
    requires
        0 <= k <= s.len(),
        forall|i: int| 0 <= i < s.len() ==> is_digit(#[trigger] s[i]),
    ensures
        digits_value(s) >= digits_value(s.subrange(0, k)) >= 0,
    decreases s.len(),
{
    if s.len() > 0 {
        let t = s.drop_last();
        assert forall|i: int| 0 <= i < t.len() implies is_digit(#[trigger] t[i]) by {
            assert(t[i] == s[i]);
        }
        if k == s.len() {
            assert(s.subrange(0, k) == s);
            lemma_digits_grow(t, 0);
        } else {
            lemma_digits_grow(t, k);
            assert(t.subrange(0, k) == s.subrange(0, k));
        }
    } else {
        assert(s.subrange(0, k) == s);
    }
}

/// Reads a user identifier the way `i32::from_str` does.
pub fn parse_i32(s: &str) -> (r: Option<i32>)
    ensures
        r == i32_of(s@),
{
    let c = chars_of(s);
    let n = c.len();
    if n == 0 {
        return None;
    }
    let neg = c[0] == '-';
    let start: usize = if c[0] == '-' || c[0] == '+' {
        1
    } else {
        0
    };
    let ghost d = c@.subrange(start as int, n as int);
    assert(d == unsigned_part(c@));
    if start == n {
        return None;
    }
    let mut acc: i64 = 0;
    let mut i = start;
    while i < n
        invariant
            start <= i <= n,
            n == c@.len(),
            0 <= acc <= 0x8000_0000,
            c@ == s@,
            n > 0,
            neg == (c@[0] == '-'),
            start == 1 <==> (c@[0] == '-' || c@[0] == '+'),
            start <= 1,
            d == unsigned_part(c@),
            acc == digits_value(d.subrange(0, i - start)),
            forall|j: int| 0 <= j < i - start ==> is_digit(#[trigger] d[j]),
        decreases n - i,
    {
        let ch = c[i];
        if !('0' <= ch && ch <= '9') {
            assert(!is_digit(d[i - start]));
            return None;
        }
        assert(d.subrange(0, i + 1 - start).drop_last() == d.subrange(0, i - start));
        let next = acc * 10 + (ch as u32 - '0' as u32) as i64;
        if next > 0x8000_0000 {
            proof {
                assert(digits_value(d.subrange(0, i + 1 - start)) == next);
                if all_digits(d) {
                    lemma_digits_grow(d, i + 1 - start);
                    assert(digits_value(d) > 0x8000_0000);
                }
            }
            return None;
        }
        acc = next;
        i = i + 1;
    }
    assert(d.subrange(0, n - start) == d);
    if neg {
        Some((0 - acc) as i32)
    } else if acc > 0x7fff_ffff {
        None
    } else {
        Some(acc as i32)
    }
}

/// The user identifier named by a verified token's subject; a subject that
/// is not an integer leaves the request unauthorized.
pub fn user_id_from_subject(subject: &str) -> (r: Result<i32, AuthError>)
    ensures
        match i32_of(subject@) {
            Some(v) => r == Ok::<i32, AuthError>(v),
            None => r == Err::<i32, AuthError>(AuthError::Unauthorized),
        },
{
    match parse_i32(subject) {
        Some(v) => Ok(v),
        None => Err(AuthError::Unauthorized),
    }
}

} // verus!
