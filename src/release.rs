//! Reading the tag of the latest release out of the release metadata
//! document (`{"tag_name": "tool-v1.2.0", ...}`).

use vstd::prelude::*;

use crate::integrity::{is_space, is_space_char, skip_space};
use crate::text::{occurs_at, str_eq};

verus! {

/// The quoted key whose value is the release tag.
pub open spec fn tag_key() -> Seq<char> {
    "\"tag_name\""@
}

/// The first position at or after `i` where `t` occurs in `s`.
pub open spec fn find_from(s: Seq<char>, t: Seq<char>, i: int) -> Option<int>
    decreases s.len() + 1 - i,
{
    if i < 0 || i + t.len() > s.len() {
        None
    } else if occurs_at(s, t, i) {
        Some(i)
    } else {
        find_from(s, t, i + 1)
    }
}

/// The value of a hex digit, or -1 for any other character.
pub open spec fn hex_value(c: char) -> int {
    if '0' <= c && c <= '9' {
        c as int - '0' as int
    } else if 'a' <= c && c <= 'f' {
        c as int - 'a' as int + 10
    } else if 'A' <= c && c <= 'F' {
        c as int - 'A' as int + 10
    } else {
        -1
    }
}

/// The number written by the four hex digits at `i`, or -1 where there are
/// not four hex digits there.
pub open spec fn hex4_at(s: Seq<char>, i: int) -> int {
    if 0 <= i && i + 4 <= s.len() && hex_value(s[i]) >= 0 && hex_value(s[i + 1]) >= 0
        && hex_value(s[i + 2]) >= 0 && hex_value(s[i + 3]) >= 0 {
        hex_value(s[i]) * 4096 + hex_value(s[i + 1]) * 256 + hex_value(s[i + 2]) * 16 + hex_value(
            s[i + 3],
        )
    } else {
        -1
    }
}

/// `v` is a Unicode scalar value.
pub open spec fn is_scalar(v: int) -> bool {
    (0 <= v && v < 0xD800) || (0xE000 <= v && v <= 0x10FFFF)
}

/// The scalar value of a character.
pub open spec fn char_code(c: char) -> int {
    c as int
}

/// The character with scalar value `v`.
pub open spec fn scalar_char(v: int) -> char {
    choose|c: char| #[trigger] char_code(c) == v
}

/// The character that a one-letter escape (`\n`, `\"`, ...) stands for.
pub open spec fn escaped_char(e: char) -> Option<char> {
    if e == '"' {
        Some('"')
    } else if e == '\\' {
        Some('\\')
    } else if e == '/' {
        Some('/')
    } else if e == 'b' {
        Some('\u{8}')
    } else if e == 'f' {
        Some('\u{c}')
    } else if e == 'n' {
        Some('\n')
    } else if e == 'r' {
        Some('\r')
    } else if e == 't' {
        Some('\t')
    } else {
        None
    }
}

/// `c` in front of a decoded remainder, if there is one.
pub open spec fn prepend(c: char, rest: Option<Seq<char>>) -> Option<Seq<char>> {
    match rest {
        Some(t) => Some(seq![c] + t),
        None => None,
    }
}

/// `p` in front of a decoded remainder, if there is one.
pub open spec fn prefixed(p: Seq<char>, rest: Option<Seq<char>>) -> Option<Seq<char>> {
    match rest {
        Some(t) => Some(p + t),
        None => None,
    }
}

/// The decoded text of a JSON string whose characters start at `i`, up to
/// its closing quote: escapes are decoded, `\u` escapes included (a
/// surrogate pair makes one character). `None` where the string is not
/// closed or holds an invalid escape.
pub open spec fn json_string(s: Seq<char>, i: int) -> Option<Seq<char>>
    decreases s.len() - i,
{
    if i < 0 || i >= s.len() {
        None
    } else if s[i] == '"' {
        Some(Seq::empty())
    } else if s[i] == '\\' {
        if i + 1 >= s.len() {
            None
        } else if s[i + 1] == 'u' {
            let v = hex4_at(s, i + 2);
            if v < 0 {
                None
            } else if 0xD800 <= v && v < 0xDC00 {
                let w = hex4_at(s, i + 8);
                if i + 8 <= s.len() && s[i + 6] == '\\' && s[i + 7] == 'u' && 0xDC00 <= w && w
                    < 0xE000 {
                    prepend(
                        scalar_char(0x10000 + (v - 0xD800) * 1024 + (w - 0xDC00)),
                        json_string(s, i + 12),
                    )
                } else {
                    None
                }
            } else if is_scalar(v) {
                prepend(scalar_char(v), json_string(s, i + 6))
            } else {
                None
            }
        } else {
            match escaped_char(s[i + 1]) {
                Some(c) => prepend(c, json_string(s, i + 2)),
                None => None,
            }
        }
    } else {
        prepend(s[i], json_string(s, i + 1))
    }
}

/// Relies on `char::from_u32`: the character with scalar value `v`, which
/// exists exactly for scalar values.
#[verifier::external_body]
fn char_from_u32(v: u32) -> (r: Option<char>)
    ensures
        r is Some <==> is_scalar(v as int),
        r matches Some(c) ==> c as int == v as int,
{
    char::from_u32(v)
}

/// Relies on `ToString` for `char`: a string of that one character.
#[verifier::external_body]
fn char_string(c: char) -> (r: String)
    ensures
        r@ == seq![c],
{
    c.to_string()
}

fn hex_digit_value(c: char) -> (r: Option<u32>)
    ensures
        hex_value(c) < 0 ==> r is None,
        hex_value(c) >= 0 ==> r == Some(hex_value(c) as u32),
{
    if '0' <= c && c <= '9' {
        Some(c as u32 - '0' as u32)
    } else if 'a' <= c && c <= 'f' {
        Some(c as u32 - 'a' as u32 + 10)
    } else if 'A' <= c && c <= 'F' {
        Some(c as u32 - 'A' as u32 + 10)
    } else {
        None
    }
}

/// The number written by the four hex digits at `j`, if there are four.
fn hex4(s: &str, j: usize) -> (r: Option<u32>)
    ensures
        hex4_at(s@, j as int) < 0 ==> r is None,
        hex4_at(s@, j as int) >= 0 ==> r == Some(hex4_at(s@, j as int) as u32),
{
    let n = s.unicode_len();
    if j > n || n - j < 4 {
        return None;
    }
    let a = match hex_digit_value(s.get_char(j)) {
        Some(x) => x,
        None => return None,
    };
    let b = match hex_digit_value(s.get_char(j + 1)) {
        Some(x) => x,
        None => return None,
    };
    let c = match hex_digit_value(s.get_char(j + 2)) {
        Some(x) => x,
        None => return None,
    };
    let d = match hex_digit_value(s.get_char(j + 3)) {
        Some(x) => x,
        None => return None,
    };
    Some(a * 4096 + b * 256 + c * 16 + d)
}

fn escape_of(e: char) -> (r: Option<char>)
    ensures
        r == escaped_char(e),
{
    if e == '"' {
        Some('"')
    } else if e == '\\' {
        Some('\\')
    } else if e == '/' {
        Some('/')
    } else if e == 'b' {
        Some('\u{8}')
    } else if e == 'f' {
        Some('\u{c}')
    } else if e == 'n' {
        Some('\n')
    } else if e == 'r' {
        Some('\r')
    } else if e == 't' {
        Some('\t')
    } else {
        None
    }
}

/// The decoded text of the JSON string whose characters start at `start`.
fn decode_string(s: &str, start: usize) -> (r: Option<String>)
    requires
        start <= s@.len(),
    ensures
        r matches Some(t) ==> json_string(s@, start as int) == Some(t@),
        r is None ==> json_string(s@, start as int) is None,
{
    let n = s.unicode_len();
    let mut out = String::new();
    let mut i: usize = start;
    loop
        invariant
            start <= i <= n,
            n == s@.len(),
            json_string(s@, start as int) == prefixed(out@, json_string(s@, i as int)),
        decreases n - i,
    {
        if i >= n {
            return None;
        }
        let c = s.get_char(i);
        if c == '"' {
            assert(out@ + Seq::<char>::empty() =~= out@);
            return Some(out);
        }
        let ghost before = out@;
        let ch: char;
        let next: usize;
        if c == '\\' {
            if n - i < 2 {
                return None;
            }
            let e = s.get_char(i + 1);
            if e == 'u' {
                let v = match hex4(s, i + 2) {
                    Some(v) => v,
                    None => return None,
                };
                if 0xD800 <= v && v < 0xDC00 {
                    if n - i < 8 || s.get_char(i + 6) != '\\' || s.get_char(i + 7) != 'u' {
                        return None;
                    }
                    let w = match hex4(s, i + 8) {
                        Some(w) => w,
                        None => return None,
                    };
                    if !(0xDC00 <= w && w < 0xE000) {
                        return None;
                    }
                    let code = 0x10000 + (v - 0xD800) * 1024 + (w - 0xDC00);
                    match char_from_u32(code) {
                        Some(x) => {
                            assert(char_code(x) == code as int);
                            ch = x;
                        },
                        None => return None,
                    }
                    next = i + 12;
                } else {
                    match char_from_u32(v) {
                        Some(x) => {
                            assert(char_code(x) == v as int);
                            ch = x;
                        },
                        None => return None,
                    }
                    next = i + 6;
                }
            } else {
                match escape_of(e) {
                    Some(x) => {
                        ch = x;
                    },
                    None => return None,
                }
                next = i + 2;
            }
        } else {
            ch = c;
            next = i + 1;
        }
        out.append(char_string(ch).as_str());
        proof {
            assert(json_string(s@, i as int) == prepend(ch, json_string(s@, next as int)));
            match json_string(s@, next as int) {
                Some(t) => {
                    assert(before + (seq![ch] + t) =~= out@ + t);
                },
                None => {},
            }
        }
        i = next;
    }
}

/// The string value that follows a key ending just before position `k`:
/// optional whitespace, a colon, optional whitespace, then a JSON string.
pub open spec fn value_after(s: Seq<char>, k: int) -> Option<Seq<char>> {
    let c = skip_space(s, k);
    if 0 <= c < s.len() && s[c] == ':' {
        let d = skip_space(s, c + 1);
        if 0 <= d < s.len() && s[d] == '"' {
            json_string(s, d + 1)
        } else {
            None
        }
    } else {
        None
    }
}

/// The release tag in a metadata document: the value of the first
/// `"tag_name"` key, when that value is a plain string.
pub open spec fn tag_of_metadata(body: Seq<char>) -> Option<Seq<char>> {
    match find_from(body, tag_key(), 0) {
        Some(i) => value_after(body, i + tag_key().len()),
        None => None,
    }
}

fn is_space_at(s: &str, i: usize) -> (r: bool)
    requires
        i < s@.len(),
    ensures
        r == is_space(s@[i as int]),
{
    is_space_char(s.get_char(i))
}

/// The first position at or after `i` that holds no whitespace.
fn skip_space_from(s: &str, i: usize) -> (r: usize)
    requires
        i <= s@.len(),
    ensures
        r as int == skip_space(s@, i as int),
        i <= r <= s@.len(),
{
    let n = s.unicode_len();
    let mut j: usize = i;
    while j < n && is_space_at(s, j)
        invariant
            i <= j <= n,
            n == s@.len(),
            skip_space(s@, j as int) == skip_space(s@, i as int),
        decreases n - j,
    {
        j = j + 1;
    }
    j
}

/// The release tag in a metadata document, if it names one.
pub fn tag_from_metadata(body: &str) -> (r: Option<String>)
    ensures
        r matches Some(t) ==> tag_of_metadata(body@) == Some(t@),
        r is None ==> tag_of_metadata(body@) is None,
{
    let key = "\"tag_name\"";
    proof {
        reveal_strlit("\"tag_name\"");
    }
    let n = body.unicode_len();
    let kl = key.unicode_len();
    if kl > n {
        return None;
    }
    let mut i: usize = 0;
    let mut found = false;
    while i <= n - kl && !found
        invariant
            kl <= n,
            kl == 10,
            i <= n - kl + 1,
            n == body@.len(),
            kl == tag_key().len(),
            key@ == tag_key(),
            found ==> i + kl <= n && occurs_at(body@, tag_key(), i as int),
            found ==> find_from(body@, tag_key(), 0) == Some(i as int),
            !found ==> find_from(body@, tag_key(), i as int) == find_from(body@, tag_key(), 0),
        decreases n + 1 - i - (if found { 1int } else { 0int }),
    {
        if str_eq(body.substring_char(i, i + kl), key) {
            found = true;
        } else {
            i = i + 1;
        }
    }
    if !found {
        return None;
    }
    let c = skip_space_from(body, i + kl);
    if c >= n || body.get_char(c) != ':' {
        return None;
    }
    let d = skip_space_from(body, c + 1);
    if d >= n || body.get_char(d) != '"' {
        return None;
    }
    decode_string(body, d + 1)
}

} // verus!
