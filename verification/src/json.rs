//! A JSON document model and a verified recursive-descent parser for it.
//! The executable parser is proved to return exactly what the spec-level
//! parser denotes on the same text, branch for branch.  Numbers are kept as
//! their raw tokens; the interpreters in this module turn them into integers
//! or fixed-point millionths where a reader needs that.
use vstd::prelude::*;
use crate::text::{chars_of, string_from_chars};

verus! {

broadcast use vstd::std_specs::vec::group_vec_axioms;

/// A parsed JSON value.  Numbers hold their raw token text.
pub enum Json {
    Null,
    Bool(bool),
    Num(String),
    Str(String),
    Arr(Vec<Json>),
    Obj(Vec<(String, Json)>),
}

/// The mathematical value of a JSON document.
pub ghost enum JsonV {
    Null,
    Bool(bool),
    Num(Seq<char>),
    Str(Seq<char>),
    Arr(Seq<JsonV>),
    Obj(Seq<(Seq<char>, JsonV)>),
}

pub open spec fn view_list(s: Seq<Json>) -> Seq<JsonV>
    decreases s,
{
    if s.len() == 0 {
        Seq::empty()
    } else {
        seq![s[0]@] + view_list(s.drop_first())
    }
}

pub open spec fn view_members(s: Seq<(String, Json)>) -> Seq<(Seq<char>, JsonV)>
    decreases s,
{
    if s.len() == 0 {
        Seq::empty()
    } else {
        seq![(s[0].0@, s[0].1@)] + view_members(s.drop_first())
    }
}

impl View for Json {
    type V = JsonV;

    open spec fn view(&self) -> JsonV
        decreases self,
    {
        match self {
            Json::Null => JsonV::Null,
            Json::Bool(b) => JsonV::Bool(*b),
            Json::Num(s) => JsonV::Num(s@),
            Json::Str(s) => JsonV::Str(s@),
            Json::Arr(v) => JsonV::Arr(view_list(v@)),
            Json::Obj(m) => JsonV::Obj(view_members(m@)),
        }
    }
}

/// The first binding of `key` in an object's member list, if any.
pub open spec fn lookup(members: Seq<(Seq<char>, JsonV)>, key: Seq<char>) -> Option<JsonV>
    decreases members.len(),
{
    if members.len() == 0 {
        None
    } else if members[0].0 == key {
        Some(members[0].1)
    } else {
        lookup(members.drop_first(), key)
    }
}

pub open spec fn is_ws_char(c: char) -> bool {
    c == ' ' || c == '\n' || c == '\r' || c == '\t'
}

/// First position at or after `i` that does not hold whitespace.
pub open spec fn ws_end(s: Seq<char>, i: int) -> int
    decreases s.len() - i,
{
    if 0 <= i && i < s.len() && is_ws_char(s[i]) {
        ws_end(s, i + 1)
    } else {
        i
    }
}

/// Value of a hexadecimal digit character, or a negative sentinel.
pub open spec fn hex_digit_val(c: char) -> int {
    if '0' <= c && c <= '9' {
        c as int - 48
    } else if 'a' <= c && c <= 'f' {
        c as int - 87
    } else if 'A' <= c && c <= 'F' {
        c as int - 55
    } else {
        -1
    }
}

/// Value of the four hexadecimal digits at `i`, or a negative sentinel.
pub open spec fn hex4_val(s: Seq<char>, i: int) -> int {
    if 0 <= i && i + 4 <= s.len() && hex_digit_val(s[i]) >= 0 && hex_digit_val(s[i + 1]) >= 0
        && hex_digit_val(s[i + 2]) >= 0 && hex_digit_val(s[i + 3]) >= 0 {
        hex_digit_val(s[i]) * 4096 + hex_digit_val(s[i + 1]) * 256 + hex_digit_val(s[i + 2]) * 16
            + hex_digit_val(s[i + 3])
    } else {
        -1
    }
}

/// Decodes the escape that begins right after a backslash at `i - 1`:
/// the named single-character escapes, `\u` with four hex digits, and
/// surrogate pairs written as two consecutive `\u` escapes.
pub open spec fn parse_escape_s(s: Seq<char>, i: int) -> Option<(char, int)> {
    if 0 <= i && i < s.len() {
        let c = s[i];
        if c == '"' {
            Some(('"', i + 1))
        } else if c == '\\' {
            Some(('\\', i + 1))
        } else if c == '/' {
            Some(('/', i + 1))
        } else if c == 'b' {
            Some(('\u{8}', i + 1))
        } else if c == 'f' {
            Some(('\u{c}', i + 1))
        } else if c == 'n' {
            Some(('\n', i + 1))
        } else if c == 'r' {
            Some(('\r', i + 1))
        } else if c == 't' {
            Some(('\t', i + 1))
        } else if c == 'u' {
            let n = hex4_val(s, i + 1);
            if n < 0 {
                None
            } else if n < 0xD800 || (0xE000 <= n && n <= 0xFFFF) {
                Some((n as char, i + 5))
            } else if n < 0xDC00 {
                if i + 7 <= s.len() && s[i + 5] == '\\' && s[i + 6] == 'u' {
                    let m = hex4_val(s, i + 7);
                    if 0xDC00 <= m && m < 0xE000 {
                        Some(((0x10000 + (n - 0xD800) * 0x400 + (m - 0xDC00)) as char, i + 11))
                    } else {
                        None
                    }
                } else {
                    None
                }
            } else {
                None
            }
        } else {
            None
        }
    } else {
        None
    }
}

/// Parses a string body beginning at `i` (just past the opening quote) up to
/// and including the closing quote.  Raw control characters are refused.
pub open spec fn parse_string_s(s: Seq<char>, i: int) -> Option<(Seq<char>, int)>
    decreases s.len() - i,
{
    if !(0 <= i && i < s.len()) {
        None
    } else if s[i] == '"' {
        Some((Seq::empty(), i + 1))
    } else if s[i] == '\\' {
        match parse_escape_s(s, i + 1) {
            Some((c, j)) => if i + 1 < j && j <= s.len() {
                match parse_string_s(s, j) {
                    Some((t, k)) => Some((seq![c] + t, k)),
                    None => None,
                }
            } else {
                None
            },
            None => None,
        }
    } else if (s[i] as u32) < 32 {
        None
    } else {
        match parse_string_s(s, i + 1) {
            Some((t, k)) => Some((seq![s[i]] + t, k)),
            None => None,
        }
    }
}

pub open spec fn is_num_char(c: char) -> bool {
    ('0' <= c && c <= '9') || c == '-' || c == '+' || c == '.' || c == 'e' || c == 'E'
}

/// First position at or after `i` that does not hold a number character.
pub open spec fn num_end(s: Seq<char>, i: int) -> int
    decreases s.len() - i,
{
    if 0 <= i && i < s.len() && is_num_char(s[i]) {
        num_end(s, i + 1)
    } else {
        i
    }
}

/// Parses one JSON value beginning at `i` (not preceded by whitespace).
/// The bounds tests after each inner step double as the termination guards
/// of the mutual recursion; the executable parser mirrors them exactly.
pub open spec fn parse_value_s(s: Seq<char>, i: int) -> Option<(JsonV, int)>
    decreases s.len() - i, 2int,
{
    if !(0 <= i && i < s.len()) {
        None
    } else {
        let c = s[i];
        if c == '{' {
            let j = ws_end(s, i + 1);
            if i + 1 <= j && j <= s.len() {
                match parse_members_s(s, j, true) {
                    Some((members, e)) => Some((JsonV::Obj(members), e)),
                    None => None,
                }
            } else {
                None
            }
        } else if c == '[' {
            let j = ws_end(s, i + 1);
            if i + 1 <= j && j <= s.len() {
                match parse_items_s(s, j, true) {
                    Some((items, e)) => Some((JsonV::Arr(items), e)),
                    None => None,
                }
            } else {
                None
            }
        } else if c == '"' {
            match parse_string_s(s, i + 1) {
                Some((t, j)) => Some((JsonV::Str(t), j)),
                None => None,
            }
        } else if c == 't' {
            if i + 4 <= s.len() && s[i + 1] == 'r' && s[i + 2] == 'u' && s[i + 3] == 'e' {
                Some((JsonV::Bool(true), i + 4))
            } else {
                None
            }
        } else if c == 'f' {
            if i + 5 <= s.len() && s[i + 1] == 'a' && s[i + 2] == 'l' && s[i + 3] == 's' && s[i + 4]
                == 'e' {
                Some((JsonV::Bool(false), i + 5))
            } else {
                None
            }
        } else if c == 'n' {
            if i + 4 <= s.len() && s[i + 1] == 'u' && s[i + 2] == 'l' && s[i + 3] == 'l' {
                Some((JsonV::Null, i + 4))
            } else {
                None
            }
        } else if c == '-' || ('0' <= c && c <= '9') {
            let j = num_end(s, i + 1);
            if i + 1 <= j && j <= s.len() {
                Some((JsonV::Num(s.subrange(i, j)), j))
            } else {
                None
            }
        } else {
            None
        }
    }
}

/// Parses the items of an array from the first item position (or the closing
/// bracket when the array is empty and `allow_close` holds).
pub open spec fn parse_items_s(s: Seq<char>, i: int, allow_close: bool) -> Option<
    (Seq<JsonV>, int),
>
    decreases s.len() - i, 3int,
{
    if !(0 <= i && i < s.len()) {
        None
    } else if allow_close && s[i] == ']' {
        Some((Seq::empty(), i + 1))
    } else {
        match parse_value_s(s, i) {
            Some((v, j)) => if i < j && j <= s.len() {
                let k = ws_end(s, j);
                if j <= k && k < s.len() {
                    if s[k] == ',' {
                        let m = ws_end(s, k + 1);
                        if k + 1 <= m && m <= s.len() {
                            match parse_items_s(s, m, false) {
                                Some((rest, e)) => Some((seq![v] + rest, e)),
                                None => None,
                            }
                        } else {
                            None
                        }
                    } else if s[k] == ']' {
                        Some((seq![v], k + 1))
                    } else {
                        None
                    }
                } else {
                    None
                }
            } else {
                None
            },
            None => None,
        }
    }
}

/// Parses the members of an object from the first key position (or the
/// closing brace when the object is empty and `allow_close` holds).
pub open spec fn parse_members_s(s: Seq<char>, i: int, allow_close: bool) -> Option<
    (Seq<(Seq<char>, JsonV)>, int),
>
    decreases s.len() - i, 3int,
{
    if !(0 <= i && i < s.len()) {
        None
    } else if allow_close && s[i] == '}' {
        Some((Seq::empty(), i + 1))
    } else if s[i] == '"' {
        match parse_string_s(s, i + 1) {
            Some((key, j)) => if i + 1 < j && j <= s.len() {
                let k = ws_end(s, j);
                if j <= k && k < s.len() && s[k] == ':' {
                    let m = ws_end(s, k + 1);
                    if k + 1 <= m && m <= s.len() {
                        match parse_value_s(s, m) {
                            Some((val, p)) => if m < p && p <= s.len() {
                                let q = ws_end(s, p);
                                if p <= q && q < s.len() {
                                    if s[q] == ',' {
                                        let w = ws_end(s, q + 1);
                                        if q + 1 <= w && w <= s.len() {
                                            match parse_members_s(s, w, false) {
                                                Some((rest, e)) => Some(
                                                    (seq![(key, val)] + rest, e),
                                                ),
                                                None => None,
                                            }
                                        } else {
                                            None
                                        }
                                    } else if s[q] == '}' {
                                        Some((seq![(key, val)], q + 1))
                                    } else {
                                        None
                                    }
                                } else {
                                    None
                                }
                            } else {
                                None
                            },
                            None => None,
                        }
                    } else {
                        None
                    }
                } else {
                    None
                }
            } else {
                None
            },
            None => None,
        }
    } else {
        None
    }
}

/// Denotation of a whole document: one value surrounded by whitespace.
pub open spec fn parse_json_s(s: Seq<char>) -> Option<JsonV> {
    let i = ws_end(s, 0);
    if 0 <= i && i <= s.len() {
        match parse_value_s(s, i) {
            Some((v, j)) => if j <= s.len() && ws_end(s, j) == s.len() {
                Some(v)
            } else {
                None
            },
            None => None,
        }
    } else {
        None
    }
}

/// First non-whitespace position at or after `i`.
fn skip_ws(v: &Vec<char>, i: usize) -> (r: usize)
    requires
        i <= v@.len(),
    ensures
        i <= r <= v@.len(),
        r as int == ws_end(v@, i as int),
{
    let mut j = i;
    while j < v.len() && (v[j] == ' ' || v[j] == '\n' || v[j] == '\r' || v[j] == '\t')
        invariant
            i <= j <= v@.len(),
            ws_end(v@, i as int) == ws_end(v@, j as int),
        decreases v@.len() - j,
    {
        j += 1;
    }
    j
}

/// Hexadecimal value of the four digits at `i`, mirroring `hex4_val`.
fn hex4_e(v: &Vec<char>, i: usize) -> (r: Option<u32>)
    ensures
        match r {
            Some(n) => hex4_val(v@, i as int) == n as int && n <= 0xFFFF,
            None => hex4_val(v@, i as int) == -1,
        },
{
    if i > v.len() || v.len() - i < 4 {
        return None;
    }
    let n = v.len();
    let mut total: u32 = 0;
    let mut k: usize = 0;
    while k < 4
        invariant
            n == v@.len(),
            i + 4 <= n,
            k <= 4,
            total < (if k == 0 {
                1u32
            } else if k == 1 {
                16u32
            } else if k == 2 {
                256u32
            } else if k == 3 {
                4096u32
            } else {
                65536u32
            }),
            forall|t: int| 0 <= t < k ==> #[trigger] hex_digit_val(v@[i as int + t]) >= 0,
            total as int == (if k == 0 {
                0int
            } else if k == 1 {
                hex_digit_val(v@[i as int])
            } else if k == 2 {
                hex_digit_val(v@[i as int]) * 16 + hex_digit_val(v@[i as int + 1])
            } else if k == 3 {
                hex_digit_val(v@[i as int]) * 256 + hex_digit_val(v@[i as int + 1]) * 16
                    + hex_digit_val(v@[i as int + 2])
            } else {
                hex_digit_val(v@[i as int]) * 4096 + hex_digit_val(v@[i as int + 1]) * 256
                    + hex_digit_val(v@[i as int + 2]) * 16 + hex_digit_val(v@[i as int + 3])
            }),
        decreases 4 - k,
    {
        let c = v[i + k];
        let d: u32 = if '0' <= c && c <= '9' {
            c as u32 - 48
        } else if 'a' <= c && c <= 'f' {
            c as u32 - 87
        } else if 'A' <= c && c <= 'F' {
            c as u32 - 55
        } else {
            return None;
        };
        proof {
            assert(d as int == hex_digit_val(v@[i as int + k]));
            assert(d < 16);
        }
        total = total * 16 + d;
        k += 1;
    }
    Some(total)
}

/// Relies on `char::from_u32`: it returns `Some` exactly for code points
/// outside the surrogate range and at most 0x10FFFF, and the returned
/// character has the given code point.
#[verifier::external_body]
fn char_from_u32(n: u32) -> (r: Option<char>)
    ensures
        r == (if n < 0xD800 || (0xE000 <= n && n <= 0x10FFFF) {
            Some(n as char)
        } else {
            None::<char>
        }),
{
    char::from_u32(n)
}

/// Decodes one escape, mirroring `parse_escape_s`.
fn parse_escape_e(v: &Vec<char>, i: usize) -> (r: Option<(char, usize)>)
    ensures
        match r {
            Some((c, j)) => parse_escape_s(v@, i as int) == Some((c, j as int)) && i < j <= v@.len(),
            None => parse_escape_s(v@, i as int) is None,
        },
{
    if i >= v.len() {
        return None;
    }
    let c = v[i];
    if c == '"' {
        Some(('"', i + 1))
    } else if c == '\\' {
        Some(('\\', i + 1))
    } else if c == '/' {
        Some(('/', i + 1))
    } else if c == 'b' {
        Some(('\u{8}', i + 1))
    } else if c == 'f' {
        Some(('\u{c}', i + 1))
    } else if c == 'n' {
        Some(('\n', i + 1))
    } else if c == 'r' {
        Some(('\r', i + 1))
    } else if c == 't' {
        Some(('\t', i + 1))
    } else if c == 'u' {
        let n = match hex4_e(v, i + 1) {
            Some(n) => n,
            None => {
                return None;
            },
        };
        if n < 0xD800 || (0xE000 <= n && n <= 0xFFFF) {
            match char_from_u32(n) {
                Some(ch) => Some((ch, i + 5)),
                None => {
                    proof {
                        assert(false);
                    }
                    None
                },
            }
        } else if n < 0xDC00 {
            if v.len() - i >= 7 && v[i + 5] == '\\' && v[i + 6] == 'u' {
                let m = match hex4_e(v, i + 7) {
                    Some(m) => m,
                    None => {
                        return None;
                    },
                };
                if 0xDC00 <= m && m < 0xE000 {
                    let code = 0x10000 + (n - 0xD800) * 0x400 + (m - 0xDC00);
                    match char_from_u32(code) {
                        Some(ch) => Some((ch, i + 11)),
                        None => {
                            proof {
                                assert(false);
                            }
                            None
                        },
                    }
                } else {
                    None
                }
            } else {
                None
            }
        } else {
            None
        }
    } else {
        None
    }
}

/// Parses a string body, mirroring `parse_string_s`.
fn parse_string_e(v: &Vec<char>, i: usize) -> (r: Option<(Vec<char>, usize)>)
    ensures
        match r {
            Some((t, k)) => parse_string_s(v@, i as int) == Some((t@, k as int)) && i < k
                <= v@.len(),
            None => parse_string_s(v@, i as int) is None,
        },
    decreases v@.len() - i,
{
    if i >= v.len() {
        return None;
    }
    let c = v[i];
    if c == '"' {
        let t: Vec<char> = Vec::new();
        proof {
            assert(t@ =~= Seq::<char>::empty());
        }
        Some((t, i + 1))
    } else if c == '\\' {
        match parse_escape_e(v, i + 1) {
            Some((ch, j)) => {
                if !(i + 1 < j && j <= v.len()) {
                    return None;
                }
                match parse_string_e(v, j) {
                    Some((mut t, k)) => {
                        let ghost told = t@;
                        t.insert(0, ch);
                        proof {
                            assert(t@ =~= seq![ch] + told);
                        }
                        Some((t, k))
                    },
                    None => None,
                }
            },
            None => None,
        }
    } else if (c as u32) < 32 {
        None
    } else {
        match parse_string_e(v, i + 1) {
            Some((mut t, k)) => {
                let ghost told = t@;
                t.insert(0, c);
                proof {
                    assert(t@ =~= seq![c] + told);
                }
                Some((t, k))
            },
            None => None,
        }
    }
}

/// First position at or after `i` past the number characters.
fn scan_num(v: &Vec<char>, i: usize) -> (r: usize)
    requires
        i <= v@.len(),
    ensures
        i <= r <= v@.len(),
        r as int == num_end(v@, i as int),
{
    let mut j = i;
    while j < v.len() && (('0' <= v[j] && v[j] <= '9') || v[j] == '-' || v[j] == '+' || v[j] == '.'
        || v[j] == 'e' || v[j] == 'E')
        invariant
            i <= j <= v@.len(),
            num_end(v@, i as int) == num_end(v@, j as int),
        decreases v@.len() - j,
    {
        j += 1;
    }
    j
}

/// Parses one value, mirroring `parse_value_s`.
pub fn parse_value_e(v: &Vec<char>, i: usize) -> (r: Option<(Json, usize)>)
    ensures
        match r {
            Some((j, k)) => parse_value_s(v@, i as int) == Some((j@, k as int)) && i < k <= v@.len(),
            None => parse_value_s(v@, i as int) is None,
        },
    decreases v@.len() - i, 2int,
{
    if i >= v.len() {
        return None;
    }
    let c = v[i];
    if c == '{' {
        let j = skip_ws(v, i + 1);
        match parse_members_e(v, j, true) {
            Some((members, e)) => Some((Json::Obj(members), e)),
            None => None,
        }
    } else if c == '[' {
        let j = skip_ws(v, i + 1);
        match parse_items_e(v, j, true) {
            Some((items, e)) => Some((Json::Arr(items), e)),
            None => None,
        }
    } else if c == '"' {
        match parse_string_e(v, i + 1) {
            Some((t, j)) => {
                let s = string_from_chars(&t);
                Some((Json::Str(s), j))
            },
            None => None,
        }
    } else if c == 't' {
        if v.len() - i >= 4 && v[i + 1] == 'r' && v[i + 2] == 'u' && v[i + 3] == 'e' {
            Some((Json::Bool(true), i + 4))
        } else {
            None
        }
    } else if c == 'f' {
        if v.len() - i >= 5 && v[i + 1] == 'a' && v[i + 2] == 'l' && v[i + 3] == 's' && v[i + 4]
            == 'e' {
            Some((Json::Bool(false), i + 5))
        } else {
            None
        }
    } else if c == 'n' {
        if v.len() - i >= 4 && v[i + 1] == 'u' && v[i + 2] == 'l' && v[i + 3] == 'l' {
            Some((Json::Null, i + 4))
        } else {
            None
        }
    } else if c == '-' || ('0' <= c && c <= '9') {
        let j = scan_num(v, i + 1);
        let mut raw: Vec<char> = Vec::new();
        let mut k = i;
        while k < j
            invariant
                i <= k <= j <= v@.len(),
                raw@ == v@.subrange(i as int, k as int),
            decreases j - k,
        {
            raw.push(v[k]);
            proof {
                assert(v@.subrange(i as int, k + 1) =~= v@.subrange(i as int, k as int) + seq![
                    v@[k as int],
                ]);
                assert(raw@ =~= v@.subrange(i as int, k + 1));
            }
            k += 1;
        }
        let s = string_from_chars(&raw);
        Some((Json::Num(s), j))
    } else {
        None
    }
}

/// Parses array items, mirroring `parse_items_s`.
pub fn parse_items_e(v: &Vec<char>, i: usize, allow_close: bool) -> (r: Option<(Vec<Json>, usize)>)
    requires
        i <= v@.len(),
    ensures
        match r {
            Some((items, e)) => parse_items_s(v@, i as int, allow_close) == Some(
                (view_list(items@), e as int),
            ) && i < e <= v@.len(),
            None => parse_items_s(v@, i as int, allow_close) is None,
        },
    decreases v@.len() - i, 3int,
{
    if i >= v.len() {
        return None;
    }
    if allow_close && v[i] == ']' {
        let items: Vec<Json> = Vec::new();
        proof {
            assert(view_list(items@) =~= Seq::<JsonV>::empty());
        }
        return Some((items, i + 1));
    }
    match parse_value_e(v, i) {
        Some((val, j)) => {
            let k = skip_ws(v, j);
            if k < v.len() {
                if v[k] == ',' {
                    let m = skip_ws(v, k + 1);
                    match parse_items_e(v, m, false) {
                        Some((mut rest, e)) => {
                            let ghost rold = rest@;
                            rest.insert(0, val);
                            proof {
                                assert(rest@.drop_first() =~= rold);
                                assert(view_list(rest@) =~= seq![rest@[0]@] + view_list(rold));
                            }
                            Some((rest, e))
                        },
                        None => None,
                    }
                } else if v[k] == ']' {
                    let mut items: Vec<Json> = Vec::new();
                    items.push(val);
                    proof {
                        assert(items@.drop_first() =~= Seq::<Json>::empty());
                        assert(view_list(Seq::<Json>::empty()) == Seq::<JsonV>::empty());
                        assert(view_list(items@) =~= seq![items@[0]@]);
                    }
                    Some((items, k + 1))
                } else {
                    None
                }
            } else {
                None
            }
        },
        None => None,
    }
}

/// Parses object members, mirroring `parse_members_s`.
pub fn parse_members_e(v: &Vec<char>, i: usize, allow_close: bool) -> (r: Option<
    (Vec<(String, Json)>, usize),
>)
    requires
        i <= v@.len(),
    ensures
        match r {
            Some((members, e)) => parse_members_s(v@, i as int, allow_close) == Some(
                (view_members(members@), e as int),
            ) && i < e <= v@.len(),
            None => parse_members_s(v@, i as int, allow_close) is None,
        },
    decreases v@.len() - i, 3int,
{
    if i >= v.len() {
        return None;
    }
    if allow_close && v[i] == '}' {
        let members: Vec<(String, Json)> = Vec::new();
        proof {
            assert(view_members(members@) =~= Seq::<(Seq<char>, JsonV)>::empty());
        }
        return Some((members, i + 1));
    }
    if v[i] != '"' {
        return None;
    }
    match parse_string_e(v, i + 1) {
        Some((key_chars, j)) => {
            let key = string_from_chars(&key_chars);
            let k = skip_ws(v, j);
            if k < v.len() && v[k] == ':' {
                let m = skip_ws(v, k + 1);
                match parse_value_e(v, m) {
                    Some((val, p)) => {
                        let q = skip_ws(v, p);
                        if q < v.len() {
                            if v[q] == ',' {
                                let w = skip_ws(v, q + 1);
                                match parse_members_e(v, w, false) {
                                    Some((mut rest, e)) => {
                                        let ghost rold = rest@;
                                        rest.insert(0, (key, val));
                                        proof {
                                            assert(rest@.drop_first() =~= rold);
                                            assert(view_members(rest@) =~= seq![
                                                (rest@[0].0@, rest@[0].1@),
                                            ] + view_members(rold));
                                        }
                                        Some((rest, e))
                                    },
                                    None => None,
                                }
                            } else if v[q] == '}' {
                                let mut members: Vec<(String, Json)> = Vec::new();
                                members.push((key, val));
                                proof {
                                    assert(members@.drop_first() =~= Seq::<(String, Json)>::empty());
                                    assert(view_members(Seq::<(String, Json)>::empty())
                                        == Seq::<(Seq<char>, JsonV)>::empty());
                                    assert(view_members(members@) =~= seq![
                                        (members@[0].0@, members@[0].1@),
                                    ]);
                                }
                                Some((members, q + 1))
                            } else {
                                None
                            }
                        } else {
                            None
                        }
                    },
                    None => None,
                }
            } else {
                None
            }
        },
        None => None,
    }
}

/// Parses a whole document, mirroring `parse_json_s`.
pub fn parse_json(s: &str) -> (r: Option<Json>)
    ensures
        match r {
            Some(j) => parse_json_s(s@) == Some(j@),
            None => parse_json_s(s@) is None,
        },
{
    let v = chars_of(s);
    let i = skip_ws(&v, 0);
    match parse_value_e(&v, i) {
        Some((j, k)) => {
            let e = skip_ws(&v, k);
            if e == v.len() {
                Some(j)
            } else {
                None
            }
        },
        None => None,
    }
}


/// String-slice equality by characters.
pub fn str_eq_chars(a: &str, b: &str) -> (r: bool)
    ensures
        r == (a@ == b@),
{
    let n = a.unicode_len();
    let m = b.unicode_len();
    if n != m {
        proof {
            if a@ == b@ {
                assert(a@.len() == b@.len());
            }
        }
        return false;
    }
    let mut i: usize = 0;
    while i < n
        invariant
            n == a@.len(),
            n == b@.len(),
            i <= n,
            forall|t: int| 0 <= t < i ==> a@[t] == b@[t],
        decreases n - i,
    {
        if a.get_char(i) != b.get_char(i) {
            proof {
                assert(a@[i as int] != b@[i as int]);
            }
            return false;
        }
        i += 1;
    }
    proof {
        assert(a@ =~= b@);
    }
    true
}

/// Member views index like the members themselves.
pub proof fn lemma_view_members_index(s: Seq<(String, Json)>)
    ensures
        view_members(s).len() == s.len(),
        forall|i: int| 0 <= i < s.len() ==> view_members(s)[i] == (s[i].0@, s[i].1@),
    decreases s.len(),
{
    if s.len() > 0 {
        lemma_view_members_index(s.drop_first());
        assert(view_members(s) == seq![(s[0].0@, s[0].1@)] + view_members(s.drop_first()));
        assert forall|i: int| 0 <= i < s.len() implies view_members(s)[i] == (s[i].0@, s[i].1@) by {
            if i > 0 {
                assert(view_members(s)[i] == view_members(s.drop_first())[i - 1]);
                assert(s.drop_first()[i - 1] == s[i]);
            }
        }
    }
}

/// Item views index like the items themselves.
pub proof fn lemma_view_list_index(s: Seq<Json>)
    ensures
        view_list(s).len() == s.len(),
        forall|i: int| 0 <= i < s.len() ==> view_list(s)[i] == s[i]@,
    decreases s.len(),
{
    if s.len() > 0 {
        lemma_view_list_index(s.drop_first());
        assert(view_list(s) == seq![s[0]@] + view_list(s.drop_first()));
        assert forall|i: int| 0 <= i < s.len() implies view_list(s)[i] == s[i]@ by {
            if i > 0 {
                assert(view_list(s)[i] == view_list(s.drop_first())[i - 1]);
                assert(s.drop_first()[i - 1] == s[i]);
            }
        }
    }
}

/// First binding of `key` in an object's member list, if any.
pub fn obj_get<'a>(members: &'a Vec<(String, Json)>, key: &str) -> (r: Option<&'a Json>)
    ensures
        match r {
            Some(j) => lookup(view_members(members@), key@) == Some(j@),
            None => lookup(view_members(members@), key@) is None,
        },
{
    let ghost vm = view_members(members@);
    proof {
        lemma_view_members_index(members@);
        assert(vm.skip(0) =~= vm);
    }
    let mut i: usize = 0;
    while i < members.len()
        invariant
            i <= members@.len(),
            vm == view_members(members@),
            vm.len() == members@.len(),
            forall|t: int| 0 <= t < members@.len() ==> vm[t] == (members@[t].0@, members@[t].1@),
            lookup(vm, key@) == lookup(vm.skip(i as int), key@),
        decreases members@.len() - i,
    {
        let hit = str_eq_chars(members[i].0.as_str(), key);
        proof {
            assert(vm.skip(i as int).len() == vm.len() - i);
            assert(vm.skip(i as int)[0] == vm[i as int]);
            assert(vm.skip(i as int).drop_first() =~= vm.skip(i + 1));
        }
        if hit {
            return Some(&members[i].1);
        }
        i += 1;
    }
    proof {
        assert(vm.skip(members@.len() as int) =~= Seq::<(Seq<char>, JsonV)>::empty());
    }
    None
}

/// A structural copy of a document.
pub fn json_clone(j: &Json) -> (r: Json)
    ensures
        r@ == j@,
    decreases j,
{
    match j {
        Json::Null => Json::Null,
        Json::Bool(b) => Json::Bool(*b),
        Json::Num(s) => Json::Num(s.clone()),
        Json::Str(s) => Json::Str(s.clone()),
        Json::Arr(v) => {
            let mut out: Vec<Json> = Vec::new();
            let mut i: usize = 0;
            while i < v.len()
                invariant
                    *j == Json::Arr(*v),
                    i <= v@.len(),
                    out@.len() == i,
                    forall|t: int| 0 <= t < i ==> out@[t]@ == v@[t]@,
                decreases v@.len() - i,
            {
                proof {
                    assert(*j == Json::Arr(*v));
                    assert(decreases_to!(*j => j->Arr_0));
                    assert(j->Arr_0 == *v);
                    assert(decreases_to!(j->Arr_0 => v@));
                    assert(decreases_to!(v@ => v@[i as int]));
                    assert(decreases_to!(*j => v@[i as int]));
                }
                let c = json_clone(&v[i]);
                out.push(c);
                i += 1;
            }
            proof {
                lemma_view_list_index(v@);
                lemma_view_list_index(out@);
                assert(view_list(out@) =~= view_list(v@));
            }
            Json::Arr(out)
        },
        Json::Obj(m) => {
            let mut out: Vec<(String, Json)> = Vec::new();
            let mut i: usize = 0;
            while i < m.len()
                invariant
                    *j == Json::Obj(*m),
                    i <= m@.len(),
                    out@.len() == i,
                    forall|t: int| 0 <= t < i ==> out@[t].0@ == m@[t].0@ && out@[t].1@ == m@[t].1@,
                decreases m@.len() - i,
            {
                proof {
                    assert(*j == Json::Obj(*m));
                    assert(decreases_to!(*j => j->Obj_0));
                    assert(j->Obj_0 == *m);
                    assert(decreases_to!(j->Obj_0 => m@));
                    assert(decreases_to!(m@ => m@[i as int]));
                    assert(decreases_to!(m@[i as int] => m@[i as int].1));
                    assert(decreases_to!(*j => m@[i as int].1));
                }
                let k = m[i].0.clone();
                let c = json_clone(&m[i].1);
                out.push((k, c));
                i += 1;
            }
            proof {
                lemma_view_members_index(m@);
                lemma_view_members_index(out@);
                assert(view_members(out@) =~= view_members(m@));
            }
            Json::Obj(out)
        },
    }
}

/// Value of a run of decimal digit characters, or a negative sentinel for an
/// empty or non-digit run.
pub open spec fn digits_val(s: Seq<char>) -> int
    decreases s.len(),
{
    if s.len() == 0 {
        -1
    } else if !('0' <= s.last() && s.last() <= '9') {
        -1
    } else if s.len() == 1 {
        s.last() as int - 48
    } else {
        let p = digits_val(s.drop_last());
        if p < 0 {
            -1
        } else {
            p * 10 + (s.last() as int - 48)
        }
    }
}

/// A digit run is worth at least any of its non-empty prefixes.
pub proof fn lemma_digits_val_mono(s: Seq<char>, i: int)
    requires
        1 <= i <= s.len(),
        digits_val(s) >= 0,
    ensures
        0 <= digits_val(s.take(i)) <= digits_val(s),
    decreases s.len() - i,
{
    if i == s.len() {
        assert(s.take(i) =~= s);
    } else {
        lemma_digits_val_mono(s, i + 1);
        assert(s.take(i + 1).drop_last() =~= s.take(i));
        assert(s.take(i + 1).last() == s[i]);
    }
}

/// A non-digit anywhere makes the whole run invalid.
pub proof fn lemma_digits_val_invalid(s: Seq<char>, i: int)
    requires
        0 <= i < s.len(),
        !('0' <= s[i] && s[i] <= '9'),
    ensures
        digits_val(s) < 0,
    decreases s.len(),
{
    if i == s.len() - 1 {
    } else {
        lemma_digits_val_invalid(s.drop_last(), i);
    }
}

/// Value of the decimal digits `v[from..to]`, when it fits a machine word.
pub fn parse_digits(v: &Vec<char>, from: usize, to: usize) -> (r: Option<u64>)
    requires
        from <= to <= v@.len(),
    ensures
        match r {
            Some(n) => digits_val(v@.subrange(from as int, to as int)) == n as int,
            None => digits_val(v@.subrange(from as int, to as int)) < 0 || digits_val(
                v@.subrange(from as int, to as int),
            ) > u64::MAX,
        },
{
    let ghost s = v@.subrange(from as int, to as int);
    if from == to {
        return None;
    }
    let mut acc: u64 = 0;
    let mut i: usize = from;
    while i < to
        invariant
            from <= i <= to <= v@.len(),
            s == v@.subrange(from as int, to as int),
            i > from ==> digits_val(s.take(i - from)) == acc as int,
            i == from ==> acc == 0,
        decreases to - i,
    {
        let c = v[i];
        if !('0' <= c && c <= '9') {
            proof {
                lemma_digits_val_invalid(s, i - from);
            }
            return None;
        }
        let d: u64 = (c as u32 - 48) as u64;
        proof {
            assert(s.take(i - from + 1).drop_last() =~= s.take(i - from));
            assert(s.take(i - from + 1).last() == s[i - from]);
            assert(s[i - from] == v@[i as int]);
        }
        if acc > 1844674407370955161u64 || (acc == 1844674407370955161u64 && d > 5) {
            proof {
                assert(digits_val(s.take(i - from + 1)) > u64::MAX);
                if digits_val(s) >= 0 {
                    lemma_digits_val_mono(s, i - from + 1);
                }
            }
            return None;
        }
        acc = acc * 10 + d;
        i += 1;
    }
    proof {
        assert(s.take(to - from) =~= s);
    }
    Some(acc)
}

/// The unsigned integer a number token denotes, if it is a plain digit run
/// that fits the word.
pub open spec fn as_u64(j: JsonV) -> Option<u64> {
    match j {
        JsonV::Num(raw) => if 0 <= digits_val(raw) <= u64::MAX {
            Some(digits_val(raw) as u64)
        } else {
            None
        },
        _ => None,
    }
}

pub open spec fn as_u32(j: JsonV) -> Option<u32> {
    match j {
        JsonV::Num(raw) => if 0 <= digits_val(raw) <= u32::MAX {
            Some(digits_val(raw) as u32)
        } else {
            None
        },
        _ => None,
    }
}

/// Reads a number token as an unsigned 64-bit integer.
pub fn json_u64(j: &Json) -> (r: Option<u64>)
    ensures
        r == as_u64(j@),
{
    match j {
        Json::Num(s) => {
            let v = chars_of(s.as_str());
            let n = v.len();
            proof {
                assert(v@.subrange(0, v@.len() as int) =~= v@);
            }
            parse_digits(&v, 0, n)
        },
        _ => None,
    }
}

/// Reads a number token as an unsigned 32-bit integer.
pub fn json_u32(j: &Json) -> (r: Option<u32>)
    ensures
        r == as_u32(j@),
{
    match json_u64(j) {
        Some(n) => if n <= 0xFFFF_FFFF {
            Some(n as u32)
        } else {
            None
        },
        None => None,
    }
}

} // verus!
