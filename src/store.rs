//! The cache file's format: one credential as a compact JSON object.
//!
//! `{"access_token":"..","refresh_token":"..","token_type":"..","expires_at":N,"scope":[".."]}`
//!
//! The refresh token, the expiry and the scope list are left out when the
//! credential has none; a missing member reads back as absent.
use vstd::prelude::*;
use crate::credential::{Credential, CredentialModel};
use crate::error::Error;
use crate::text::{decimal, decimal_spec, digit_char, digit_value, is_digit, numeral_value, push_char};

verus! {

pub const OPEN_ACCESS: &'static str = "{\"access_token\":";

pub const KEY_REFRESH: &'static str = ",\"refresh_token\":";

pub const KEY_TYPE: &'static str = ",\"token_type\":";

pub const KEY_EXPIRES: &'static str = ",\"expires_at\":";

pub const KEY_SCOPE: &'static str = ",\"scope\":[";

/// The character of a hexadecimal digit, in lower case.
pub open spec fn hex_char(d: nat) -> char {
    if d < 10 {
        digit_char(d)
    } else if d == 10 {
        'a'
    } else if d == 11 {
        'b'
    } else if d == 12 {
        'c'
    } else if d == 13 {
        'd'
    } else if d == 14 {
        'e'
    } else {
        'f'
    }
}

/// The value of a lower-case hexadecimal digit.
pub open spec fn hex_value(c: char) -> Option<nat> {
    if is_digit(c) {
        Some(digit_value(c))
    } else if 'a' <= c <= 'f' {
        Some((c as u32 - 'a' as u32 + 10) as nat)
    } else {
        None
    }
}

/// How one character stands inside a JSON string.
pub open spec fn escape_char(c: char) -> Seq<char> {
    if c == '"' {
        seq!['\\', '"']
    } else if c == '\\' {
        seq!['\\', '\\']
    } else if (c as u32) < 32 {
        seq!['\\', 'u', '0', '0', hex_char((c as u32 / 16) as nat), hex_char((c as u32 % 16) as nat)]
    } else {
        seq![c]
    }
}

/// The inside of the JSON string for `x`.
pub open spec fn escape(x: Seq<char>) -> Seq<char>
    decreases x.len(),
{
    if x.len() == 0 {
        Seq::empty()
    } else {
        escape_char(x[0]) + escape(x.drop_first())
    }
}

/// The JSON string for `x`.
pub open spec fn json_string(x: Seq<char>) -> Seq<char> {
    seq!['"'] + escape(x) + seq!['"']
}

/// The members of a non-empty array of strings after the first.
pub open spec fn list_tail(ss: Seq<Seq<char>>) -> Seq<char>
    decreases ss.len(),
{
    if ss.len() == 0 {
        Seq::empty()
    } else {
        seq![','] + json_string(ss[0]) + list_tail(ss.drop_first())
    }
}

/// The refresh token member, if any.
pub open spec fn refresh_part(r: Option<Seq<char>>) -> Seq<char> {
    match r {
        Some(r) => KEY_REFRESH@ + json_string(r),
        None => Seq::empty(),
    }
}

/// The expiry member, if any.
pub open spec fn expires_part(e: Option<u64>) -> Seq<char> {
    match e {
        Some(n) => KEY_EXPIRES@ + decimal_spec(n as nat),
        None => Seq::empty(),
    }
}

/// The scope member, left out when there are no scopes.
pub open spec fn scope_part(ss: Seq<Seq<char>>) -> Seq<char> {
    if ss.len() > 0 {
        KEY_SCOPE@ + json_string(ss[0]) + list_tail(ss.drop_first()) + seq![']']
    } else {
        Seq::empty()
    }
}

/// The cache document for a credential.
pub open spec fn encode_spec(m: CredentialModel) -> Seq<char> {
    OPEN_ACCESS@ + json_string(m.access_token) + refresh_part(m.refresh_token) + KEY_TYPE@
        + json_string(m.token_type) + expires_part(m.expires_at) + scope_part(m.scopes) + seq!['}']
}

// Reading a document back.

/// `lit` stands in `s` at `i`.
pub open spec fn lit_at(s: Seq<char>, i: int, lit: Seq<char>) -> bool {
    0 <= i && i + lit.len() <= s.len() && s.subrange(i, i + lit.len()) == lit
}

/// The rest of a JSON string from `i`, with `acc` read so far: its value
/// and the index after the closing quote.
pub open spec fn string_body(s: Seq<char>, i: int, acc: Seq<char>) -> Option<(Seq<char>, int)>
    decreases s.len() - i,
{
    if i < 0 || i >= s.len() {
        None
    } else if s[i] == '"' {
        Some((acc, i + 1))
    } else if s[i] == '\\' {
        if i + 1 >= s.len() {
            None
        } else if s[i + 1] == '"' || s[i + 1] == '\\' {
            string_body(s, i + 2, acc.push(s[i + 1]))
        } else if s[i + 1] == 'u' && i + 5 < s.len() && s[i + 2] == '0' && s[i + 3] == '0'
            && hex_value(s[i + 4]) is Some && hex_value(s[i + 5]) is Some && hex_value(
            s[i + 4],
        )->0 < 2 {
            string_body(
                s,
                i + 6,
                acc.push(
                    (((hex_value(s[i + 4])->0 * 16 + hex_value(s[i + 5])->0) as u8) as char),
                ),
            )
        } else {
            None
        }
    } else if (s[i] as u32) < 32 {
        None
    } else {
        string_body(s, i + 1, acc.push(s[i]))
    }
}

/// The JSON string that starts at `i`, and the index after it.
pub open spec fn string_at(s: Seq<char>, i: int) -> Option<(Seq<char>, int)> {
    if 0 <= i < s.len() && s[i] == '"' {
        string_body(s, i + 1, Seq::empty())
    } else {
        None
    }
}

/// The first index at or after `i` that holds no digit, or the end.
pub open spec fn digits_end(s: Seq<char>, i: int) -> int
    decreases s.len() - i,
{
    if i < 0 || i >= s.len() || !is_digit(s[i]) {
        i
    } else {
        digits_end(s, i + 1)
    }
}

/// The unsigned integer that starts at `i`, and the index after it.
pub open spec fn number_at(s: Seq<char>, i: int) -> Option<(u64, int)> {
    let e = digits_end(s, i);
    if e <= i || i < 0 {
        None
    } else if numeral_value(s.subrange(i, e)) > u64::MAX {
        None
    } else {
        Some((numeral_value(s.subrange(i, e)) as u64, e))
    }
}

/// The strings of an array from `i` on, after `acc`, up to and past `]`.
pub open spec fn list_items(s: Seq<char>, i: int, acc: Seq<Seq<char>>) -> Option<
    (Seq<Seq<char>>, int),
>
    decreases s.len() - i,
{
    match string_at(s, i) {
        None => None,
        Some((v, j)) => if j <= i {
            None
        } else if lit_at(s, j, seq![',']) {
            list_items(s, j + 1, acc.push(v))
        } else if lit_at(s, j, seq![']']) {
            Some((acc.push(v), j + 1))
        } else {
            None
        },
    }
}

/// The optional string member named by `key` at `i`.
pub open spec fn opt_string_member(s: Seq<char>, i: int, key: Seq<char>) -> Option<
    (Option<Seq<char>>, int),
> {
    if lit_at(s, i, key) {
        match string_at(s, i + key.len()) {
            Some((v, j)) => Some((Some(v), j)),
            None => None,
        }
    } else {
        Some((None, i))
    }
}

/// The optional number member named by `key` at `i`.
pub open spec fn opt_number_member(s: Seq<char>, i: int, key: Seq<char>) -> Option<
    (Option<u64>, int),
> {
    if lit_at(s, i, key) {
        match number_at(s, i + key.len()) {
            Some((v, j)) => Some((Some(v), j)),
            None => None,
        }
    } else {
        Some((None, i))
    }
}

/// The optional scope list at `i`; absent reads as empty.
pub open spec fn opt_list_member(s: Seq<char>, i: int) -> Option<(Seq<Seq<char>>, int)> {
    if lit_at(s, i, KEY_SCOPE@) {
        list_items(s, i + KEY_SCOPE@.len(), Seq::empty())
    } else {
        Some((Seq::empty(), i))
    }
}

/// The credential that a cache document holds, if it is one.
pub open spec fn decode_spec(s: Seq<char>) -> Option<CredentialModel> {
    if !lit_at(s, 0, OPEN_ACCESS@) {
        None
    } else {
        match string_at(s, OPEN_ACCESS@.len() as int) {
            None => None,
            Some((access_token, i1)) => match opt_string_member(s, i1, KEY_REFRESH@) {
                None => None,
                Some((refresh_token, i2)) => if !lit_at(s, i2, KEY_TYPE@) {
                    None
                } else {
                    match string_at(s, i2 + KEY_TYPE@.len()) {
                        None => None,
                        Some((token_type, i3)) => match opt_number_member(s, i3, KEY_EXPIRES@) {
                            None => None,
                            Some((expires_at, i4)) => match opt_list_member(s, i4) {
                                None => None,
                                Some((scopes, i5)) => if i5 + 1 == s.len() && lit_at(
                                    s,
                                    i5,
                                    seq!['}'],
                                ) && access_token.len() > 0 {
                                    Some(
                                        CredentialModel {
                                            access_token,
                                            refresh_token,
                                            token_type,
                                            expires_at,
                                            scopes,
                                        },
                                    )
                                } else {
                                    None
                                },
                            },
                        },
                    }
                },
            },
        }
    }
}

// The round trip.

proof fn lemma_hex(d: nat)
    requires
        d < 16,
    ensures
        hex_value(hex_char(d)) == Some(d),
{
    if d < 10 {
        crate::text::lemma_digit(d);
    }
}

proof fn lemma_control_char(c: char)
    requires
        (c as u32) < 32,
    ensures
        hex_value(hex_char((c as u32 / 16) as nat)) == Some((c as u32 / 16) as nat),
        hex_value(hex_char((c as u32 % 16) as nat)) == Some((c as u32 % 16) as nat),
        (c as u32 / 16) < 2,
        ((((c as u32 / 16) as nat * 16 + (c as u32 % 16) as nat) as u8) as char) == c,
{
    lemma_hex((c as u32 / 16) as nat);
    lemma_hex((c as u32 % 16) as nat);
    assert(((c as u32 / 16) as nat * 16 + (c as u32 % 16) as nat) == c as u32);
}

/// A string's escaped inside, followed by a quote, reads back as the string.
proof fn lemma_string_body(s: Seq<char>, i: int, acc: Seq<char>, x: Seq<char>)
    requires
        0 <= i,
        i + escape(x).len() < s.len(),
        s.subrange(i, i + escape(x).len() + 1) == escape(x) + seq!['"'],
    ensures
        string_body(s, i, acc) == Some((acc + x, i + escape(x).len() + 1)),
    decreases x.len(),
{
    let t = s.subrange(i, i + escape(x).len() + 1);
    if x.len() == 0 {
        assert(t[0] == s[i]);
        assert(acc + x =~= acc);
    } else {
        let c = x[0];
        let e = escape_char(c);
        let rest = x.drop_first();
        assert(escape(x) == e + escape(rest));
        let k = e.len() as int;
        assert forall|j: int| 0 <= j < k implies s[i + j] == e[j] by {
            assert(t[j] == s[i + j]);
            assert(t[j] == (e + escape(rest) + seq!['"'])[j]);
        }
        assert(s.subrange(i + k, i + k + escape(rest).len() + 1) =~= escape(rest) + seq!['"']) by {
            assert forall|j: int| 0 <= j < escape(rest).len() + 1 implies s[i + k + j] == (escape(
                rest,
            ) + seq!['"'])[j] by {
                assert(t[k + j] == s[i + k + j]);
                assert(t[k + j] == (e + escape(rest) + seq!['"'])[k + j]);
            }
        }
        lemma_string_body(s, i + k, acc.push(c), rest);
        assert(acc.push(c) + rest =~= acc + x);
        if c == '"' || c == '\\' {
            assert(s[i] == e[0] && s[i + 1] == e[1]);
            assert(string_body(s, i, acc) == string_body(s, i + 2, acc.push(c)));
        } else if (c as u32) < 32 {
            lemma_control_char(c);
            assert(s[i] == e[0] && s[i + 1] == e[1] && s[i + 2] == e[2] && s[i + 3] == e[3]);
            assert(s[i + 4] == e[4] && s[i + 5] == e[5]);
            assert(string_body(s, i, acc) == string_body(s, i + 6, acc.push(c)));
        } else {
            assert(s[i] == e[0]);
            assert(string_body(s, i, acc) == string_body(s, i + 1, acc.push(c)));
        }
    }
}

/// A JSON string reads back as its value.
proof fn lemma_string_at(s: Seq<char>, i: int, x: Seq<char>)
    requires
        0 <= i,
        i + json_string(x).len() <= s.len(),
        s.subrange(i, i + json_string(x).len()) == json_string(x),
    ensures
        string_at(s, i) == Some((x, i + json_string(x).len())),
        json_string(x).len() >= 2,
{
    let t = s.subrange(i, i + json_string(x).len());
    assert(t[0] == s[i]);
    assert(s.subrange(i + 1, i + 1 + escape(x).len() + 1) =~= escape(x) + seq!['"']) by {
        assert forall|j: int| 0 <= j < escape(x).len() + 1 implies s[i + 1 + j] == (escape(x)
            + seq!['"'])[j] by {
            assert(t[1 + j] == s[i + 1 + j]);
        }
    }
    lemma_string_body(s, i + 1, Seq::empty(), x);
    assert(Seq::<char>::empty() + x =~= x);
}

proof fn lemma_digits_end(s: Seq<char>, k: int, e: int)
    requires
        0 <= k <= e < s.len(),
        forall|j: int| k <= j < e ==> is_digit(#[trigger] s[j]),
        !is_digit(s[e]),
    ensures
        digits_end(s, k) == e,
    decreases e - k,
{
    if k < e {
        lemma_digits_end(s, k + 1, e);
    }
}

/// A numeral followed by a character other than a digit reads back as its
/// number.
proof fn lemma_number_at(s: Seq<char>, i: int, n: u64)
    requires
        0 <= i,
        i + decimal_spec(n as nat).len() < s.len(),
        s.subrange(i, i + decimal_spec(n as nat).len()) == decimal_spec(n as nat),
        !is_digit(s[i + decimal_spec(n as nat).len()]),
    ensures
        number_at(s, i) == Some((n, i + decimal_spec(n as nat).len())),
{
    let d = decimal_spec(n as nat);
    crate::text::lemma_decimal(n as nat);
    assert forall|j: int| i <= j < i + d.len() implies is_digit(#[trigger] s[j]) by {
        assert(s.subrange(i, i + d.len())[j - i] == s[j]);
        assert(is_digit(d[j - i]));
    }
    lemma_digits_end(s, i, i + d.len());
}

/// The strings of a non-empty array, past its `[`, read back in order.
proof fn lemma_list_items(s: Seq<char>, i: int, acc: Seq<Seq<char>>, ss: Seq<Seq<char>>)
    requires
        ss.len() > 0,
        0 <= i,
        i + (json_string(ss[0]) + list_tail(ss.drop_first()) + seq![']']).len() <= s.len(),
        s.subrange(i, i + (json_string(ss[0]) + list_tail(ss.drop_first()) + seq![']']).len())
            == json_string(ss[0]) + list_tail(ss.drop_first()) + seq![']'],
    ensures
        list_items(s, i, acc) == Some(
            (
                acc + ss,
                i + (json_string(ss[0]) + list_tail(ss.drop_first()) + seq![']']).len(),
            ),
        ),
    decreases ss.len(),
{
    let first = json_string(ss[0]);
    let rest = ss.drop_first();
    let enc = first + list_tail(rest) + seq![']'];
    let t = s.subrange(i, i + enc.len());
    let j = i + first.len();
    assert(s.subrange(i, i + first.len()) =~= first) by {
        assert forall|k: int| 0 <= k < first.len() implies s[i + k] == first[k] by {
            assert(t[k] == s[i + k]);
        }
    }
    lemma_string_at(s, i, ss[0]);
    if rest.len() == 0 {
        assert(list_tail(rest) =~= Seq::<char>::empty());
        assert(t[first.len() as int] == s[j]);
        assert(s[j] == ']');
        assert(s.subrange(j, j + 1) =~= seq![']']);
        assert(acc.push(ss[0]) =~= acc + ss);
    } else {
        let first2 = json_string(rest[0]);
        let enc2 = first2 + list_tail(rest.drop_first()) + seq![']'];
        assert(list_tail(rest) == seq![','] + first2 + list_tail(rest.drop_first()));
        assert(t[first.len() as int] == s[j]);
        assert(s[j] == ',');
        assert(s.subrange(j, j + 1) =~= seq![',']);
        assert(s.subrange(j + 1, j + 1 + enc2.len()) =~= enc2) by {
            assert forall|k: int| 0 <= k < enc2.len() implies s[j + 1 + k] == enc2[k] by {
                assert(t[first.len() + 1 + k] == s[j + 1 + k]);
            }
        }
        assert(enc.len() == first.len() + 1 + enc2.len());
        lemma_list_items(s, j + 1, acc.push(ss[0]), rest);
        assert(acc.push(ss[0]) + rest =~= acc + ss);
    }
}

proof fn lemma_refresh_member(s: Seq<char>, o2: int, o3: int, r: Option<Seq<char>>)
    requires
        0 <= o2 <= o3,
        o3 + KEY_TYPE@.len() <= s.len(),
        s.subrange(o2, o3) == refresh_part(r),
        s.subrange(o3, o3 + KEY_TYPE@.len()) == KEY_TYPE@,
    ensures
        opt_string_member(s, o2, KEY_REFRESH@) == Some((r, o3)),
{
    reveal_strlit(",\"refresh_token\":");
    reveal_strlit(",\"token_type\":");
    assert(s.subrange(o2, o3).len() == o3 - o2);
    match r {
        Some(r) => {
            let k = KEY_REFRESH@.len() as int;
            assert(s.subrange(o2, o2 + k) =~= KEY_REFRESH@) by {
                assert forall|j: int| 0 <= j < k implies s[o2 + j] == KEY_REFRESH@[j] by {
                    assert(s.subrange(o2, o3)[j] == s[o2 + j]);
                }
            }
            assert(s.subrange(o2 + k, o3) =~= json_string(r)) by {
                assert forall|j: int| 0 <= j < o3 - o2 - k implies s[o2 + k + j] == json_string(
                    r,
                )[j] by {
                    assert(s.subrange(o2, o3)[k + j] == s[o2 + k + j]);
                }
            }
            lemma_string_at(s, o2 + k, r);
        },
        None => {
            assert(o2 == o3);
            if lit_at(s, o2, KEY_REFRESH@) {
                assert(s.subrange(o3, o3 + KEY_TYPE@.len())[2] == s[o2 + 2]);
                assert(s.subrange(o2, o2 + KEY_REFRESH@.len())[2] == s[o2 + 2]);
                assert(false);
            }
        },
    }
}

proof fn lemma_expires_member(s: Seq<char>, o5: int, o6: int, e: Option<u64>)
    requires
        0 <= o5 <= o6 < s.len(),
        s.subrange(o5, o6) == expires_part(e),
        s[o6] == '}' || (o6 + 2 < s.len() && s[o6] == ',' && s[o6 + 2] == 's'),
    ensures
        opt_number_member(s, o5, KEY_EXPIRES@) == Some((e, o6)),
{
    reveal_strlit(",\"expires_at\":");
    assert(s.subrange(o5, o6).len() == o6 - o5);
    match e {
        Some(n) => {
            let k = KEY_EXPIRES@.len() as int;
            let d = decimal_spec(n as nat);
            assert(s.subrange(o5, o5 + k) =~= KEY_EXPIRES@) by {
                assert forall|j: int| 0 <= j < k implies s[o5 + j] == KEY_EXPIRES@[j] by {
                    assert(s.subrange(o5, o6)[j] == s[o5 + j]);
                }
            }
            assert(s.subrange(o5 + k, o6) =~= d) by {
                assert forall|j: int| 0 <= j < d.len() implies s[o5 + k + j] == d[j] by {
                    assert(s.subrange(o5, o6)[k + j] == s[o5 + k + j]);
                }
            }
            lemma_number_at(s, o5 + k, n);
        },
        None => {
            assert(o5 == o6);
            if lit_at(s, o5, KEY_EXPIRES@) {
                assert(s.subrange(o5, o5 + KEY_EXPIRES@.len())[2] == s[o5 + 2]);
                assert(s.subrange(o5, o5 + KEY_EXPIRES@.len())[0] == s[o5]);
                assert(false);
            }
        },
    }
}

proof fn lemma_scope_member(s: Seq<char>, o6: int, o7: int, ss: Seq<Seq<char>>)
    requires
        0 <= o6 <= o7 < s.len(),
        s.subrange(o6, o7) == scope_part(ss),
        s[o7] == '}',
    ensures
        opt_list_member(s, o6) == Some((ss, o7)),
{
    reveal_strlit(",\"scope\":[");
    assert(s.subrange(o6, o7).len() == o7 - o6);
    if ss.len() > 0 {
        let k = KEY_SCOPE@.len() as int;
        let rest = json_string(ss[0]) + list_tail(ss.drop_first()) + seq![']'];
        assert(s.subrange(o6, o6 + k) =~= KEY_SCOPE@) by {
            assert forall|j: int| 0 <= j < k implies s[o6 + j] == KEY_SCOPE@[j] by {
                assert(s.subrange(o6, o7)[j] == s[o6 + j]);
            }
        }
        assert(s.subrange(o6 + k, o7) =~= rest) by {
            assert forall|j: int| 0 <= j < rest.len() implies s[o6 + k + j] == rest[j] by {
                assert(s.subrange(o6, o7)[k + j] == s[o6 + k + j]);
            }
        }
        lemma_list_items(s, o6 + k, Seq::empty(), ss);
        assert(Seq::<Seq<char>>::empty() + ss =~= ss);
    } else {
        assert(o6 == o7);
        if lit_at(s, o6, KEY_SCOPE@) {
            assert(s.subrange(o6, o6 + KEY_SCOPE@.len())[0] == s[o6]);
            assert(false);
        }
    }
}

/// Where each part of a credential's document stands.
#[verifier::rlimit(100)]
proof fn lemma_layout(m: CredentialModel)
    ensures
        ({
            let s = encode_spec(m);
            let o1 = OPEN_ACCESS@.len() as int;
            let o2 = o1 + json_string(m.access_token).len();
            let o3 = o2 + refresh_part(m.refresh_token).len();
            let o4 = o3 + KEY_TYPE@.len();
            let o5 = o4 + json_string(m.token_type).len();
            let o6 = o5 + expires_part(m.expires_at).len();
            let o7 = o6 + scope_part(m.scopes).len();
            &&& s.len() == o7 + 1
            &&& s.subrange(0, o1) == OPEN_ACCESS@
            &&& s.subrange(o1, o2) == json_string(m.access_token)
            &&& s.subrange(o2, o3) == refresh_part(m.refresh_token)
            &&& s.subrange(o3, o4) == KEY_TYPE@
            &&& s.subrange(o4, o5) == json_string(m.token_type)
            &&& s.subrange(o5, o6) == expires_part(m.expires_at)
            &&& s.subrange(o6, o7) == scope_part(m.scopes)
            &&& s[o7] == '}'
            &&& (m.scopes.len() > 0 ==> s[o6] == scope_part(m.scopes)[0] && s[o6 + 2] == scope_part(m.scopes)[2])
        }),
{
    let s = encode_spec(m);
    let q1 = OPEN_ACCESS@ + json_string(m.access_token);
    let q2 = q1 + refresh_part(m.refresh_token);
    let q3 = q2 + KEY_TYPE@;
    let q4 = q3 + json_string(m.token_type);
    let q5 = q4 + expires_part(m.expires_at);
    let q6 = q5 + scope_part(m.scopes);
    assert(s == q6 + seq!['}']);
    assert(s.subrange(0, q6.len() as int) =~= q6);
    assert(q6.subrange(0, q5.len() as int) =~= q5);
    assert(q5.subrange(0, q4.len() as int) =~= q4);
    assert(q4.subrange(0, q3.len() as int) =~= q3);
    assert(q3.subrange(0, q2.len() as int) =~= q2);
    assert(q2.subrange(0, q1.len() as int) =~= q1);
    assert(s.subrange(0, OPEN_ACCESS@.len() as int) =~= OPEN_ACCESS@);
    assert(s.subrange(OPEN_ACCESS@.len() as int, q1.len() as int) =~= json_string(m.access_token));
    assert(s.subrange(q1.len() as int, q2.len() as int) =~= refresh_part(m.refresh_token));
    assert(s.subrange(q2.len() as int, q3.len() as int) =~= KEY_TYPE@);
    assert(s.subrange(q3.len() as int, q4.len() as int) =~= json_string(m.token_type));
    assert(s.subrange(q4.len() as int, q5.len() as int) =~= expires_part(m.expires_at));
    assert(s.subrange(q5.len() as int, q6.len() as int) =~= scope_part(m.scopes));
}

/// Every valid credential's cache document reads back as that same
/// credential, with or without a refresh token, an expiry or scopes.
pub proof fn lemma_round_trip(m: CredentialModel)
    requires
        m.wf(),
    ensures
        decode_spec(encode_spec(m)) == Some(m),
{
    reveal_strlit(",\"scope\":[");
    let s = encode_spec(m);
    let o1 = OPEN_ACCESS@.len() as int;
    let o2 = o1 + json_string(m.access_token).len();
    let o3 = o2 + refresh_part(m.refresh_token).len();
    let o4 = o3 + KEY_TYPE@.len();
    let o5 = o4 + json_string(m.token_type).len();
    let o6 = o5 + expires_part(m.expires_at).len();
    let o7 = o6 + scope_part(m.scopes).len();
    lemma_layout(m);
    lemma_string_at(s, o1, m.access_token);
    lemma_refresh_member(s, o2, o3, m.refresh_token);
    lemma_string_at(s, o4, m.token_type);
    lemma_expires_member(s, o5, o6, m.expires_at);
    lemma_scope_member(s, o6, o7, m.scopes);
    assert(s.subrange(o7, o7 + 1) =~= seq!['}']);
    assert(lit_at(s, 0, OPEN_ACCESS@));
    assert(lit_at(s, o3, KEY_TYPE@));
}

// Writing a document.

proof fn lemma_escape_concat(a: Seq<char>, b: Seq<char>)
    ensures
        escape(a + b) == escape(a) + escape(b),
    decreases a.len(),
{
    if a.len() == 0 {
        assert(a + b =~= b);
        assert(escape(a) + escape(b) =~= escape(b));
    } else {
        assert((a + b).drop_first() =~= a.drop_first() + b);
        lemma_escape_concat(a.drop_first(), b);
        assert(escape(a + b) =~= escape(a) + escape(b));
    }
}

proof fn lemma_list_tail_push(a: Seq<Seq<char>>, x: Seq<char>)
    ensures
        list_tail(a.push(x)) == list_tail(a) + seq![','] + json_string(x),
    decreases a.len(),
{
    if a.len() == 0 {
        assert(a.push(x).drop_first() =~= Seq::<Seq<char>>::empty());
        assert(a.push(x)[0] == x);
        assert(list_tail(Seq::<Seq<char>>::empty()) =~= Seq::<char>::empty());
        assert(list_tail(a) =~= Seq::<char>::empty());
        assert(list_tail(a.push(x)) == seq![','] + json_string(x) + list_tail(a.push(x).drop_first()));
        assert(list_tail(a.push(x)) =~= list_tail(a) + seq![','] + json_string(x));
    } else {
        assert(a.push(x).drop_first() =~= a.drop_first().push(x));
        lemma_list_tail_push(a.drop_first(), x);
        assert(a.push(x)[0] == a[0]);
        assert(list_tail(a.push(x)) == seq![','] + json_string(a[0]) + list_tail(a.drop_first().push(x)));
        assert(list_tail(a) == seq![','] + json_string(a[0]) + list_tail(a.drop_first()));
        assert(list_tail(a.push(x)) =~= list_tail(a) + seq![','] + json_string(x));
    }
}

fn hex_digit(d: u32) -> (c: char)
    requires
        d < 16,
    ensures
        c == hex_char(d as nat),
{
    if d < 10 {
        crate::text::digit(d as u64)
    } else if d == 10 {
        'a'
    } else if d == 11 {
        'b'
    } else if d == 12 {
        'c'
    } else if d == 13 {
        'd'
    } else if d == 14 {
        'e'
    } else {
        'f'
    }
}

fn push_escaped_char(out: &mut String, c: char)
    ensures
        final(out)@ == old(out)@ + escape_char(c),
{
    if c == '"' || c == '\\' {
        push_char(out, '\\');
        push_char(out, c);
    } else if (c as u32) < 32 {
        push_char(out, '\\');
        push_char(out, 'u');
        push_char(out, '0');
        push_char(out, '0');
        push_char(out, hex_digit(c as u32 / 16));
        push_char(out, hex_digit(c as u32 % 16));
    } else {
        push_char(out, c);
    }
    assert(final(out)@ =~= old(out)@ + escape_char(c));
}

/// Appends the JSON string for `x`.
fn push_json_string(out: &mut String, x: &str)
    ensures
        final(out)@ == old(out)@ + json_string(x@),
{
    let ghost start = out@;
    push_char(out, '"');
    let n = x.unicode_len();
    let mut i: usize = 0;
    assert(x@.take(0) =~= Seq::<char>::empty());
    while i < n
        invariant
            n == x@.len(),
            0 <= i <= n,
            out@ == start + seq!['"'] + escape(x@.take(i as int)),
        decreases n - i,
    {
        let c = x.get_char(i);
        push_escaped_char(out, c);
        proof {
            assert(x@.take(i + 1) =~= x@.take(i as int) + seq![c]);
            lemma_escape_concat(x@.take(i as int), seq![c]);
            assert(escape(seq![c]) =~= escape_char(c)) by {
                assert(seq![c].drop_first() =~= Seq::<char>::empty());
                assert(escape(Seq::<char>::empty()) =~= Seq::<char>::empty());
                assert(seq![c][0] == c);
                assert(escape(seq![c]) == escape_char(c) + escape(seq![c].drop_first()));
            }
        }
        i = i + 1;
    }
    push_char(out, '"');
    assert(x@.take(n as int) =~= x@);
    assert(out@ =~= start + json_string(x@));
}

/// The cache document for a credential.
pub fn encode(c: &Credential) -> (r: String)
    ensures
        r@ == encode_spec(c@),
{
    let mut out = String::from_str(OPEN_ACCESS);
    push_json_string(&mut out, c.access_token.as_str());
    match &c.refresh_token {
        Some(r) => {
            out.append(KEY_REFRESH);
            push_json_string(&mut out, r.as_str());
        },
        None => {},
    }
    out.append(KEY_TYPE);
    push_json_string(&mut out, c.token_type.as_str());
    match c.expires_at {
        Some(n) => {
            out.append(KEY_EXPIRES);
            let d = decimal(n);
            out.append(d.as_str());
        },
        None => {},
    }
    let ghost ss = c@.scopes;
    let ghost before = out@;
    let len = c.scopes.len();
    if len > 0 {
        out.append(KEY_SCOPE);
        push_json_string(&mut out, c.scopes[0].as_str());
        let mut i: usize = 1;
        assert(ss.subrange(1, 1) =~= Seq::<Seq<char>>::empty());
        while i < len
            invariant
                len == c.scopes@.len(),
                ss == c@.scopes,
                ss.len() == len,
                1 <= i <= len,
                out@ == before + KEY_SCOPE@ + json_string(ss[0]) + list_tail(ss.subrange(1, i as int)),
            decreases len - i,
        {
            push_char(&mut out, ',');
            push_json_string(&mut out, c.scopes[i].as_str());
            proof {
                assert(ss.subrange(1, i + 1) =~= ss.subrange(1, i as int).push(ss[i as int]));
                lemma_list_tail_push(ss.subrange(1, i as int), ss[i as int]);
            }
            i = i + 1;
        }
        push_char(&mut out, ']');
        assert(ss.subrange(1, len as int) =~= ss.drop_first());
    }
    push_char(&mut out, '}');
    assert(out@ =~= encode_spec(c@));
    out
}

// Reading a document, step for step as `decode_spec` does.

fn lit_at_exec(s: &str, n: usize, i: usize, lit: &str) -> (r: bool)
    requires
        n == s@.len(),
    ensures
        r == lit_at(s@, i as int, lit@),
{
    let m = lit.unicode_len();
    if i > n || m > n - i {
        return false;
    }
    let mut j: usize = 0;
    while j < m
        invariant
            n == s@.len(),
            m == lit@.len(),
            i + m <= n,
            0 <= j <= m,
            s@.subrange(i as int, i + j) =~= lit@.subrange(0, j as int),
        decreases m - j,
    {
        if s.get_char(i + j) != lit.get_char(j) {
            assert(s@.subrange(i as int, i + m)[j as int] == s@[i + j]);
            return false;
        }
        assert(s@.subrange(i as int, i + j + 1) =~= lit@.subrange(0, j + 1)) by {
            assert forall|k: int| 0 <= k < j + 1 implies #[trigger] s@.subrange(i as int, i + j + 1)[k]
                == lit@.subrange(0, j + 1)[k] by {
                if k < j {
                    assert(s@.subrange(i as int, i + j)[k] == lit@.subrange(0, j as int)[k]);
                }
            }
        }
        j = j + 1;
    }
    assert(lit@.subrange(0, m as int) =~= lit@);
    true
}

fn hex_val(c: char) -> (r: Option<u32>)
    ensures
        match r {
            Some(v) => hex_value(c) == Some(v as nat) && v < 16,
            None => hex_value(c) is None,
        },
{
    if '0' <= c && c <= '9' {
        Some(c as u32 - '0' as u32)
    } else if 'a' <= c && c <= 'f' {
        Some(c as u32 - 'a' as u32 + 10)
    } else {
        None
    }
}

fn string_at_exec(s: &str, n: usize, i: usize) -> (r: Option<(String, usize)>)
    requires
        n == s@.len(),
    ensures
        match r {
            Some((v, j)) => string_at(s@, i as int) == Some((v@, j as int)) && j <= n,
            None => string_at(s@, i as int) is None,
        },
{
    if i >= n || s.get_char(i) != '"' {
        return None;
    }
    let mut acc = String::new();
    let mut k: usize = i + 1;
    while k < n
        invariant
            n == s@.len(),
            i < k <= n,
            string_at(s@, i as int) == string_body(s@, k as int, acc@),
        decreases n - k,
    {
        let c = s.get_char(k);
        if c == '"' {
            return Some((acc, k + 1));
        } else if c == '\\' {
            if k + 1 >= n {
                return None;
            }
            let e = s.get_char(k + 1);
            if e == '"' || e == '\\' {
                push_char(&mut acc, e);
                k = k + 2;
            } else if e == 'u' && 5 < n - k && s.get_char(k + 2) == '0' && s.get_char(k + 3)
                == '0' {
                let h = hex_val(s.get_char(k + 4));
                let l = hex_val(s.get_char(k + 5));
                match (h, l) {
                    (Some(h), Some(l)) => {
                        if h < 2 {
                            let b: u8 = (h * 16 + l) as u8;
                            push_char(&mut acc, b as char);
                            k = k + 6;
                        } else {
                            return None;
                        }
                    },
                    _ => {
                        return None;
                    },
                }
            } else {
                return None;
            }
        } else if (c as u32) < 32 {
            return None;
        } else {
            push_char(&mut acc, c);
            k = k + 1;
        }
    }
    None
}

proof fn lemma_digits_end_bounds(s: Seq<char>, k: int)
    requires
        0 <= k <= s.len(),
    ensures
        k <= digits_end(s, k) <= s.len(),
    decreases s.len() - k,
{
    if k < s.len() && is_digit(s[k]) {
        lemma_digits_end_bounds(s, k + 1);
    }
}

proof fn lemma_numeral_grows(s: Seq<char>, i: int, k: int, e: int)
    requires
        0 <= i <= k <= e <= s.len(),
    ensures
        numeral_value(s.subrange(i, k)) <= numeral_value(s.subrange(i, e)),
    decreases e - k,
{
    if k < e {
        lemma_numeral_grows(s, i, k + 1, e);
        assert(s.subrange(i, k + 1).drop_last() =~= s.subrange(i, k));
    }
}

fn number_at_exec(s: &str, n: usize, i: usize) -> (r: Option<(u64, usize)>)
    requires
        n == s@.len(),
        i <= n,
    ensures
        match r {
            Some((v, j)) => number_at(s@, i as int) == Some((v, j as int)) && j <= n,
            None => number_at(s@, i as int) is None,
        },
{
    let mut k: usize = i;
    let mut acc: u64 = 0;
    let mut done = false;
    assert(s@.subrange(i as int, i as int) =~= Seq::<char>::empty());
    while k < n && !done
        invariant
            n == s@.len(),
            i <= k <= n,
            acc == numeral_value(s@.subrange(i as int, k as int)),
            digits_end(s@, i as int) == digits_end(s@, k as int),
            done ==> k < n && !is_digit(s@[k as int]),
        decreases n - k + (if done { 0int } else { 1int }),
    {
        let c = s.get_char(k);
        if '0' <= c && c <= '9' {
            let d = (c as u32 - '0' as u32) as u64;
            proof {
                assert(s@.subrange(i as int, k + 1).drop_last() =~= s@.subrange(i as int, k as int));
                assert(s@.subrange(i as int, k + 1).last() == c);
            }
            if acc > (u64::MAX - d) / 10 {
                proof {
                    lemma_digits_end_bounds(s@, k + 1);
                    assert(digits_end(s@, k as int) == digits_end(s@, k + 1));
                    lemma_numeral_grows(s@, i as int, k + 1, digits_end(s@, k as int));
                    crate::text::lemma_digit(d as nat);
                }
                assert(numeral_value(s@.subrange(i as int, k + 1)) > u64::MAX);
                return None;
            }
            acc = acc * 10 + d;
            k = k + 1;
        } else {
            done = true;
        }
    }
    assert(digits_end(s@, k as int) == k as int);
    if k == i {
        return None;
    }
    Some((acc, k))
}

fn list_items_exec(s: &str, n: usize, i: usize) -> (r: Option<(Vec<String>, usize)>)
    requires
        n == s@.len(),
    ensures
        match r {
            Some((v, j)) => list_items(s@, i as int, Seq::empty()) == Some(
                (crate::credential::strings_view(v@), j as int),
            ) && j <= n,
            None => list_items(s@, i as int, Seq::empty()) is None,
        },
{
    let mut acc: Vec<String> = Vec::new();
    let mut k: usize = i;
    assert(crate::credential::strings_view(acc@) =~= Seq::<Seq<char>>::empty());
    loop
        invariant
            n == s@.len(),
            list_items(s@, i as int, Seq::empty()) == list_items(
                s@,
                k as int,
                crate::credential::strings_view(acc@),
            ),
        decreases n + 1 - k,
    {
        let (v, j) = match string_at_exec(s, n, k) {
            Some(p) => p,
            None => return None,
        };
        if j <= k {
            return None;
        }
        let ghost before = crate::credential::strings_view(acc@);
        let ghost vv = v@;
        acc.push(v);
        assert(crate::credential::strings_view(acc@) =~= before.push(vv));
        if lit_at_exec(s, n, j, ",") {
            proof {
                reveal_strlit(",");
                assert(","@ =~= seq![',']);
            }
            k = j + 1;
        } else if lit_at_exec(s, n, j, "]") {
            proof {
                reveal_strlit(",");
                reveal_strlit("]");
                assert(","@ =~= seq![',']);
                assert("]"@ =~= seq![']']);
            }
            return Some((acc, j + 1));
        } else {
            proof {
                reveal_strlit(",");
                reveal_strlit("]");
                assert(","@ =~= seq![',']);
                assert("]"@ =~= seq![']']);
            }
            return None;
        }
    }
}

/// Reads a document in the order in which `encode_spec` writes it.
fn parse_document(text: &str) -> (r: Result<Credential, Error>)
    ensures
        match decode_spec(text@) {
            Some(m) => r matches Ok(c) && c@ == m && c.wf(),
            None => r == Err::<Credential, Error>(Error::Deserialization),
        },
{
    let n = text.unicode_len();
    if !lit_at_exec(text, n, 0, OPEN_ACCESS) {
        return Err(Error::Deserialization);
    }
    let (access_token, i1) = match string_at_exec(text, n, OPEN_ACCESS.unicode_len()) {
        Some(p) => p,
        None => return Err(Error::Deserialization),
    };
    let (refresh_token, i2) = if lit_at_exec(text, n, i1, KEY_REFRESH) {
        match string_at_exec(text, n, i1 + KEY_REFRESH.unicode_len()) {
            Some((r, j)) => (Some(r), j),
            None => return Err(Error::Deserialization),
        }
    } else {
        (None, i1)
    };
    if !lit_at_exec(text, n, i2, KEY_TYPE) {
        return Err(Error::Deserialization);
    }
    let (token_type, i3) = match string_at_exec(text, n, i2 + KEY_TYPE.unicode_len()) {
        Some(p) => p,
        None => return Err(Error::Deserialization),
    };
    let (expires_at, i4) = if lit_at_exec(text, n, i3, KEY_EXPIRES) {
        match number_at_exec(text, n, i3 + KEY_EXPIRES.unicode_len()) {
            Some((v, j)) => (Some(v), j),
            None => return Err(Error::Deserialization),
        }
    } else {
        (None, i3)
    };
    let (scopes, i5) = if lit_at_exec(text, n, i4, KEY_SCOPE) {
        match list_items_exec(text, n, i4 + KEY_SCOPE.unicode_len()) {
            Some(p) => p,
            None => return Err(Error::Deserialization),
        }
    } else {
        let empty: Vec<String> = Vec::new();
        assert(crate::credential::strings_view(empty@) =~= Seq::<Seq<char>>::empty());
        (empty, i4)
    };
    proof {
        reveal_strlit("}");
        assert("}"@ =~= seq!['}']);
    }
    if i5 >= n || i5 + 1 != n || !lit_at_exec(text, n, i5, "}") || access_token.unicode_len() == 0 {
        return Err(Error::Deserialization);
    }
    let c = Credential { access_token, refresh_token, token_type, expires_at, scopes };
    Ok(c)
}


/// `text` is the cache document of some valid credential.
pub open spec fn is_document(text: Seq<char>) -> bool {
    exists|m: CredentialModel| m.wf() && #[trigger] encode_spec(m) == text
}

/// Two valid credentials with the same cache document are the same: a
/// document names exactly one credential.
pub proof fn lemma_encode_injective(m1: CredentialModel, m2: CredentialModel)
    requires
        m1.wf(),
        m2.wf(),
        encode_spec(m1) == encode_spec(m2),
    ensures
        m1 == m2,
{
    lemma_round_trip(m1);
    lemma_round_trip(m2);
}

/// Reads a cache document back into the credential it holds: the one
/// credential whose document it is. Any other text is a deserialization
/// error.
pub fn decode(text: &str) -> (r: Result<Credential, Error>)
    ensures
        match r {
            Ok(c) => c.wf() && encode_spec(c@) == text@,
            Err(e) => e == Error::Deserialization && !is_document(text@),
        },
{
    match parse_document(text) {
        Ok(c) => {
            let again = encode(&c);
            let original = String::from_str(text);
            if again.eq(&original) {
                Ok(c)
            } else {
                proof {
                    assert forall|m: CredentialModel| m.wf() implies #[trigger] encode_spec(m)
                        != text@ by {
                        if encode_spec(m) == text@ {
                            lemma_round_trip(m);
                        }
                    }
                }
                Err(Error::Deserialization)
            }
        },
        Err(e) => {
            proof {
                assert forall|m: CredentialModel| m.wf() implies #[trigger] encode_spec(m)
                    != text@ by {
                    if encode_spec(m) == text@ {
                        lemma_round_trip(m);
                    }
                }
            }
            Err(e)
        },
    }
}

} // verus!
