//! Verified helpers on strings: equality, lexicographic order, decimal
//! formatting, decimal parsing and scanning for a separator character.
//!
//! Everything here works on `Seq<char>` views; the exec functions walk the
//! characters with `get_char` and build results with `append`.

use vstd::prelude::*;
use vstd::string::*;

verus! {

/// Character-for-character equality of two string slices.
pub fn str_eq(a: &str, b: &str) -> (r: bool)
    ensures
        r == (a@ == b@),
{
    let a_len = a.unicode_len();
    let b_len = b.unicode_len();
    if a_len != b_len {
        assert(a@ != b@) by {
            assert(a@.len() != b@.len());
        }
        return false;
    }
    let mut i: usize = 0;
    while i < a_len
        invariant
            a_len == a@.len(),
            b_len == b@.len(),
            a_len == b_len,
            i <= a_len,
            forall|j: int| 0 <= j < i ==> a@[j] == b@[j],
        decreases a_len - i,
    {
        if a.get_char(i) != b.get_char(i) {
            assert(a@ != b@);
            return false;
        }
        i += 1;
    }
    assert(a@ =~= b@);
    true
}

/// Lexicographic order on character sequences, by code point.
pub open spec fn lex_le(a: Seq<char>, b: Seq<char>) -> bool
    decreases a.len(),
{
    if a.len() == 0 {
        true
    } else if b.len() == 0 {
        false
    } else if (a[0] as u32) < (b[0] as u32) {
        true
    } else if (a[0] as u32) > (b[0] as u32) {
        false
    } else {
        lex_le(a.drop_first(), b.drop_first())
    }
}

/// The order is total.
pub proof fn lemma_lex_le_total(a: Seq<char>, b: Seq<char>)
    ensures
        lex_le(a, b) || lex_le(b, a),
    decreases a.len(),
{
    if a.len() == 0 || b.len() == 0 {
    } else if (a[0] as u32) == (b[0] as u32) {
        lemma_lex_le_total(a.drop_first(), b.drop_first());
    }
}

/// The order is transitive.
pub proof fn lemma_lex_le_trans(a: Seq<char>, b: Seq<char>, c: Seq<char>)
    requires
        lex_le(a, b),
        lex_le(b, c),
    ensures
        lex_le(a, c),
    decreases a.len(),
{
    if a.len() == 0 || b.len() == 0 || c.len() == 0 {
    } else if (a[0] as u32) == (b[0] as u32) && (b[0] as u32) == (c[0] as u32) {
        lemma_lex_le_trans(a.drop_first(), b.drop_first(), c.drop_first());
    }
}

/// Decides `lex_le` on two string slices.
pub fn str_lex_le(a: &str, b: &str) -> (r: bool)
    ensures
        r == lex_le(a@, b@),
{
    let a_len = a.unicode_len();
    let b_len = b.unicode_len();
    let min_len: usize = if a_len < b_len { a_len } else { b_len };
    let mut i: usize = 0;
    proof {
        assert(a@.skip(0) =~= a@);
        assert(b@.skip(0) =~= b@);
    }
    while i < min_len
        invariant
            a_len == a@.len(),
            b_len == b@.len(),
            min_len <= a_len,
            min_len <= b_len,
            min_len == if a_len < b_len { a_len } else { b_len },
            i <= min_len,
            lex_le(a@, b@) == lex_le(a@.skip(i as int), b@.skip(i as int)),
        decreases min_len - i,
    {
        let ca = a.get_char(i);
        let cb = b.get_char(i);
        proof {
            assert(a@.skip(i as int)[0] == a@[i as int]);
            assert(b@.skip(i as int)[0] == b@[i as int]);
        }
        if (ca as u32) < (cb as u32) {
            assert(lex_le(a@.skip(i as int), b@.skip(i as int)));
            return true;
        }
        if (ca as u32) > (cb as u32) {
            assert(!lex_le(a@.skip(i as int), b@.skip(i as int)));
            return false;
        }
        proof {
            assert(a@.skip(i as int).drop_first() =~= a@.skip(i + 1));
            assert(b@.skip(i as int).drop_first() =~= b@.skip(i + 1));
        }
        i += 1;
    }
    proof {
        if a_len <= b_len {
            assert(a@.skip(i as int).len() == 0);
        } else {
            assert(b@.skip(i as int).len() == 0);
            assert(a@.skip(i as int).len() > 0);
        }
    }
    a_len <= b_len
}

/// The character for one decimal digit.
pub open spec fn digit_char(d: int) -> char {
    if d == 0 {
        '0'
    } else if d == 1 {
        '1'
    } else if d == 2 {
        '2'
    } else if d == 3 {
        '3'
    } else if d == 4 {
        '4'
    } else if d == 5 {
        '5'
    } else if d == 6 {
        '6'
    } else if d == 7 {
        '7'
    } else if d == 8 {
        '8'
    } else {
        '9'
    }
}

/// Decimal representation of a natural number, most significant digit first.
pub open spec fn spec_udec(n: nat) -> Seq<char>
    decreases n,
{
    if n < 10 {
        seq![digit_char(n as int)]
    } else {
        spec_udec(n / 10).push(digit_char((n % 10) as int))
    }
}

/// Decimal representation of a signed number: a minus sign for negatives.
pub open spec fn spec_dec_i64(n: int) -> Seq<char> {
    if n >= 0 {
        spec_udec(n as nat)
    } else {
        seq!['-'] + spec_udec((-n) as nat)
    }
}

/// One digit as a string slice.
fn digit_str(d: u8) -> (r: &'static str)
    requires
        d < 10,
    ensures
        r@ =~= seq![digit_char(d as int)],
{
    if d == 0 {
        proof { reveal_strlit("0"); }
        "0"
    } else if d == 1 {
        proof { reveal_strlit("1"); }
        "1"
    } else if d == 2 {
        proof { reveal_strlit("2"); }
        "2"
    } else if d == 3 {
        proof { reveal_strlit("3"); }
        "3"
    } else if d == 4 {
        proof { reveal_strlit("4"); }
        "4"
    } else if d == 5 {
        proof { reveal_strlit("5"); }
        "5"
    } else if d == 6 {
        proof { reveal_strlit("6"); }
        "6"
    } else if d == 7 {
        proof { reveal_strlit("7"); }
        "7"
    } else if d == 8 {
        proof { reveal_strlit("8"); }
        "8"
    } else {
        proof { reveal_strlit("9"); }
        "9"
    }
}

/// Formats an unsigned number in decimal.
pub fn u64_to_dec_string(n: u64) -> (s: String)
    ensures
        s@ == spec_udec(n as nat),
    decreases n,
{
    if n < 10 {
        let s = String::from_str(digit_str(n as u8));
        assert(s@ =~= spec_udec(n as nat));
        s
    } else {
        let mut s = u64_to_dec_string(n / 10);
        s.append(digit_str((n % 10) as u8));
        assert(s@ =~= spec_udec(n as nat)) by {
            assert(spec_udec((n / 10) as nat).push(digit_char((n % 10) as int))
                =~= spec_udec((n / 10) as nat) + seq![digit_char((n % 10) as int)]);
        }
        s
    }
}

/// Formats a signed number in decimal.
pub fn i64_to_dec_string(n: i64) -> (s: String)
    ensures
        s@ == spec_dec_i64(n as int),
{
    if n >= 0 {
        u64_to_dec_string(n as u64)
    } else {
        let mag: u64 = (-(n as i128)) as u64;
        assert(mag as int == -(n as int));
        let mut s = String::from_str("-");
        proof { reveal_strlit("-"); }
        let rest = u64_to_dec_string(mag);
        s.append(rest.as_str());
        assert(s@ =~= spec_dec_i64(n as int)) by {
            assert(("-")@ =~= seq!['-']);
        }
        s
    }
}

/// Formats an i32 in decimal.
pub fn i32_to_dec_string(n: i32) -> (s: String)
    ensures
        s@ == spec_dec_i64(n as int),
{
    i64_to_dec_string(n as i64)
}

/// Formats a usize in decimal.
pub fn usize_to_dec_string(n: usize) -> (s: String)
    ensures
        s@ == spec_udec(n as nat),
{
    u64_to_dec_string(n as u64)
}

/// Is the character a decimal digit?
pub open spec fn is_dec_digit(c: char) -> bool {
    48 <= (c as u32) <= 57
}

/// The numeric value of a digit character.
pub open spec fn digit_value(c: char) -> int {
    (c as u32) - 48
}

/// Is every character of the sequence a decimal digit?
pub open spec fn all_dec_digits(s: Seq<char>) -> bool {
    forall|i: int| 0 <= i < s.len() ==> is_dec_digit(#[trigger] s[i])
}

/// The value of a sequence of decimal digits, most significant first.
pub open spec fn dec_value(s: Seq<char>) -> int
    decreases s.len(),
{
    if s.len() == 0 {
        0
    } else {
        dec_value(s.drop_last()) * 10 + digit_value(s.last())
    }
}

/// The digits of the number, without sign.
pub open spec fn int_body(s: Seq<char>) -> Seq<char> {
    if s.len() > 0 && (s[0] == '+' || s[0] == '-') {
        s.drop_first()
    } else {
        s
    }
}

/// The sign carried by the string.
pub open spec fn int_sign(s: Seq<char>) -> int {
    if s.len() > 0 && s[0] == '-' {
        -1
    } else {
        1
    }
}

/// Does the string denote an i64: an optional sign, at least one digit,
/// nothing else, and a value in range?
pub open spec fn is_i64_string(s: Seq<char>) -> bool {
    let b = int_body(s);
    b.len() > 0 && all_dec_digits(b) && i64::MIN <= int_sign(s) * dec_value(b) <= i64::MAX
}

/// The value denoted by the string.
pub open spec fn parsed_i64(s: Seq<char>) -> int {
    int_sign(s) * dec_value(int_body(s))
}

/// Does the string denote an i32?
pub open spec fn is_i32_string(s: Seq<char>) -> bool {
    is_i64_string(s) && i32::MIN <= parsed_i64(s) <= i32::MAX
}

/// Is the string exactly the decimal rendering of an i32: no plus sign,
/// no leading zeros? This is the form under which numbers round-trip
/// through rendering, so a lookup keyed by such a string finds exactly
/// what a rendered key finds.
pub open spec fn is_canonical_i32_string(s: Seq<char>) -> bool {
    is_i32_string(s) && s == spec_dec_i64(parsed_i64(s))
}

proof fn lemma_dec_value_nonneg(s: Seq<char>)
    requires
        all_dec_digits(s),
    ensures
        dec_value(s) >= 0,
    decreases s.len(),
{
    if s.len() > 0 {
        assert(all_dec_digits(s.drop_last()));
        lemma_dec_value_nonneg(s.drop_last());
    }
}

/// Extending a digit string multiplies its value and adds the new digit.
proof fn lemma_dec_value_snoc(s: Seq<char>, c: char)
    ensures
        dec_value(s.push(c)) == dec_value(s) * 10 + digit_value(c),
{
    assert(s.push(c).drop_last() =~= s);
    assert(s.push(c).last() == c);
}

/// A digit string is worth at least any of its prefixes.
proof fn lemma_dec_value_prefix_le(s: Seq<char>, i: int)
    requires
        all_dec_digits(s),
        0 <= i <= s.len(),
    ensures
        dec_value(s.subrange(0, i)) <= dec_value(s),
    decreases s.len() - i,
{
    if i == s.len() {
        assert(s.subrange(0, i) =~= s);
    } else {
        let p = s.subrange(0, i);
        let q = s.subrange(0, i + 1);
        assert(q =~= p.push(s[i]));
        lemma_dec_value_snoc(p, s[i]);
        assert(all_dec_digits(p));
        lemma_dec_value_nonneg(p);
        lemma_dec_value_prefix_le(s, i + 1);
    }
}

/// Parses a decimal i64, with the semantics of `is_i64_string`:
/// an optional `+` or `-`, one or more digits, and a value that fits.
pub fn parse_i64(s: &str) -> (r: Option<i64>)
    ensures
        match r {
            Some(v) => is_i64_string(s@) && v as int == parsed_i64(s@),
            None => !is_i64_string(s@),
        },
{
    let n = s.unicode_len();
    if n == 0 {
        return None;
    }
    let c0 = s.get_char(0);
    let neg: bool = c0 == '-';
    let start: usize = if c0 == '-' || c0 == '+' { 1 } else { 0 };
    proof {
        if start == 1 {
            assert(int_body(s@) =~= s@.subrange(1, n as int));
        } else {
            assert(int_body(s@) =~= s@.subrange(0, n as int));
        }
    }
    if start == n {
        return None;
    }
    // largest magnitude allowed: 2^63 for negatives, 2^63 - 1 otherwise
    let max_pre: u64 = 922337203685477580;
    let max_last: u64 = if neg { 8 } else { 7 };
    let ghost body = s@.subrange(start as int, n as int);
    let mut acc: u64 = 0;
    let mut i: usize = start;
    while i < n
        invariant
            start <= i <= n,
            n == s@.len(),
            n > 0,
            start == 0 || start == 1,
            neg == (s@[0] == '-'),
            start == 1 ==> (s@[0] == '-' || s@[0] == '+'),
            start == 0 ==> !(s@[0] == '-' || s@[0] == '+'),
            body == s@.subrange(start as int, n as int),
            body == int_body(s@),
            body.len() > 0,
            max_pre == 922337203685477580,
            max_last == if neg { 8u64 } else { 7u64 },
            all_dec_digits(body.subrange(0, i - start)),
            acc as int == dec_value(body.subrange(0, i - start)),
            acc as int <= max_pre * 10 + max_last,
        decreases n - i,
    {
        let c = s.get_char(i);
        let code: u32 = c as u32;
        if code < 48 || code > 57 {
            assert(body[i - start] == c);
            assert(!all_dec_digits(body));
            return None;
        }
        let d: u64 = (code - 48) as u64;
        let ghost pre = body.subrange(0, i - start);
        proof {
            assert(body.subrange(0, i + 1 - start) =~= pre.push(body[i - start]));
            lemma_dec_value_snoc(pre, body[i - start]);
        }
        if acc > max_pre || (acc == max_pre && d > max_last) {
            // the magnitude already exceeds what an i64 can hold, and
            // further digits only increase it
            proof {
                assert(dec_value(body.subrange(0, i + 1 - start)) > max_pre * 10 + max_last);
                if all_dec_digits(body) {
                    assert(all_dec_digits(body.subrange(0, i + 1 - start)));
                    lemma_dec_value_prefix_le(body, i + 1 - start);
                    assert(dec_value(body) > max_pre * 10 + max_last);
                    if neg {
                        assert(int_sign(s@) == -1);
                        assert(int_sign(s@) * dec_value(body) == -dec_value(body));
                        assert(int_sign(s@) * dec_value(body) < i64::MIN);
                    } else {
                        assert(int_sign(s@) == 1);
                        assert(int_sign(s@) * dec_value(body) == dec_value(body));
                        assert(int_sign(s@) * dec_value(body) > i64::MAX);
                    }
                }
                assert(!is_i64_string(s@));
            }
            return None;
        }
        acc = acc * 10 + d;
        i += 1;
    }
    proof {
        assert(body.subrange(0, n - start) =~= body);
        if neg {
            assert(int_sign(s@) == -1);
            assert(int_sign(s@) * dec_value(body) == -dec_value(body));
        } else {
            assert(int_sign(s@) == 1);
            assert(int_sign(s@) * dec_value(body) == dec_value(body));
        }
        assert(is_i64_string(s@));
    }
    if neg {
        let v: i64 = (-(acc as i128)) as i64;
        assert(v as int == -(acc as int));
        Some(v)
    } else {
        Some(acc as i64)
    }
}

/// Parses a decimal i32: an i64 that fits in 32 bits.
pub fn parse_i32(s: &str) -> (r: Option<i32>)
    ensures
        match r {
            Some(v) => is_i32_string(s@) && v as int == parsed_i64(s@),
            None => !is_i32_string(s@),
        },
{
    match parse_i64(s) {
        None => None,
        Some(v) => {
            if v < i32::MIN as i64 || v > i32::MAX as i64 {
                None
            } else {
                Some(v as i32)
            }
        },
    }
}

/// Index of the first occurrence of `sep`, or the length if absent.
pub open spec fn find_char(s: Seq<char>, sep: char) -> int
    decreases s.len(),
{
    if s.len() == 0 {
        0
    } else if s[0] == sep {
        0
    } else {
        1 + find_char(s.drop_first(), sep)
    }
}

/// What `find_char` returns: the first occurrence, or the length.
pub proof fn lemma_find_char_props(s: Seq<char>, sep: char)
    ensures
        0 <= find_char(s, sep) <= s.len(),
        find_char(s, sep) < s.len() ==> s[find_char(s, sep)] == sep,
        forall|j: int| 0 <= j < find_char(s, sep) ==> s[j] != sep,
    decreases s.len(),
{
    if s.len() > 0 && s[0] != sep {
        lemma_find_char_props(s.drop_first(), sep);
        assert forall|j: int| 0 <= j < find_char(s, sep) implies s[j] != sep by {
            if j > 0 {
                assert(s[j] == s.drop_first()[j - 1]);
            }
        }
    }
}

/// Finds the first occurrence of `sep` in `s`; returns the length if absent.
pub fn find_char_index(s: &str, sep: char) -> (r: usize)
    ensures
        r as int == find_char(s@, sep),
{
    proof {
        lemma_find_char_props(s@, sep);
    }
    let n = s.unicode_len();
    let mut i: usize = 0;
    while i < n
        invariant
            n == s@.len(),
            i <= n,
            forall|j: int| 0 <= j < i ==> s@[j] != sep,
            0 <= find_char(s@, sep) <= s@.len(),
            find_char(s@, sep) < s@.len() ==> s@[find_char(s@, sep)] == sep,
            forall|j: int| 0 <= j < find_char(s@, sep) ==> s@[j] != sep,
        decreases n - i,
    {
        if s.get_char(i) == sep {
            proof {
                if find_char(s@, sep) < i {
                    assert(s@[find_char(s@, sep)] != sep);
                }
            }
            return i;
        }
        i += 1;
    }
    proof {
        if find_char(s@, sep) < s@.len() {
            assert(s@[find_char(s@, sep)] != sep);
        }
    }
    n
}

/// The character sequences behind a sequence of strings.
pub open spec fn views_of(v: Seq<String>) -> Seq<Seq<char>> {
    v.map_values(|s: String| s@)
}

/// The character sequences behind a sequence of string pairs.
pub open spec fn pair_views(v: Seq<(String, String)>) -> Seq<(Seq<char>, Seq<char>)> {
    v.map_values(|kv: (String, String)| (kv.0@, kv.1@))
}

/// Sorted in lexicographic order.
pub open spec fn sorted_le(v: Seq<Seq<char>>) -> bool {
    forall|i: int, j: int| 0 <= i < j < v.len() ==> lex_le(#[trigger] v[i], #[trigger] v[j])
}

/// First position whose element is not `lex_le` the probe; insertion keeps
/// a sorted vector sorted there.
fn insertion_point(r: &Vec<String>, x: &String) -> (p: usize)
    ensures
        p <= r@.len(),
        forall|q: int| 0 <= q < p ==> lex_le(#[trigger] r@[q]@, x@),
        p < r@.len() ==> !lex_le(r@[p as int]@, x@),
{
    let mut p: usize = 0;
    while p < r.len()
        invariant
            p <= r@.len(),
            forall|q: int| 0 <= q < p ==> lex_le(#[trigger] r@[q]@, x@),
        decreases r@.len() - p,
    {
        if !str_lex_le(r[p].as_str(), x.as_str()) {
            return p;
        }
        p += 1;
    }
    p
}

/// Sorts the strings in lexicographic order; the result holds exactly the
/// same strings, by multiplicity.
pub fn sort_names(v: &Vec<String>) -> (r: Vec<String>)
    ensures
        sorted_le(views_of(r@)),
        views_of(r@).to_multiset() == views_of(v@).to_multiset(),
{
    let mut r: Vec<String> = Vec::new();
    proof {
        assert(views_of(r@) =~= views_of(v@.subrange(0, 0)));
    }
    let mut idx: usize = 0;
    while idx < v.len()
        invariant
            idx <= v@.len(),
            sorted_le(views_of(r@)),
            views_of(r@).to_multiset() == views_of(v@.subrange(0, idx as int)).to_multiset(),
        decreases v@.len() - idx,
    {
        let x = v[idx].clone();
        let p = insertion_point(&r, &x);
        let ghost old_r = r@;
        r.insert(p, x);
        proof {
            assert(views_of(r@) =~= views_of(old_r).insert(p as int, x@));
            vstd::seq_lib::to_multiset_insert(views_of(old_r), p as int, x@);
            assert(views_of(v@.subrange(0, idx + 1)) =~= views_of(
                v@.subrange(0, idx as int),
            ).push(v@[idx as int]@));
            vstd::seq_lib::to_multiset_build(views_of(v@.subrange(0, idx as int)), v@[idx as int]@);
            assert(x@ == v@[idx as int]@);
            assert forall|i: int, j: int|
                0 <= i < j < views_of(r@).len() implies lex_le(
                #[trigger] views_of(r@)[i],
                #[trigger] views_of(r@)[j],
            ) by {
                let vr = views_of(r@);
                let vo = views_of(old_r);
                if p < vo.len() {
                    lemma_lex_le_total(vo[p as int], x@);
                }
                if i < p && j == p {
                    // old element against the inserted one
                } else if i == p && j > p + 1 {
                    lemma_lex_le_trans(x@, vo[p as int], vo[j - 1]);
                } else if i < p && j > p {
                    // two old elements, indices shifted on the right
                }
            }
        }
        idx += 1;
    }
    proof {
        assert(v@.subrange(0, v@.len() as int) =~= v@);
    }
    r
}

} // verus!
