//! Names of seed files: how they are formed, matched and read for a score.
//! Paths and names are byte strings.

use vstd::prelude::*;

verus! {

/// Decimal digits of `n`, most significant first, as ASCII.
pub open spec fn digits(n: nat) -> Seq<u8>
    decreases n,
{
    if n < 10 {
        seq![(48 + n) as u8]
    } else {
        digits(n / 10).push((48 + n % 10) as u8)
    }
}

/// `digits(n)` with zeros in front up to a length of `width`.
pub open spec fn zero_padded(n: nat, width: nat) -> Seq<u8> {
    let d = digits(n);
    if d.len() >= width {
        d
    } else {
        Seq::new((width - d.len()) as nat, |i: int| 48u8) + d
    }
}

/// The base name of seed `id`: `id:` and the index in at least six digits.
pub open spec fn seed_name(id: nat) -> Seq<u8> {
    seq![105u8, 100u8, 58u8] + zero_padded(id, 6)
}

/// `name` appended to directory `dir`, with one `/` between them unless
/// `dir` is empty or already ends in one. `name` is meant to be relative.
pub open spec fn joined(dir: Seq<u8>, name: Seq<u8>) -> Seq<u8> {
    if dir.len() == 0 {
        name
    } else if dir.last() == 47 {
        dir + name
    } else {
        dir.push(47u8) + name
    }
}

/// The bytes of a string of ASCII characters.
pub open spec fn ascii_of(s: Seq<char>) -> Seq<u8> {
    Seq::new(s.len(), |i: int| s[i] as u8)
}

/// The decimal digits of `v`, after a `-` where it is negative.
pub open spec fn signed_digits(v: int) -> Seq<u8> {
    if v < 0 {
        seq![45u8] + digits((-v) as nat)
    } else {
        digits(v as nat)
    }
}

/// Whether `c` is ASCII white space.
pub open spec fn is_space(c: u8) -> bool {
    c == 32 || (9 <= c <= 13)
}

/// Index of the first byte of `s` at or after `i` that is no white space.
pub open spec fn skip_spaces(s: Seq<u8>, i: int) -> int
    decreases s.len() - i,
{
    if i < 0 || i >= s.len() {
        s.len() as int
    } else if !is_space(s[i]) {
        i
    } else {
        skip_spaces(s, i + 1)
    }
}

/// One past the last byte of the first `n` of `s` that is no white space.
pub open spec fn drop_spaces(s: Seq<u8>, n: int) -> int
    decreases n,
{
    if n <= 0 || n > s.len() {
        0
    } else if !is_space(s[n - 1]) {
        n
    } else {
        drop_spaces(s, n - 1)
    }
}

/// `s` without the white space at its two ends.
pub open spec fn trimmed(s: Seq<u8>) -> Seq<u8> {
    let a = skip_spaces(s, 0);
    let b = drop_spaces(s, s.len() as int);
    if a < b {
        s.subrange(a, b)
    } else {
        Seq::empty()
    }
}

/// Whether `s` starts with `p`.
pub open spec fn has_prefix(s: Seq<u8>, p: Seq<u8>) -> bool {
    p.len() <= s.len() && s.subrange(0, p.len() as int) == p
}

/// Whether `p` occurs in `s` at offset `i`.
pub open spec fn occurs_at(s: Seq<u8>, p: Seq<u8>, i: int) -> bool {
    0 <= i && i + p.len() <= s.len() && s.subrange(i, i + p.len()) == p
}

/// Whether `p` occurs anywhere in `s`.
pub open spec fn contains(s: Seq<u8>, p: Seq<u8>) -> bool {
    exists|i: int| occurs_at(s, p, i)
}

/// Offset of the first `c` in `s` at or after `i`; the length of `s` where
/// there is none.
pub open spec fn index_from(s: Seq<u8>, c: u8, i: int) -> int
    decreases s.len() - i,
{
    if i < 0 || i >= s.len() {
        s.len() as int
    } else if s[i] == c {
        i
    } else {
        index_from(s, c, i + 1)
    }
}

/// Whether `c` is an ASCII digit.
pub open spec fn is_digit(c: u8) -> bool {
    48 <= c <= 57
}

/// Whether `s` holds ASCII digits only.
pub open spec fn all_digits(s: Seq<u8>) -> bool {
    forall|i: int| 0 <= i < s.len() ==> is_digit(#[trigger] s[i])
}

/// The number that the digits `s` spell; 0 for no digits.
pub open spec fn dec_value(s: Seq<u8>) -> nat
    decreases s.len(),
{
    if s.len() == 0 {
        0
    } else {
        dec_value(s.drop_last()) * 10 + (s.last() - 48) as nat
    }
}

/// The number that `tok` spells: `tok` is one or more digits.
pub open spec fn number_of(tok: Seq<u8>) -> Option<nat> {
    if tok.len() > 0 && all_digits(tok) {
        Some(dec_value(tok))
    } else {
        None
    }
}

/// The number that `tok` spells where it is at most `max`.
pub open spec fn number_up_to(tok: Seq<u8>, max: nat) -> Option<nat> {
    match number_of(tok) {
        Some(v) => if v <= max {
            Some(v)
        } else {
            None
        },
        None => None,
    }
}

/// The digit of `s` at `i` as a number; 0 past the end.
pub open spec fn digit_at(s: Seq<u8>, i: int) -> nat {
    if 0 <= i < s.len() {
        (s[i] - 48) as nat
    } else {
        0
    }
}

/// The part of `tok` before its first `.`.
pub open spec fn whole_part(tok: Seq<u8>) -> Seq<u8> {
    tok.subrange(0, index_from(tok, 46, 0))
}

/// The part of `tok` after its first `.`; empty where it has none.
pub open spec fn fraction_part(tok: Seq<u8>) -> Seq<u8> {
    let d = index_from(tok, 46, 0);
    if d < tok.len() {
        tok.subrange(d + 1, tok.len() as int)
    } else {
        Seq::empty()
    }
}

/// A hundred times the decimal number `tok`, rounded half up at the third
/// fractional digit. `tok` is digits, optionally a `.` and more digits, at
/// least one digit in all; anything else has no score.
pub open spec fn decimal_score(tok: Seq<u8>) -> Option<nat> {
    let ip = whole_part(tok);
    let fp = fraction_part(tok);
    if all_digits(ip) && all_digits(fp) && ip.len() + fp.len() > 0 {
        Some(
            dec_value(ip) * 100 + digit_at(fp, 0) * 10 + digit_at(fp, 1) + if digit_at(fp, 2) >= 5 {
                1nat
            } else {
                0nat
            },
        )
    } else {
        None
    }
}

/// What stands between the first and the second `_` of `name` (or the end);
/// `None` where `name` has no `_`.
pub open spec fn rarity_token(name: Seq<u8>) -> Option<Seq<u8>> {
    let a = index_from(name, 95, 0);
    if a >= name.len() {
        None
    } else {
        Some(name.subrange(a + 1, index_from(name, 95, a + 1)))
    }
}

/// `v`, held at the largest `u32`.
pub open spec fn clamp_u32(v: nat) -> u32 {
    if v > u32::MAX {
        u32::MAX
    } else {
        v as u32
    }
}

/// The score of a grader's seed file: 0 where the name holds `inf` or has no
/// rarity token, else the token's [`decimal_score`] held at the largest
/// `u32`. A token that is no decimal number gives `None`.
pub open spec fn grader_score(name: Seq<u8>) -> Option<u32> {
    if contains(name, seq![105u8, 110u8, 102u8]) {
        Some(0u32)
    } else {
        match rarity_token(name) {
            None => Some(0u32),
            Some(tok) => match decimal_score(tok) {
                None => None,
                Some(v) => Some(clamp_u32(v)),
            },
        }
    }
}

/// Whether a mutation fuzzer's seed file is taken over: its name holds
/// `orig` or `+cov`.
pub open spec fn fuzzer_seed_wanted(name: Seq<u8>) -> bool {
    contains(name, seq![111u8, 114u8, 105u8, 103u8]) || contains(name, seq![43u8, 99u8, 111u8, 118u8])
}

/// Appends the decimal digits of `n` to `out`.
pub fn push_digits(n: usize, out: &mut Vec<u8>)
    ensures
        final(out)@ == old(out)@ + digits(n as nat),
    decreases n,
{
    if n < 10 {
        let d: u8 = 48 + n as u8;
        out.push(d);
        proof {
            assert(out@ =~= old(out)@ + digits(n as nat));
        }
    } else {
        push_digits(n / 10, out);
        let d: u8 = 48 + (n % 10) as u8;
        out.push(d);
        proof {
            assert(out@ =~= old(out)@ + digits(n as nat));
        }
    }
}

/// Appends `tail` to `out`.
pub fn append(out: &mut Vec<u8>, tail: &Vec<u8>)
    ensures
        final(out)@ == old(out)@ + tail@,
{
    let mut i: usize = 0;
    while i < tail.len()
        invariant
            i <= tail@.len(),
            out@ == old(out)@ + tail@.subrange(0, i as int),
        decreases tail@.len() - i,
    {
        out.push(tail[i]);
        i += 1;
        proof {
            assert(out@ =~= old(out)@ + tail@.subrange(0, i as int));
        }
    }
    proof {
        assert(tail@.subrange(0, tail@.len() as int) =~= tail@);
    }
}

/// The bytes of `s` from `lo` up to `hi`; nothing where that is no range
/// within `s`.
pub fn slice_to_vec(s: &Vec<u8>, lo: usize, hi: usize) -> (r: Vec<u8>)
    ensures
        lo <= hi <= s@.len() ==> r@ == s@.subrange(lo as int, hi as int),
        !(lo <= hi <= s@.len()) ==> r@.len() == 0,
{
    let mut r: Vec<u8> = Vec::new();
    if !(lo <= hi && hi <= s.len()) {
        return r;
    }
    let mut i: usize = lo;
    while i < hi
        invariant
            lo <= i <= hi <= s@.len(),
            r@ == s@.subrange(lo as int, i as int),
        decreases hi - i,
    {
        r.push(s[i]);
        i += 1;
        proof {
            assert(r@ =~= s@.subrange(lo as int, i as int));
        }
    }
    r
}

/// The bytes of an ASCII string.
pub fn ascii_bytes(s: &str) -> (r: Vec<u8>)
    requires
        s.is_ascii(),
    ensures
        r@ == ascii_of(s@),
{
    let mut r: Vec<u8> = Vec::new();
    let n = s.unicode_len();
    let mut i: usize = 0;
    while i < n
        invariant
            s.is_ascii(),
            n == s@.len(),
            i <= n,
            r@.len() == i,
            forall|k: int| 0 <= k < i ==> r@[k] == s@[k] as u8,
        decreases n - i,
    {
        r.push(s.get_ascii(i));
        i += 1;
    }
    proof {
        assert(r@ =~= ascii_of(s@));
    }
    r
}

/// Appends the bytes of an ASCII string to `out`.
pub fn push_ascii(out: &mut Vec<u8>, s: &str)
    requires
        s.is_ascii(),
    ensures
        final(out)@ == old(out)@ + ascii_of(s@),
{
    let tail = ascii_bytes(s);
    append(out, &tail);
}

/// Appends the decimal digits of `v` to `out`, after a `-` where it is
/// negative.
pub fn push_signed(v: i32, out: &mut Vec<u8>)
    ensures
        final(out)@ == old(out)@ + signed_digits(v as int),
{
    if v < 0 {
        out.push(45u8);
        let magnitude: u32 = if v == i32::MIN {
            2147483648u32
        } else {
            (-v) as u32
        };
        push_digits(magnitude as usize, out);
        proof {
            assert(out@ =~= old(out)@ + signed_digits(v as int));
        }
    } else {
        push_digits(v as usize, out);
    }
}

/// A copy of `s`.
pub fn copy_bytes(s: &Vec<u8>) -> (r: Vec<u8>)
    ensures
        r@ == s@,
{
    let r = slice_to_vec(s, 0, s.len());
    proof {
        assert(s@.subrange(0, s@.len() as int) =~= s@);
    }
    r
}

/// `s` without the white space at its two ends.
pub fn trim(s: &Vec<u8>) -> (r: Vec<u8>)
    ensures
        r@ == trimmed(s@),
{
    let mut a: usize = 0;
    while a < s.len() && is_space_byte(s[a])
        invariant
            a <= s@.len(),
            skip_spaces(s@, 0) == skip_spaces(s@, a as int),
        decreases s@.len() - a,
    {
        a += 1;
    }
    let mut b: usize = s.len();
    while b > 0 && is_space_byte(s[b - 1])
        invariant
            b <= s@.len(),
            drop_spaces(s@, s@.len() as int) == drop_spaces(s@, b as int),
        decreases b,
    {
        b -= 1;
    }
    if a < b {
        slice_to_vec(s, a, b)
    } else {
        Vec::new()
    }
}

/// Whether `c` is ASCII white space.
pub fn is_space_byte(c: u8) -> (r: bool)
    ensures
        r == is_space(c),
{
    c == 32 || (9 <= c && c <= 13)
}

/// Whether two byte strings are equal.
pub fn same_bytes(a: &Vec<u8>, b: &Vec<u8>) -> (r: bool)
    ensures
        r == (a@ == b@),
{
    if a.len() != b.len() {
        return false;
    }
    let r = matches_at(a, b, 0);
    proof {
        assert(a@.subrange(0, a@.len() as int) =~= a@);
    }
    r
}

/// The base name of seed `id`.
pub fn seed_file_name(id: usize) -> (r: Vec<u8>)
    ensures
        r@ == seed_name(id as nat),
{
    let mut d: Vec<u8> = Vec::new();
    push_digits(id, &mut d);
    let mut r: Vec<u8> = Vec::new();
    r.push(105u8);
    r.push(100u8);
    r.push(58u8);
    let mut pad: usize = d.len();
    while pad < 6
        invariant
            d@ == digits(id as nat),
            d@.len() <= pad,
            d@.len() < 6 ==> pad <= 6,
            d@.len() >= 6 ==> pad == d@.len(),
            r@ == seq![105u8, 100u8, 58u8] + Seq::new((pad - d@.len()) as nat, |i: int| 48u8),
        decreases 6 - pad,
    {
        r.push(48u8);
        pad += 1;
        proof {
            assert(r@ =~= seq![105u8, 100u8, 58u8] + Seq::new((pad - d@.len()) as nat, |i: int| 48u8));
        }
    }
    append(&mut r, &d);
    proof {
        assert(r@ =~= seed_name(id as nat));
    }
    r
}

/// `name` appended to directory `dir`.
pub fn join_path(dir: &Vec<u8>, name: &Vec<u8>) -> (r: Vec<u8>)
    ensures
        r@ == joined(dir@, name@),
{
    let mut r: Vec<u8> = Vec::new();
    append(&mut r, dir);
    if dir.len() > 0 && dir[dir.len() - 1] != 47u8 {
        r.push(47u8);
    }
    append(&mut r, name);
    proof {
        assert(r@ =~= joined(dir@, name@));
    }
    r
}

/// The path of seed `id` in directory `dir`.
pub fn get_file_name(dir: &Vec<u8>, id: usize) -> (r: Vec<u8>)
    ensures
        r@ == joined(dir@, seed_name(id as nat)),
{
    let name = seed_file_name(id);
    join_path(dir, &name)
}

/// Whether `p` occurs in `s` at offset `i`.
pub fn matches_at(s: &Vec<u8>, p: &Vec<u8>, i: usize) -> (r: bool)
    ensures
        r == occurs_at(s@, p@, i as int),
{
    if p.len() > s.len() || i > s.len() - p.len() {
        return false;
    }
    let mut k: usize = 0;
    while k < p.len()
        invariant
            k <= p@.len(),
            i + p@.len() <= s@.len(),
            s@.len() <= usize::MAX,
            forall|m: int| 0 <= m < k ==> s@[i + m] == p@[m],
        decreases p@.len() - k,
    {
        if s[i + k] != p[k] {
            proof {
                assert(s@.subrange(i as int, i + p@.len())[k as int] != p@[k as int]);
            }
            return false;
        }
        k += 1;
    }
    proof {
        assert(s@.subrange(i as int, i + p@.len()) =~= p@);
    }
    true
}

/// Whether `s` starts with `p`.
pub fn starts_with(s: &Vec<u8>, p: &Vec<u8>) -> (r: bool)
    ensures
        r == has_prefix(s@, p@),
{
    matches_at(s, p, 0)
}

/// Whether `p` occurs anywhere in `s`.
pub fn contains_bytes(s: &Vec<u8>, p: &Vec<u8>) -> (r: bool)
    ensures
        r == contains(s@, p@),
{
    if p.len() > s.len() {
        return false;
    }
    let last: usize = s.len() - p.len();
    let mut i: usize = 0;
    while i < last
        invariant
            last == s@.len() - p@.len(),
            i <= last,
            forall|j: int| 0 <= j < i ==> !occurs_at(s@, p@, j),
        decreases last - i,
    {
        if matches_at(s, p, i) {
            return true;
        }
        i += 1;
    }
    matches_at(s, p, last)
}

/// Offset of the first `c` in `s` at or after `start`; the length of `s`
/// where there is none.
pub fn find_byte(s: &Vec<u8>, c: u8, start: usize) -> (r: usize)
    ensures
        r == index_from(s@, c, start as int),
        r <= s@.len(),
        start <= s@.len() ==> start <= r,
{
    let mut i: usize = start;
    while i < s.len()
        invariant
            start <= i,
            index_from(s@, c, start as int) == index_from(s@, c, i as int),
        decreases s@.len() - i,
    {
        if s[i] == c {
            return i;
        }
        i += 1;
    }
    s.len()
}

/// The number spelled by `s`, held at `2^32`; `None` unless `s` is all digits.
fn digits_value(s: &Vec<u8>) -> (r: Option<u64>)
    ensures
        r is Some <==> all_digits(s@),
        r is Some ==> r.unwrap() == if dec_value(s@) > 4294967296 {
            4294967296
        } else {
            dec_value(s@)
        },
{
    let mut acc: u64 = 0;
    let mut i: usize = 0;
    while i < s.len()
        invariant
            i <= s@.len(),
            all_digits(s@.subrange(0, i as int)),
            acc <= 4294967296,
            acc == if dec_value(s@.subrange(0, i as int)) > 4294967296 {
                4294967296
            } else {
                dec_value(s@.subrange(0, i as int))
            },
        decreases s@.len() - i,
    {
        let c = s[i];
        if c < 48 || c > 57 {
            proof {
                assert(!is_digit(s@[i as int]));
            }
            return None;
        }
        proof {
            let next = s@.subrange(0, i + 1);
            assert(next.drop_last() =~= s@.subrange(0, i as int));
            assert(next.last() == c);
            assert forall|j: int| 0 <= j < next.len() implies is_digit(#[trigger] next[j]) by {
                if j < i {
                    assert(s@.subrange(0, i as int)[j] == next[j]);
                }
            }
        }
        let stepped: u64 = acc * 10 + (c - 48) as u64;
        acc = if stepped > 4294967296 {
            4294967296
        } else {
            stepped
        };
        i += 1;
    }
    proof {
        assert(s@.subrange(0, s@.len() as int) =~= s@);
    }
    Some(acc)
}

fn digit_or_zero(s: &Vec<u8>, i: usize) -> (r: u64)
    requires
        all_digits(s@),
    ensures
        r == digit_at(s@, i as int),
        r <= 9,
{
    if i < s.len() {
        proof {
            assert(is_digit(s@[i as int]));
        }
        (s[i] - 48) as u64
    } else {
        0
    }
}

proof fn lemma_prefix_value_le(s: Seq<u8>, i: int)
    requires
        all_digits(s),
        0 <= i <= s.len(),
    ensures
        dec_value(s.subrange(0, i)) <= dec_value(s),
    decreases s.len(),
{
    if i == s.len() {
        assert(s.subrange(0, i) =~= s);
    } else {
        let rest = s.drop_last();
        assert(rest.subrange(0, i) =~= s.subrange(0, i));
        assert(is_digit(s[s.len() - 1]));
        assert forall|j: int| 0 <= j < rest.len() implies is_digit(#[trigger] rest[j]) by {
            assert(rest[j] == s[j]);
        }
        lemma_prefix_value_le(rest, i);
    }
}

/// Reads `tok` as an unsigned decimal number of at most 64 bits.
pub fn parse_u64(tok: &Vec<u8>) -> (r: Option<u64>)
    ensures
        r == match number_up_to(tok@, u64::MAX as nat) {
            Some(v) => Some(v as u64),
            None => None::<u64>,
        },
{
    if tok.len() == 0 {
        return None;
    }
    let mut acc: u64 = 0;
    let mut i: usize = 0;
    while i < tok.len()
        invariant
            i <= tok@.len(),
            all_digits(tok@.subrange(0, i as int)),
            acc == dec_value(tok@.subrange(0, i as int)),
        decreases tok@.len() - i,
    {
        let c = tok[i];
        if c < 48 || c > 57 {
            proof {
                assert(!is_digit(tok@[i as int]));
            }
            return None;
        }
        let d: u64 = (c - 48) as u64;
        proof {
            let next = tok@.subrange(0, i + 1);
            assert(next.drop_last() =~= tok@.subrange(0, i as int));
            assert(next.last() == c);
            assert forall|j: int| 0 <= j < next.len() implies is_digit(#[trigger] next[j]) by {
                if j < i {
                    assert(tok@.subrange(0, i as int)[j] == next[j]);
                }
            }
            if all_digits(tok@) {
                lemma_prefix_value_le(tok@, i + 1);
            }
        }
        if acc > (u64::MAX - d) / 10 {
            return None;
        }
        acc = acc * 10 + d;
        i += 1;
    }
    proof {
        assert(tok@.subrange(0, tok@.len() as int) =~= tok@);
    }
    Some(acc)
}

/// Reads `tok` as a decimal number and gives a hundred times its value,
/// rounded half up and held at the largest `u32`.
pub fn parse_decimal_score(tok: &Vec<u8>) -> (r: Option<u32>)
    ensures
        r == match decimal_score(tok@) {
            None => None::<u32>,
            Some(v) => Some(clamp_u32(v)),
        },
{
    let d = find_byte(tok, 46u8, 0);
    let ip = slice_to_vec(tok, 0, d);
    let fp = if d < tok.len() {
        slice_to_vec(tok, d + 1, tok.len())
    } else {
        Vec::new()
    };
    proof {
        assert(ip@ == whole_part(tok@));
        assert(fp@ =~= fraction_part(tok@));
    }
    let iv = digits_value(&ip);
    let fv = digits_value(&fp);
    if iv.is_none() || fv.is_none() {
        return None;
    }
    if ip.len() == 0 && fp.len() == 0 {
        return None;
    }
    let whole: u64 = iv.unwrap();
    let carry: u64 = if digit_or_zero(&fp, 2) >= 5 {
        1
    } else {
        0
    };
    let score: u64 = whole * 100 + digit_or_zero(&fp, 0) * 10 + digit_or_zero(&fp, 1) + carry;
    if score > 4294967295 {
        Some(4294967295u32)
    } else {
        Some(score as u32)
    }
}

/// The score of a grader's seed file named `name`.
pub fn parse_grader_score(name: &Vec<u8>) -> (r: Option<u32>)
    ensures
        r == grader_score(name@),
{
    let mut inf: Vec<u8> = Vec::new();
    inf.push(105u8);
    inf.push(110u8);
    inf.push(102u8);
    proof {
        assert(inf@ =~= seq![105u8, 110u8, 102u8]);
    }
    if contains_bytes(name, &inf) {
        return Some(0);
    }
    let a = find_byte(name, 95u8, 0);
    if a >= name.len() {
        return Some(0);
    }
    let b = find_byte(name, 95u8, a + 1);
    let tok = slice_to_vec(name, a + 1, b);
    parse_decimal_score(&tok)
}

/// Whether a mutation fuzzer's seed file named `name` is taken over.
pub fn wanted_fuzzer_seed(name: &Vec<u8>) -> (r: bool)
    ensures
        r == fuzzer_seed_wanted(name@),
{
    let mut orig: Vec<u8> = Vec::new();
    orig.push(111u8);
    orig.push(114u8);
    orig.push(105u8);
    orig.push(103u8);
    let mut cov: Vec<u8> = Vec::new();
    cov.push(43u8);
    cov.push(99u8);
    cov.push(111u8);
    cov.push(118u8);
    proof {
        assert(orig@ =~= seq![111u8, 114u8, 105u8, 103u8]);
        assert(cov@ =~= seq![43u8, 99u8, 111u8, 118u8]);
    }
    contains_bytes(name, &orig) || contains_bytes(name, &cov)
}

} // verus!
