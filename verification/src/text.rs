//! Character- and byte-level helpers shared by the validators.

use vstd::prelude::*;
use vstd::string::StringSliceAdditionalSpecFns;
use vstd::utf8::encode_utf8;

verus! {

/// Unicode `White_Space` code points, as `char::is_whitespace` documents them.
pub open spec fn is_white_space(c: char) -> bool {
    let n = c as u32;
    (0x09 <= n && n <= 0x0d) || n == 0x20 || n == 0x85 || n == 0xa0 || n == 0x1680
        || (0x2000 <= n && n <= 0x200a) || n == 0x2028 || n == 0x2029 || n == 0x202f
        || n == 0x205f || n == 0x3000
}

/// A text has no leading and no trailing white space (`s.trim() == s`).
pub open spec fn is_trimmed(s: Seq<char>) -> bool {
    s.len() == 0 || (!is_white_space(s[0]) && !is_white_space(s[s.len() - 1]))
}

pub fn char_is_white_space(c: char) -> (r: bool)
    ensures
        r == is_white_space(c),
{
    let n: u32 = c as u32;
    (0x09 <= n && n <= 0x0d) || n == 0x20 || n == 0x85 || n == 0xa0 || n == 0x1680
        || (0x2000 <= n && n <= 0x200a) || n == 0x2028 || n == 0x2029 || n == 0x202f
        || n == 0x205f || n == 0x3000
}

/// The characters of a string, in order.
pub fn chars_of(s: &str) -> (v: Vec<char>)
    ensures
        v@ == s@,
{
    let mut v: Vec<char> = Vec::new();
    for c in it: s.chars()
        invariant
            v@ == it.seq().take(it.index() as int),
    {
        v.push(c);
    }
    v
}

} // verus!

verus! {

/// Equality of two texts, character by character.
pub fn str_eq(a: &str, b: &str) -> (r: bool)
    ensures
        r == (a@ == b@),
{
    let va = chars_of(a);
    let vb = chars_of(b);
    if va.len() != vb.len() {
        return false;
    }
    let mut i: usize = 0;
    while i < va.len()
        invariant
            va@ == a@,
            vb@ == b@,
            va.len() == vb.len(),
            i <= va.len(),
            forall|j: int| 0 <= j < i ==> va@[j] == vb@[j],
        decreases va.len() - i,
    {
        if va[i] != vb[i] {
            return false;
        }
        i = i + 1;
    }
    assert(va@ =~= vb@);
    true
}

/// A lower-case hexadecimal digit byte.
pub open spec fn is_lower_hex_byte(b: u8) -> bool {
    (48 <= b && b <= 57) || (97 <= b && b <= 102)
}

/// The UTF-8 bytes of `sha256:`.
pub open spec fn sha256_prefix_bytes() -> Seq<u8> {
    seq![115u8, 104u8, 97u8, 50u8, 53u8, 54u8, 58u8]
}

/// `sha256:` followed by exactly 64 lower-case hexadecimal digits.
pub open spec fn is_digest_label(b: Seq<u8>) -> bool {
    &&& b.len() == 71
    &&& b.subrange(0, 7) == sha256_prefix_bytes()
    &&& forall|i: int| 7 <= i < 71 ==> is_lower_hex_byte(#[trigger] b[i])
}

pub fn valid_digest_label(value: &str) -> (r: bool)
    ensures
        r == is_digest_label(value.spec_bytes()),
        r == is_digest_text(value@),
{
    let b = value.as_bytes();
    if b.len() != 71 {
        return false;
    }
    if !(b[0] == 115 && b[1] == 104 && b[2] == 97 && b[3] == 50 && b[4] == 53 && b[5] == 54
        && b[6] == 58) {
        assert(b@.subrange(0, 7)[0] == b@[0]);
        assert(b@.subrange(0, 7)[1] == b@[1]);
        assert(b@.subrange(0, 7)[2] == b@[2]);
        assert(b@.subrange(0, 7)[3] == b@[3]);
        assert(b@.subrange(0, 7)[4] == b@[4]);
        assert(b@.subrange(0, 7)[5] == b@[5]);
        assert(b@.subrange(0, 7)[6] == b@[6]);
        return false;
    }
    assert(b@.subrange(0, 7) =~= sha256_prefix_bytes());
    let mut i: usize = 7;
    while i < 71
        invariant
            b@ == value.spec_bytes(),
            b@.len() == 71,
            7 <= i <= 71,
            forall|j: int| 7 <= j < i ==> is_lower_hex_byte(#[trigger] b@[j]),
        decreases 71 - i,
    {
        let c = b[i];
        if !((48 <= c && c <= 57) || (97 <= c && c <= 102)) {
            return false;
        }
        i = i + 1;
    }
    true
}

/// A digest label given as text.
pub open spec fn is_digest_text(s: Seq<char>) -> bool {
    is_digest_label(encode_utf8(s))
}

/// A bounded identifier text: 1..=256 UTF-8 bytes with no surrounding white space.
pub open spec fn is_bounded_subject(s: Seq<char>) -> bool {
    s.len() > 0 && encode_utf8(s).len() <= 256 && is_trimmed(s)
}

pub fn text_is_trimmed(s: &str) -> (r: bool)
    ensures
        r == is_trimmed(s@),
{
    let v = chars_of(s);
    if v.len() == 0 {
        return true;
    }
    !char_is_white_space(v[0]) && !char_is_white_space(v[v.len() - 1])
}

pub fn bounded_subject(s: &str) -> (r: bool)
    ensures
        r == is_bounded_subject(s@),
{
    !s.is_empty() && s.as_bytes().len() <= 256 && text_is_trimmed(s)
}

} // verus!

verus! {

/// Two character sequences are equal.
pub fn chars_eq(a: &Vec<char>, b: &Vec<char>) -> (r: bool)
    ensures
        r == (a@ == b@),
{
    if a.len() != b.len() {
        return false;
    }
    let mut i: usize = 0;
    while i < a.len()
        invariant
            a.len() == b.len(),
            i <= a.len(),
            forall|j: int| 0 <= j < i ==> a@[j] == b@[j],
        decreases a.len() - i,
    {
        if a[i] != b[i] {
            return false;
        }
        i = i + 1;
    }
    assert(a@ =~= b@);
    true
}

/// A character sequence equals the characters of a text.
pub fn chars_eq_str(a: &Vec<char>, b: &str) -> (r: bool)
    ensures
        r == (a@ == b@),
{
    let vb = chars_of(b);
    chars_eq(a, &vb)
}

/// Collects characters into a `String` (`FromIterator<char>`).
#[verifier::external_body]
pub(crate) fn string_from_chars(v: &Vec<char>) -> (s: String)
    ensures
        s@ == v@,
{
    v.iter().collect()
}

/// Every non-overlapping occurrence of `pat`, leftmost first, replaced by `rep`
/// (the rule of `str::replace`).
pub open spec fn replace_all(s: Seq<char>, pat: Seq<char>, rep: Seq<char>) -> Seq<char>
    recommends
        pat.len() > 0,
    decreases s.len(),
{
    if pat.len() == 0 || s.len() < pat.len() {
        s
    } else if s.take(pat.len() as int) == pat {
        rep + replace_all(s.skip(pat.len() as int), pat, rep)
    } else {
        seq![s[0]] + replace_all(s.skip(1), pat, rep)
    }
}

fn starts_at(s: &Vec<char>, i: usize, pat: &Vec<char>) -> (r: bool)
    requires
        i + pat.len() <= s.len(),
    ensures
        r == (s@.subrange(i as int, i + pat.len()) == pat@),
{
    let mut k: usize = 0;
    while k < pat.len()
        invariant
            i + pat.len() <= s.len(),
            k <= pat.len(),
            forall|j: int| 0 <= j < k ==> s@[i + j] == pat@[j],
        decreases pat.len() - k,
    {
        if s[i + k] != pat[k] {
            assert(s@.subrange(i as int, i + pat.len())[k as int] != pat@[k as int]);
            return false;
        }
        k = k + 1;
    }
    assert(s@.subrange(i as int, i + pat.len()) =~= pat@);
    true
}

/// `replace_all` on a character vector.
pub fn replace_chars(s: &Vec<char>, pat: &str, rep: &str) -> (r: Vec<char>)
    requires
        pat@.len() > 0,
    ensures
        r@ == replace_all(s@, pat@, rep@),
{
    let p = chars_of(pat);
    let q = chars_of(rep);
    let mut out: Vec<char> = Vec::new();
    let mut i: usize = 0;
    assert(s@.skip(0) =~= s@);
    assert(out@ + replace_all(s@, p@, q@) =~= replace_all(s@, p@, q@));
    while i < s.len()
        invariant
            p@ == pat@,
            q@ == rep@,
            p@.len() > 0,
            i <= s.len(),
            out@ + replace_all(s@.skip(i as int), p@, q@) == replace_all(s@, p@, q@),
        decreases s.len() - i,
    {
        let ghost rest = s@.skip(i as int);
        if p.len() <= s.len() - i && starts_at(s, i, &p) {
            assert(rest.take(p@.len() as int) =~= s@.subrange(i as int, i + p@.len()));
            assert(rest.skip(p@.len() as int) =~= s@.skip(i + p@.len()));
            let mut k: usize = 0;
            let ghost before = out@;
            while k < q.len()
                invariant
                    k <= q.len(),
                    out@ == before + q@.take(k as int),
                decreases q.len() - k,
            {
                out.push(q[k]);
                k = k + 1;
                assert(out@ =~= before + q@.take(k as int));
            }
            assert(q@.take(q@.len() as int) =~= q@);
            assert(out@ + replace_all(s@.skip(i + p@.len()), p@, q@) =~= before + (q@
                + replace_all(rest.skip(p@.len() as int), p@, q@)));
            i = i + p.len();
        } else {
            if p.len() <= s.len() - i {
                assert(rest.take(p@.len() as int) =~= s@.subrange(i as int, i + p@.len()));
            }
            assert(rest.skip(1) =~= s@.skip(i + 1));
            assert(rest[0] == s@[i as int]);
            let ghost before = out@;
            out.push(s[i]);
            assert(out@ + replace_all(s@.skip(i + 1), p@, q@) =~= before + (seq![rest[0]]
                + replace_all(rest.skip(1), p@, q@)));
            i = i + 1;
        }
    }
    assert(s@.skip(s.len() as int) =~= Seq::<char>::empty());
    assert(out@ + Seq::<char>::empty() =~= out@);
    out
}

} // verus!

verus! {

/// The lower-case hexadecimal digit of a value below 16.
pub open spec fn hex_digit(n: u8) -> char {
    if n < 10 {
        ((n as u32) + 48) as char
    } else {
        ((n as u32) + 87) as char
    }
}

pub fn hex_digit_exec(n: u8) -> (c: char)
    requires
        n < 16,
    ensures
        c == hex_digit(n),
{
    if n < 10 {
        (n + 48) as char
    } else {
        (n + 87) as char
    }
}

/// Bytes as lower-case hexadecimal, two digits per byte.
pub open spec fn hex_lower(bytes: Seq<u8>) -> Seq<char>
    decreases bytes.len(),
{
    if bytes.len() == 0 {
        Seq::<char>::empty()
    } else {
        hex_lower(bytes.drop_last()) + seq![
            hex_digit(bytes.last() / 16),
            hex_digit(bytes.last() % 16),
        ]
    }
}

pub proof fn lemma_hex_lower_len(bytes: Seq<u8>)
    ensures
        hex_lower(bytes).len() == 2 * bytes.len(),
    decreases bytes.len(),
{
    if bytes.len() > 0 {
        lemma_hex_lower_len(bytes.drop_last());
    }
}

pub fn hex_encode(bytes: &[u8]) -> (r: Vec<char>)
    ensures
        r@ == hex_lower(bytes@),
{
    let mut out: Vec<char> = Vec::new();
    let mut i: usize = 0;
    assert(bytes@.take(0) =~= Seq::<u8>::empty());
    while i < bytes.len()
        invariant
            i <= bytes@.len(),
            out@ == hex_lower(bytes@.take(i as int)),
        decreases bytes.len() - i,
    {
        let b = bytes[i];
        assert(bytes@.take(i + 1).drop_last() =~= bytes@.take(i as int));
        assert(bytes@.take(i + 1).last() == b);
        out.push(hex_digit_exec(b / 16));
        out.push(hex_digit_exec(b % 16));
        i = i + 1;
    }
    assert(bytes@.take(bytes@.len() as int) =~= bytes@);
    out
}

/// The decimal digits of a number, most significant first.
pub open spec fn decimal(n: nat) -> Seq<char>
    decreases n,
{
    if n < 10 {
        seq![hex_digit(n as u8)]
    } else {
        decimal(n / 10) + seq![hex_digit((n % 10) as u8)]
    }
}

pub fn decimal_u128(n: u128) -> (r: Vec<char>)
    ensures
        r@ == decimal(n as nat),
    decreases n,
{
    if n < 10 {
        let mut v: Vec<char> = Vec::new();
        v.push(hex_digit_exec(n as u8));
        v
    } else {
        let mut v = decimal_u128(n / 10);
        v.push(hex_digit_exec((n % 10) as u8));
        v
    }
}

/// The 4-bit digit `i` (0 most significant) of a 128-bit value.
pub open spec fn nibble(u: u128, i: int) -> u8 {
    ((u >> ((124 - 4 * i) as u128)) & 0xf) as u8
}

/// The 32 hexadecimal digits of a 128-bit value.
pub open spec fn uuid_digits(u: u128) -> Seq<char> {
    Seq::new(32, |i: int| hex_digit(nibble(u, i)))
}

/// The hyphenated lower-case text of a UUID (8-4-4-4-12 digits).
pub open spec fn uuid_text(u: u128) -> Seq<char> {
    let d = uuid_digits(u);
    d.subrange(0, 8) + seq!['-'] + d.subrange(8, 12) + seq!['-'] + d.subrange(12, 16) + seq!['-']
        + d.subrange(16, 20) + seq!['-'] + d.subrange(20, 32)
}

fn push_range(out: &mut Vec<char>, d: &Vec<char>, from: usize, to: usize)
    requires
        from <= to <= d.len(),
    ensures
        final(out)@ == old(out)@ + d@.subrange(from as int, to as int),
{
    let ghost before = out@;
    let mut k: usize = from;
    while k < to
        invariant
            from <= k <= to <= d.len(),
            out@ == before + d@.subrange(from as int, k as int),
        decreases to - k,
    {
        out.push(d[k]);
        k = k + 1;
        assert(out@ =~= before + d@.subrange(from as int, k as int));
    }
}

/// Formats a UUID the way `uuid::Uuid` displays it.
pub fn uuid_chars(u: u128) -> (r: Vec<char>)
    ensures
        r@ == uuid_text(u),
{
    let mut d: Vec<char> = Vec::new();
    let mut i: usize = 0;
    while i < 32
        invariant
            i <= 32,
            d@.len() == i,
            forall|j: int| 0 <= j < i ==> d@[j] == hex_digit(nibble(u, j)),
        decreases 32 - i,
    {
        let shift: u128 = (124 - 4 * i) as u128;
        let n: u8 = ((u >> shift) & 0xf) as u8;
        assert(n < 16) by (bit_vector)
            requires
                n == ((u >> shift) & 0xf) as u8,
        ;
        d.push(hex_digit_exec(n));
        i = i + 1;
    }
    assert(d@ =~= uuid_digits(u));
    let mut out: Vec<char> = Vec::new();
    push_range(&mut out, &d, 0, 8);
    out.push('-');
    push_range(&mut out, &d, 8, 12);
    out.push('-');
    push_range(&mut out, &d, 12, 16);
    out.push('-');
    push_range(&mut out, &d, 16, 20);
    out.push('-');
    push_range(&mut out, &d, 20, 32);
    out
}

/// A character as a JSON string body writes it (serde_json's escaping).
pub open spec fn json_escape_char(c: char) -> Seq<char> {
    if c == '"' {
        seq!['\\', '"']
    } else if c == '\\' {
        seq!['\\', '\\']
    } else if c == '\n' {
        seq!['\\', 'n']
    } else if c == '\r' {
        seq!['\\', 'r']
    } else if c == '\t' {
        seq!['\\', 't']
    } else if (c as u32) == 8 {
        seq!['\\', 'b']
    } else if (c as u32) == 12 {
        seq!['\\', 'f']
    } else if (c as u32) < 0x20 {
        seq!['\\', 'u', '0', '0', hex_digit(((c as u32) / 16) as u8), hex_digit(((c as u32) % 16) as u8)]
    } else {
        seq![c]
    }
}

/// A text as a quoted JSON string.
pub open spec fn json_string_body(s: Seq<char>) -> Seq<char>
    decreases s.len(),
{
    if s.len() == 0 {
        Seq::<char>::empty()
    } else {
        json_string_body(s.drop_last()) + json_escape_char(s.last())
    }
}

pub open spec fn json_string(s: Seq<char>) -> Seq<char> {
    seq!['"'] + json_string_body(s) + seq!['"']
}

fn push_escaped(out: &mut Vec<char>, c: char)
    ensures
        final(out)@ == old(out)@ + json_escape_char(c),
{
    let ghost before = out@;
    let n: u32 = c as u32;
    if c == '"' {
        out.push('\\');
        out.push('"');
    } else if c == '\\' {
        out.push('\\');
        out.push('\\');
    } else if c == '\n' {
        out.push('\\');
        out.push('n');
    } else if c == '\r' {
        out.push('\\');
        out.push('r');
    } else if c == '\t' {
        out.push('\\');
        out.push('t');
    } else if n == 8 {
        out.push('\\');
        out.push('b');
    } else if n == 12 {
        out.push('\\');
        out.push('f');
    } else if n < 0x20 {
        out.push('\\');
        out.push('u');
        out.push('0');
        out.push('0');
        out.push(hex_digit_exec((n / 16) as u8));
        out.push(hex_digit_exec((n % 16) as u8));
    } else {
        out.push(c);
    }
    assert(out@ =~= before + json_escape_char(c));
}

/// Appends a text as a quoted JSON string.
pub fn push_json_string(out: &mut Vec<char>, s: &str)
    ensures
        final(out)@ == old(out)@ + json_string(s@),
{
    let v = chars_of(s);
    let ghost before = out@;
    out.push('"');
    let mut i: usize = 0;
    assert(v@.take(0) =~= Seq::<char>::empty());
    assert(out@ =~= before + seq!['"'] + json_string_body(v@.take(0)));
    while i < v.len()
        invariant
            i <= v@.len(),
            out@ == before + seq!['"'] + json_string_body(v@.take(i as int)),
        decreases v.len() - i,
    {
        assert(v@.take(i + 1).drop_last() =~= v@.take(i as int));
        assert(v@.take(i + 1).last() == v@[i as int]);
        push_escaped(out, v[i]);
        i = i + 1;
        assert(out@ =~= before + seq!['"'] + json_string_body(v@.take(i as int)));
    }
    assert(v@.take(v@.len() as int) =~= v@);
    out.push('"');
    assert(out@ =~= before + json_string(s@));
}

/// Appends a text unchanged.
pub fn push_str(out: &mut Vec<char>, s: &str)
    ensures
        final(out)@ == old(out)@ + s@,
{
    let v = chars_of(s);
    let mut k: usize = 0;
    let ghost before = out@;
    while k < v.len()
        invariant
            k <= v.len(),
            out@ == before + v@.take(k as int),
        decreases v.len() - k,
    {
        out.push(v[k]);
        k = k + 1;
        assert(out@ =~= before + v@.take(k as int));
    }
    assert(v@.take(v@.len() as int) =~= v@);
}

/// Appends a number in decimal.
pub fn push_decimal(out: &mut Vec<char>, n: u64)
    ensures
        final(out)@ == old(out)@ + decimal(n as nat),
{
    push_chars(out, &decimal_u128(n as u128));
}

/// Appends a character sequence unchanged.
pub fn push_chars(out: &mut Vec<char>, v: &Vec<char>)
    ensures
        final(out)@ == old(out)@ + v@,
{
    let mut k: usize = 0;
    let ghost before = out@;
    while k < v.len()
        invariant
            k <= v.len(),
            out@ == before + v@.take(k as int),
        decreases v.len() - k,
    {
        out.push(v[k]);
        k = k + 1;
        assert(out@ =~= before + v@.take(k as int));
    }
    assert(v@.take(v@.len() as int) =~= v@);
}

} // verus!

verus! {

/// Leading white space removed.
pub open spec fn trim_start(s: Seq<char>) -> Seq<char>
    decreases s.len(),
{
    if s.len() > 0 && is_white_space(s[0]) {
        trim_start(s.skip(1))
    } else {
        s
    }
}

/// Trailing white space removed.
pub open spec fn trim_end(s: Seq<char>) -> Seq<char>
    decreases s.len(),
{
    if s.len() > 0 && is_white_space(s.last()) {
        trim_end(s.drop_last())
    } else {
        s
    }
}

/// Surrounding white space removed (`str::trim`).
pub open spec fn trim(s: Seq<char>) -> Seq<char> {
    trim_end(trim_start(s))
}

/// The bounds of `v[a..b]` with surrounding white space removed.
pub fn trim_bounds(v: &Vec<char>, a: usize, b: usize) -> (r: (usize, usize))
    requires
        a <= b <= v.len(),
    ensures
        a <= r.0 <= r.1 <= b,
        v@.subrange(r.0 as int, r.1 as int) == trim(v@.subrange(a as int, b as int)),
{
    let mut x = a;
    while x < b && char_is_white_space(v[x])
        invariant
            a <= x <= b <= v.len(),
            trim_start(v@.subrange(a as int, b as int)) == trim_start(
                v@.subrange(x as int, b as int),
            ),
        decreases b - x,
    {
        assert(v@.subrange(x as int, b as int).skip(1) =~= v@.subrange(x + 1, b as int));
        x = x + 1;
    }
    assert(trim_start(v@.subrange(x as int, b as int)) == v@.subrange(x as int, b as int));
    let mut y = b;
    while y > x && char_is_white_space(v[y - 1])
        invariant
            a <= x <= y <= b <= v.len(),
            trim(v@.subrange(a as int, b as int)) == trim_end(v@.subrange(x as int, y as int)),
        decreases y - x,
    {
        assert(v@.subrange(x as int, y as int).drop_last() =~= v@.subrange(x as int, y - 1));
        y = y - 1;
    }
    (x, y)
}

/// The index of the first `sep` at or after `from`, or the length when there is none.
pub open spec fn next_sep(s: Seq<char>, from: int, sep: char) -> int
    decreases s.len() - from,
{
    if from >= s.len() {
        s.len() as int
    } else if s[from] == sep {
        from
    } else {
        next_sep(s, from + 1, sep)
    }
}

pub proof fn lemma_next_sep_bounds(s: Seq<char>, from: int, sep: char)
    requires
        0 <= from <= s.len(),
    ensures
        from <= next_sep(s, from, sep) <= s.len(),
        next_sep(s, from, sep) < s.len() ==> s[next_sep(s, from, sep)] == sep,
    decreases s.len() - from,
{
    if from < s.len() && s[from] != sep {
        lemma_next_sep_bounds(s, from + 1, sep);
    }
}

pub fn find_sep(v: &Vec<char>, from: usize, sep: char) -> (r: usize)
    requires
        from <= v.len(),
    ensures
        r == next_sep(v@, from as int, sep),
{
    let mut i = from;
    while i < v.len() && v[i] != sep
        invariant
            from <= i <= v.len(),
            next_sep(v@, from as int, sep) == next_sep(v@, i as int, sep),
        decreases v.len() - i,
    {
        i = i + 1;
    }
    i
}

} // verus!

verus! {

/// `needle` occurs in `hay` starting at `i`.
pub open spec fn occurs_at(hay: Seq<char>, needle: Seq<char>, i: int) -> bool {
    0 <= i && i + needle.len() <= hay.len() && hay.subrange(i, i + needle.len()) == needle
}

/// `needle` occurs somewhere in `hay`.
pub open spec fn has_substring(hay: Seq<char>, needle: Seq<char>) -> bool {
    exists|i: int| occurs_at(hay, needle, i)
}

/// Whether `needle` occurs in `hay` (`str::contains`).
pub fn contains_text(hay: &str, needle: &str) -> (r: bool)
    ensures
        r == has_substring(hay@, needle@),
{
    let h = chars_of(hay);
    let n = chars_of(needle);
    if n.len() > h.len() {
        assert forall|i: int| !occurs_at(hay@, needle@, i) by {}
        return false;
    }
    let mut i: usize = 0;
    while i <= h.len() - n.len()
        invariant
            h@ == hay@,
            n@ == needle@,
            n.len() <= h.len(),
            i <= h.len() - n.len() + 1,
            forall|k: int| 0 <= k < i ==> !occurs_at(hay@, needle@, k),
        decreases h.len() - i,
    {
        let mut j: usize = 0;
        let mut matched = true;
        while j < n.len()
            invariant
                h@ == hay@,
                n@ == needle@,
                i + n.len() <= h.len(),
                j <= n.len(),
                matched == forall|m: int| 0 <= m < j ==> h@[i + m] == n@[m],
            decreases n.len() - j,
        {
            if h[i + j] != n[j] {
                matched = false;
            }
            j = j + 1;
        }
        if matched {
            assert(hay@.subrange(i as int, i + needle@.len()) =~= needle@);
            assert(occurs_at(hay@, needle@, i as int));
            return true;
        }
        assert(!occurs_at(hay@, needle@, i as int)) by {
            if occurs_at(hay@, needle@, i as int) {
                assert forall|m: int| 0 <= m < n.len() implies h@[i + m] == n@[m] by {
                    assert(hay@.subrange(i as int, i + needle@.len())[m] == needle@[m]);
                }
            }
        }
        i = i + 1;
    }
    assert forall|k: int| !occurs_at(hay@, needle@, k) by {
        if occurs_at(hay@, needle@, k) {
            assert(k < i);
        }
    }
    false
}

} // verus!

verus! {

/// Text order (by code point, as `str` compares).
pub open spec fn text_lt(a: Seq<char>, b: Seq<char>) -> bool
    decreases a.len(),
{
    if a.len() == 0 {
        b.len() > 0
    } else if b.len() == 0 {
        false
    } else if a[0] != b[0] {
        a[0] < b[0]
    } else {
        text_lt(a.drop_first(), b.drop_first())
    }
}

/// Whether `a` sorts before `b`.
pub fn str_lt(a: &str, b: &str) -> (r: bool)
    ensures
        r == text_lt(a@, b@),
{
    let va = chars_of(a);
    let vb = chars_of(b);
    let mut i: usize = 0;
    assert(a@.skip(0) =~= a@);
    assert(b@.skip(0) =~= b@);
    while i < va.len() && i < vb.len()
        invariant
            va@ == a@,
            vb@ == b@,
            i <= va.len(),
            i <= vb.len(),
            va@.take(i as int) == vb@.take(i as int),
            text_lt(a@, b@) == text_lt(a@.skip(i as int), b@.skip(i as int)),
        decreases va.len() - i,
    {
        assert(a@.skip(i as int)[0] == va@[i as int]);
        assert(b@.skip(i as int)[0] == vb@[i as int]);
        if va[i] != vb[i] {
            return va[i] < vb[i];
        }
        assert(a@.skip(i as int).drop_first() =~= a@.skip(i + 1));
        assert(b@.skip(i as int).drop_first() =~= b@.skip(i + 1));
        assert(va@.take(i + 1) =~= va@.take(i as int).push(va@[i as int]));
        assert(vb@.take(i + 1) =~= vb@.take(i as int).push(vb@[i as int]));
        i = i + 1;
    }
    assert(a@.skip(i as int).len() == a@.len() - i);
    assert(b@.skip(i as int).len() == b@.len() - i);
    i < vb.len()
}

} // verus!

verus! {

/// No text sorts before itself.
pub proof fn lemma_text_lt_irreflexive(a: Seq<char>)
    ensures
        !text_lt(a, a),
    decreases a.len(),
{
    if a.len() > 0 {
        lemma_text_lt_irreflexive(a.drop_first());
    }
}

/// Text order is transitive.
pub proof fn lemma_text_lt_transitive(a: Seq<char>, b: Seq<char>, c: Seq<char>)
    requires
        text_lt(a, b),
        text_lt(b, c),
    ensures
        text_lt(a, c),
    decreases a.len(),
{
    if a.len() > 0 && b.len() > 0 && c.len() > 0 && a[0] == b[0] && b[0] == c[0] {
        lemma_text_lt_transitive(a.drop_first(), b.drop_first(), c.drop_first());
    }
}

/// Two different texts are ordered one way or the other.
pub proof fn lemma_text_lt_total(a: Seq<char>, b: Seq<char>)
    requires
        a != b,
    ensures
        text_lt(a, b) || text_lt(b, a),
    decreases a.len(),
{
    if a.len() > 0 && b.len() > 0 && a[0] == b[0] {
        if a.drop_first() =~= b.drop_first() {
            assert(a =~= b) by {
                assert forall|i: int| 0 <= i < a.len() implies a[i] == b[i] by {
                    if i > 0 {
                        assert(a[i] == a.drop_first()[i - 1]);
                        assert(b[i] == b.drop_first()[i - 1]);
                    }
                }
            }
        } else {
            lemma_text_lt_total(a.drop_first(), b.drop_first());
        }
    } else if a.len() == 0 && b.len() == 0 {
        assert(a =~= b);
    }
}

} // verus!
