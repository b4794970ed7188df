//! Text renderings shared by the wire messages: lower-case hexadecimal,
//! decimal numbers and the multi-line digest layout shown to contributors.

use vstd::prelude::*;
use vstd::string::*;

verus! {

/// `String::push` appends one character at the end of the string and leaves
/// the rest of it as it was.
pub assume_specification[ String::push ](s: &mut String, c: char)
    ensures
        final(s)@ == old(s)@.push(c),
;

/// `str::starts_with`, for a string pattern: whether the text begins with
/// the characters of `prefix`.
#[verifier::external_body]
pub(crate) fn starts_with(text: &str, prefix: &str) -> (b: bool)
    ensures
        b == has_prefix(text@, prefix@),
{
    text.starts_with(prefix)
}

/// `s` begins with the characters of `prefix`.
pub open spec fn has_prefix(s: Seq<char>, prefix: Seq<char>) -> bool {
    prefix.len() <= s.len() && s.subrange(0, prefix.len() as int) == prefix
}

/// The lower-case hexadecimal digit of a value below sixteen.
pub open spec fn hex_digit(n: u8) -> char {
    if n < 10 {
        (n + 48) as char
    } else {
        (n + 87) as char
    }
}

/// The character at position `i` of the hexadecimal rendering of `bytes`:
/// the high digit of a byte comes first.
pub open spec fn hex_char_at(bytes: Seq<u8>, i: int) -> char {
    if i % 2 == 0 {
        hex_digit(bytes[i / 2] / 16)
    } else {
        hex_digit(bytes[i / 2] % 16)
    }
}

/// Lower-case hexadecimal rendering: two digits for each byte, in order.
pub open spec fn hex(bytes: Seq<u8>) -> Seq<char> {
    Seq::new(2 * bytes.len(), |i: int| hex_char_at(bytes, i))
}

/// Whether `c` is one of `0-9a-f`.
pub open spec fn is_hex_char(c: char) -> bool {
    ('0' <= c && c <= '9') || ('a' <= c && c <= 'f')
}

/// Decimal rendering of a natural number, without leading zeros.
pub open spec fn decimal(n: nat) -> Seq<char>
    decreases n,
{
    if n < 10 {
        seq![((n + 48) as u8) as char]
    } else {
        decimal(n / 10).push((((n % 10) + 48) as u8) as char)
    }
}

/// What byte `i` of a digest adds to the laid-out text. A row holds
/// sixteen bytes and starts with a tab; the bytes stand in groups of four,
/// a space after each group; the row ends with a line feed. The last row and
/// its last group may be short.
pub open spec fn pretty_piece(hash: Seq<u8>, i: int) -> Seq<char> {
    let opening = if i % 16 == 0 {
        seq!['\t']
    } else {
        Seq::<char>::empty()
    };
    let digits = seq![hex_digit(hash[i] / 16), hex_digit(hash[i] % 16)];
    let group_end = if i % 4 == 3 || i == hash.len() - 1 {
        seq![' ']
    } else {
        Seq::<char>::empty()
    };
    let row_end = if i % 16 == 15 || i == hash.len() - 1 {
        seq!['\n']
    } else {
        Seq::<char>::empty()
    };
    opening + digits + group_end + row_end
}

/// The laid-out text of the first `n` bytes of `hash`.
pub open spec fn pretty_rows(hash: Seq<u8>, n: nat) -> Seq<char>
    decreases n,
{
    if n == 0 {
        Seq::<char>::empty()
    } else {
        pretty_rows(hash, (n - 1) as nat) + pretty_piece(hash, n - 1)
    }
}

/// The digest layout shown to contributors: two line feeds, then the rows
/// of [`pretty_piece`].
pub open spec fn pretty_hash_text(hash: Seq<u8>) -> Seq<char> {
    seq!['\n', '\n'] + pretty_rows(hash, hash.len())
}

/// Every character of a hexadecimal rendering is one of `0-9a-f`.
pub proof fn lemma_hex_chars(bytes: Seq<u8>)
    ensures
        hex(bytes).len() == 2 * bytes.len(),
        forall|i: int| 0 <= i < hex(bytes).len() ==> is_hex_char(#[trigger] hex(bytes)[i]),
{
    assert forall|i: int| 0 <= i < hex(bytes).len() implies is_hex_char(
        #[trigger] hex(bytes)[i],
    ) by {
        let b = bytes[i / 2];
        assert(b / 16 < 16 && b % 16 < 16);
    }
}

/// Two byte strings with the same hexadecimal rendering are the same.
pub proof fn lemma_hex_injective(a: Seq<u8>, b: Seq<u8>)
    requires
        hex(a) == hex(b),
    ensures
        a == b,
{
    assert(hex(a).len() == 2 * a.len());
    assert(hex(b).len() == 2 * b.len());
    assert(a.len() == b.len());
    assert forall|j: int| 0 <= j < a.len() implies a[j] == b[j] by {
        assert(hex(a)[2 * j] == hex(b)[2 * j]);
        assert(hex(a)[2 * j + 1] == hex(b)[2 * j + 1]);
        assert((2 * j) % 2 == 0 && (2 * j) / 2 == j);
        assert((2 * j + 1) % 2 == 1 && (2 * j + 1) / 2 == j);
        let x = a[j];
        let y = b[j];
        assert(hex(a)[2 * j] == hex_char_at(a, 2 * j));
        assert(hex(b)[2 * j] == hex_char_at(b, 2 * j));
        assert(hex(a)[2 * j + 1] == hex_char_at(a, 2 * j + 1));
        assert(hex(b)[2 * j + 1] == hex_char_at(b, 2 * j + 1));
        assert(hex_digit(x / 16) == hex_digit(y / 16));
        assert(hex_digit(x % 16) == hex_digit(y % 16));
        assert(x / 16 == y / 16);
        assert(x % 16 == y % 16);
    }
    assert(a =~= b);
}

/// The hexadecimal digit of `n`.
pub fn hex_digit_of(n: u8) -> (c: char)
    requires
        n < 16,
    ensures
        c == hex_digit(n),
{
    if n < 10 {
        (n + 48) as char
    } else {
        (n + 87) as char
    }
}

/// Appends the hexadecimal rendering of `bytes` to `out`.
pub fn push_hex(out: &mut String, bytes: &[u8])
    ensures
        final(out)@ == old(out)@ + hex(bytes@),
{
    let mut i: usize = 0;
    while i < bytes.len()
        invariant
            i <= bytes.len(),
            out@ == old(out)@ + hex(bytes@.take(i as int)),
        decreases bytes.len() - i,
    {
        let b = bytes[i];
        out.push(hex_digit_of(b / 16));
        out.push(hex_digit_of(b % 16));
        i += 1;
        assert(hex(bytes@.take(i as int)) =~= hex(bytes@.take(i - 1)).push(
            hex_digit(b / 16),
        ).push(hex_digit(b % 16)));
    }
    assert(bytes@.take(i as int) =~= bytes@);
}

/// Lower-case hexadecimal rendering of `bytes`.
pub fn to_hex(bytes: &[u8]) -> (out: String)
    ensures
        out@ == hex(bytes@),
{
    let mut out = String::new();
    push_hex(&mut out, bytes);
    out
}

/// Appends the decimal rendering of `n` to `out`.
pub fn push_decimal(out: &mut String, n: u64)
    ensures
        final(out)@ == old(out)@ + decimal(n as nat),
{
    let mut digits: Vec<char> = Vec::new();
    let mut rest: u64 = n;
    while rest >= 10
        invariant
            decimal(n as nat) == decimal(rest as nat) + digits@.reverse(),
        decreases rest,
    {
        let d: u8 = (rest % 10) as u8;
        let ghost before = digits@;
        digits.push((d + 48) as char);
        assert(digits@.reverse() =~= seq![(d + 48) as char] + before.reverse());
        assert(decimal(rest as nat) == decimal((rest / 10) as nat).push((d + 48) as char));
        rest = rest / 10;
    }
    let first: u8 = rest as u8;
    out.push((first + 48) as char);
    let mut k: usize = digits.len();
    while k > 0
        invariant
            k <= digits.len(),
            out@ == old(out)@ + seq![(first + 48) as char] + digits@.reverse().take(
                digits.len() - k,
            ),
        decreases k,
    {
        k -= 1;
        out.push(digits[k]);
        assert(digits@.reverse().take(digits.len() - k) =~= digits@.reverse().take(
            digits.len() - k - 1,
        ).push(digits@[k as int]));
    }
    assert(digits@.reverse().take(digits.len() as int) =~= digits@.reverse());
    assert(decimal(rest as nat) == seq![(first + 48) as char]);
}

/// Decimal rendering of `n`.
pub fn to_decimal(n: u64) -> (out: String)
    ensures
        out@ == decimal(n as nat),
{
    let mut out = String::new();
    push_decimal(&mut out, n);
    out
}

/// Appends what byte `i` of `hash` adds to the laid-out text.
fn push_pretty_piece(out: &mut String, hash: &[u8], i: usize)
    requires
        i < hash.len(),
    ensures
        final(out)@ == old(out)@ + pretty_piece(hash@, i as int),
{
    let last = i == hash.len() - 1;
    if i % 16 == 0 {
        out.push('\t');
    }
    let ghost opened = out@;
    let b = hash[i];
    out.push(hex_digit_of(b / 16));
    out.push(hex_digit_of(b % 16));
    let ghost digits = seq![hex_digit(b / 16), hex_digit(b % 16)];
    assert(out@ =~= opened + digits);
    if i % 4 == 3 || last {
        out.push(' ');
    }
    if i % 16 == 15 || last {
        out.push('\n');
    }
    assert(out@ =~= old(out)@ + pretty_piece(hash@, i as int));
}

/// Lays a digest out for display: see [`pretty_hash_text`].
pub fn pretty_hash(hash: &[u8]) -> (out: String)
    ensures
        out@ == pretty_hash_text(hash@),
{
    let mut out = String::new();
    out.push('\n');
    out.push('\n');
    let n = hash.len();
    let mut i: usize = 0;
    while i < n
        invariant
            i <= n,
            n == hash.len(),
            out@ == seq!['\n', '\n'] + pretty_rows(hash@, i as nat),
        decreases n - i,
    {
        push_pretty_piece(&mut out, hash, i);
        i += 1;
    }
    out
}

} // verus!
