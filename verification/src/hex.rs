//! Lowercase hexadecimal escaping of a byte buffer, the form in which the
//! serialized PyO3 configuration travels through an environment variable.
use vstd::prelude::*;

verus! {

/// The lowercase hexadecimal digit for a nibble `n < 16`:
/// `'0'..='9'` for 0..=9 and `'a'..='f'` for 10..=15.
pub open spec fn hex_digit(n: int) -> char {
    if n < 10 {
        (n + 48) as char
    } else {
        (n + 87) as char
    }
}

/// The escaped form of `bytes`: two characters per byte, the digit of the
/// high nibble followed by the digit of the low nibble.
pub open spec fn spec_escape(bytes: Seq<u8>) -> Seq<char> {
    Seq::new(
        (2 * bytes.len()) as nat,
        |j: int|
            if j % 2 == 0 {
                hex_digit(bytes[j / 2] as int / 16)
            } else {
                hex_digit(bytes[j / 2] as int % 16)
            },
    )
}

fn nibble_digit(n: u8) -> (c: char)
    requires
        n < 16,
    ensures
        c == hex_digit(n as int),
{
    if n < 10 {
        (n + 48) as char
    } else {
        (n + 87) as char
    }
}

/// Escapes `bytes` as lowercase hexadecimal, high nibble first.
pub fn escape(bytes: &[u8]) -> (escaped: String)
    ensures
        escaped@ == spec_escape(bytes@),
{
    let n = bytes.len();
    let mut escaped = if n <= usize::MAX / 2 {
        String::with_capacity(2 * n)
    } else {
        String::with_capacity(0)
    };
    let mut i: usize = 0;
    while i < n
        invariant
            n == bytes@.len(),
            i <= n,
            escaped@.len() == 2 * i,
            forall|j: int| 0 <= j < 2 * i ==> #[trigger] escaped@[j] == spec_escape(bytes@)[j],
        decreases n - i,
    {
        let byte = bytes[i];
        let hi: u8 = byte >> 4;
        let lo: u8 = byte & 0x0F;
        assert(hi == byte / 16 && lo == byte % 16) by (bit_vector)
            requires
                hi == byte >> 4u8,
                lo == byte & 0x0Fu8,
        ;
        escaped.push(nibble_digit(hi));
        escaped.push(nibble_digit(lo));
        assert forall|j: int| 0 <= j < 2 * (i + 1) implies #[trigger] escaped@[j] == spec_escape(
            bytes@,
        )[j] by {
            if j >= 2 * i {
                assert(j / 2 == i);
            }
        }
        i = i + 1;
    }
    assert(escaped@ =~= spec_escape(bytes@));
    escaped
}

/// A lowercase hexadecimal digit: `'0'..='9'` or `'a'..='f'`.
pub open spec fn is_lower_hex_digit(c: char) -> bool {
    (48 <= c as int <= 57) || (97 <= c as int <= 102)
}

proof fn lemma_hex_digit(n: int)
    requires
        0 <= n < 16,
    ensures
        is_lower_hex_digit(hex_digit(n)),
        n < 10 ==> hex_digit(n) as int == n + 48,
        n >= 10 ==> hex_digit(n) as int == n + 87,
{
}

proof fn lemma_hex_digit_injective(m: int, n: int)
    requires
        0 <= m < 16,
        0 <= n < 16,
        hex_digit(m) == hex_digit(n),
    ensures
        m == n,
{
    lemma_hex_digit(m);
    lemma_hex_digit(n);
}

/// The escaped text holds exactly two characters per byte, each a lowercase
/// hexadecimal digit; in particular it holds no line break, so it can travel
/// in an environment variable or a `cargo:` directive.
pub proof fn lemma_escape_is_lower_hex(bytes: Seq<u8>)
    ensures
        spec_escape(bytes).len() == 2 * bytes.len(),
        forall|j: int|
            0 <= j < spec_escape(bytes).len() ==> is_lower_hex_digit(#[trigger] spec_escape(bytes)[j]),
        !spec_escape(bytes).contains('\n'),
{
    assert forall|j: int| 0 <= j < spec_escape(bytes).len() implies is_lower_hex_digit(
        #[trigger] spec_escape(bytes)[j],
    ) by {
        let b = bytes[j / 2] as int;
        lemma_hex_digit(b / 16);
        lemma_hex_digit(b % 16);
    }
    if spec_escape(bytes).contains('\n') {
        let j = choose|j: int| 0 <= j < spec_escape(bytes).len() && spec_escape(bytes)[j] == '\n';
        assert(is_lower_hex_digit(spec_escape(bytes)[j]));
    }
}

/// Escaping loses nothing: two buffers with the same escaped text are equal.
pub proof fn lemma_escape_injective(a: Seq<u8>, b: Seq<u8>)
    requires
        spec_escape(a) == spec_escape(b),
    ensures
        a == b,
{
    assert(spec_escape(a).len() == 2 * a.len());
    assert(a.len() == b.len());
    assert forall|i: int| 0 <= i < a.len() implies a[i] == b[i] by {
        let x = a[i] as int;
        let y = b[i] as int;
        assert(spec_escape(a)[2 * i] == hex_digit(x / 16));
        assert(spec_escape(b)[2 * i] == hex_digit(y / 16));
        assert(spec_escape(a)[2 * i + 1] == hex_digit(x % 16));
        assert(spec_escape(b)[2 * i + 1] == hex_digit(y % 16));
        lemma_hex_digit_injective(x / 16, y / 16);
        lemma_hex_digit_injective(x % 16, y % 16);
    }
    assert(a =~= b);
}

/// Escaping works byte by byte: the escape of a concatenation is the
/// concatenation of the escapes.
pub proof fn lemma_escape_concat(a: Seq<u8>, b: Seq<u8>)
    ensures
        spec_escape(a + b) == spec_escape(a) + spec_escape(b),
{
    let l = spec_escape(a + b);
    let r = spec_escape(a) + spec_escape(b);
    assert forall|j: int| 0 <= j < l.len() implies l[j] == r[j] by {
        if j < 2 * a.len() {
            assert((a + b)[j / 2] == a[j / 2]);
        } else {
            let k = j - 2 * a.len();
            assert(k / 2 == j / 2 - a.len());
            assert(k % 2 == j % 2);
            assert((a + b)[j / 2] == b[k / 2]);
        }
    }
    assert(l =~= r);
}

} // verus!
