use vstd::prelude::*;
use vstd::string::StringExecFns;

verus! {

/// The lower-case hexadecimal digit for a value below sixteen.
pub open spec fn spec_hex_digit(value: int) -> char {
    if value < 10 {
        (48 + value) as char
    } else {
        (87 + value) as char
    }
}

/// The value of a hexadecimal digit of either case, if the character is one.
pub open spec fn spec_hex_value(c: char) -> Option<int> {
    let code = c as int;
    if 48 <= code <= 57 {
        Some(code - 48)
    } else if 97 <= code <= 102 {
        Some(code - 87)
    } else if 65 <= code <= 70 {
        Some(code - 55)
    } else {
        None
    }
}

/// Lower-case hexadecimal text of a byte string: two digits per byte, the high
/// half first.
pub open spec fn spec_hex_encode(bytes: Seq<u8>) -> Seq<char> {
    Seq::new(
        2 * bytes.len(),
        |i: int|
            if i % 2 == 0 {
                spec_hex_digit(bytes[i / 2] as int / 16)
            } else {
                spec_hex_digit(bytes[i / 2] as int % 16)
            },
    )
}

/// Whether a text is hexadecimal: an even number of hexadecimal digits.
pub open spec fn spec_is_hex(text: Seq<char>) -> bool {
    &&& text.len() % 2 == 0
    &&& forall|i: int| 0 <= i < text.len() ==> (#[trigger] spec_hex_value(text[i])) is Some
}

/// The bytes that a hexadecimal text stands for; `None` where it is not
/// hexadecimal.
pub open spec fn spec_hex_decode(text: Seq<char>) -> Option<Seq<u8>> {
    if spec_is_hex(text) {
        Some(
            Seq::new(
                text.len() / 2,
                |i: int|
                    (spec_hex_value(text[2 * i]).unwrap() * 16 + spec_hex_value(
                        text[2 * i + 1],
                    ).unwrap()) as u8,
            ),
        )
    } else {
        None
    }
}

/// Decoding the hexadecimal text of a byte string gives the byte string back.
pub proof fn lemma_hex_round_trip(bytes: Seq<u8>)
    ensures
        spec_is_hex(spec_hex_encode(bytes)),
        spec_hex_decode(spec_hex_encode(bytes)) == Some(bytes),
        spec_hex_encode(bytes).len() == 2 * bytes.len(),
{
    let text = spec_hex_encode(bytes);
    assert forall|i: int| 0 <= i < text.len() implies (#[trigger] spec_hex_value(text[i])) is Some
        && spec_hex_value(text[i]).unwrap() == (if i % 2 == 0 {
        bytes[i / 2] as int / 16
    } else {
        bytes[i / 2] as int % 16
    }) by {
        let b = bytes[i / 2] as int;
        assert(0 <= b / 16 < 16 && 0 <= b % 16 < 16);
    }
    assert(spec_is_hex(text));
    let decoded = spec_hex_decode(text).unwrap();
    assert(decoded.len() == bytes.len());
    assert forall|i: int| 0 <= i < bytes.len() implies decoded[i] == bytes[i] by {
        let b = bytes[i] as int;
        assert((2 * i) % 2 == 0 && (2 * i) / 2 == i);
        assert((2 * i + 1) % 2 == 1 && (2 * i + 1) / 2 == i);
        assert(spec_hex_value(text[2 * i]).unwrap() == b / 16);
        assert(spec_hex_value(text[2 * i + 1]).unwrap() == b % 16);
        assert((b / 16) * 16 + b % 16 == b);
    }
    assert(decoded =~= bytes);
}

/// No character of the hexadecimal text of a byte string is the separator
/// `|`.
pub proof fn lemma_hex_digits_are_alphanumeric(bytes: Seq<u8>)
    ensures
        forall|i: int|
            0 <= i < spec_hex_encode(bytes).len() ==> (#[trigger] spec_hex_encode(bytes)[i])
                != '|',
{
    let text = spec_hex_encode(bytes);
    assert forall|i: int| 0 <= i < text.len() implies (#[trigger] text[i]) != '|' by {
        let b = bytes[i / 2] as int;
        assert(0 <= b / 16 < 16 && 0 <= b % 16 < 16);
    }
}

/// The decimal digit for a value below ten.
pub open spec fn spec_decimal_digit(value: nat) -> char {
    (48 + value) as char
}

/// Decimal text of a natural number, without sign or leading zeros.
pub open spec fn spec_decimal(n: nat) -> Seq<char>
    decreases n,
{
    if n < 10 {
        seq![spec_decimal_digit(n)]
    } else {
        spec_decimal(n / 10).push(spec_decimal_digit(n % 10))
    }
}

/// Every character of a decimal text is a digit.
pub proof fn lemma_decimal_digits(n: nat)
    ensures
        spec_decimal(n).len() >= 1,
        n >= 10 ==> spec_decimal(n).len() >= 2,
        forall|i: int|
            0 <= i < spec_decimal(n).len() ==> 48 <= (#[trigger] spec_decimal(n)[i]) as int <= 57,
    decreases n,
{
    if n >= 10 {
        lemma_decimal_digits(n / 10);
    }
}

/// Two numbers with the same decimal text are the same number.
pub proof fn lemma_decimal_injective(a: nat, b: nat)
    requires
        spec_decimal(a) == spec_decimal(b),
    ensures
        a == b,
    decreases a,
{
    lemma_decimal_digits(a);
    lemma_decimal_digits(b);
    if a < 10 {
        assert(spec_decimal(a).len() == 1);
        assert(b < 10);
        assert(spec_decimal(a)[0] as int == 48 + a);
        assert(spec_decimal(b)[0] as int == 48 + b);
    } else {
        assert(b >= 10);
        let ta = spec_decimal(a / 10);
        let tb = spec_decimal(b / 10);
        assert(spec_decimal(a).last() as int == 48 + a % 10);
        assert(spec_decimal(b).last() as int == 48 + b % 10);
        assert(spec_decimal(a).drop_last() =~= ta);
        assert(spec_decimal(b).drop_last() =~= tb);
        lemma_decimal_injective(a / 10, b / 10);
    }
}

/// The text of one decimal digit.
fn digit_text(value: u64) -> (text: &'static str)
    requires
        value < 10,
    ensures
        text@ == seq![spec_decimal_digit(value as nat)],
{
    proof {
        reveal_strlit("0");
        reveal_strlit("1");
        reveal_strlit("2");
        reveal_strlit("3");
        reveal_strlit("4");
        reveal_strlit("5");
        reveal_strlit("6");
        reveal_strlit("7");
        reveal_strlit("8");
        reveal_strlit("9");
    }
    let text: &'static str = if value == 0 {
        "0"
    } else if value == 1 {
        "1"
    } else if value == 2 {
        "2"
    } else if value == 3 {
        "3"
    } else if value == 4 {
        "4"
    } else if value == 5 {
        "5"
    } else if value == 6 {
        "6"
    } else if value == 7 {
        "7"
    } else if value == 8 {
        "8"
    } else {
        "9"
    };
    assert(text@ =~= seq![spec_decimal_digit(value as nat)]);
    text
}

/// Decimal text of a number, as `{}` prints it.
pub fn decimal_string(n: u64) -> (text: String)
    ensures
        text@ == spec_decimal(n as nat),
    decreases n,
{
    if n < 10 {
        String::from_str(digit_text(n))
    } else {
        decimal_string(n / 10).concat(digit_text(n % 10))
    }
}

/// Lower-case hexadecimal text of `data`.
///
/// Trusted: calls `hex::encode`, which writes two lower-case digits for each
/// byte, the high half first.
#[verifier::external_body]
pub(crate) fn hex_encode(data: &[u8]) -> (text: String)
    ensures
        text@ == spec_hex_encode(data@),
{
    hex::encode(data)
}

/// The bytes of the hexadecimal text `text`, or `None` where `text` is not an
/// even number of hexadecimal digits.
///
/// Trusted: calls `hex::decode`, which accepts digits of either case, refuses
/// an odd length and any other character, and builds each byte from two
/// digits, the high half first.
#[verifier::external_body]
pub(crate) fn hex_decode(text: &str) -> (bytes: Option<Vec<u8>>)
    ensures
        match bytes {
            Some(b) => spec_hex_decode(text@) == Some(b@),
            None => spec_hex_decode(text@) is None,
        },
{
    hex::decode(text).ok()
}

/// The `N` bytes of `bytes` as an array.
pub fn to_array<const N: usize>(bytes: &[u8]) -> (array: [u8; N])
    requires
        bytes@.len() == N,
    ensures
        array@ == bytes@,
{
    let mut array: [u8; N] = [0u8; N];
    let mut i: usize = 0;
    while i < N
        invariant
            i <= N,
            bytes@.len() == N,
            forall|j: int| 0 <= j < i ==> array@[j] == bytes@[j],
        decreases N - i,
    {
        array[i] = bytes[i];
        i = i + 1;
    }
    assert(array@ =~= bytes@);
    array
}

/// Whether two byte strings are the same.
pub fn same_bytes(a: &[u8], b: &[u8]) -> (same: bool)
    ensures
        same == (a@ == b@),
{
    if a.len() != b.len() {
        return false;
    }
    let mut i: usize = 0;
    while i < a.len()
        invariant
            i <= a@.len(),
            a@.len() == b@.len(),
            forall|j: int| 0 <= j < i ==> a@[j] == b@[j],
        decreases a@.len() - i,
    {
        if a[i] != b[i] {
            return false;
        }
        i = i + 1;
    }
    assert(a@ =~= b@);
    true
}

} // verus!
