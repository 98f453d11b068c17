//! 256-bit identifiers: account addresses and the hashes of messages,
//! transactions and blocks.

use vstd::prelude::*;

verus! {

/// The lower-case hexadecimal digit for a number below sixteen.
pub open spec fn hex_digit(n: int) -> char {
    if n < 10 {
        ('0' as int + n) as char
    } else {
        ('a' as int + (n - 10)) as char
    }
}

/// The hexadecimal text of `bytes`: two digits for each byte, the high half first.
pub open spec fn hex(bytes: Seq<u8>) -> Seq<char> {
    Seq::new(
        2 * bytes.len(),
        |i: int|
            if i % 2 == 0 {
                hex_digit(bytes[i / 2] as int / 16)
            } else {
                hex_digit(bytes[i / 2] as int % 16)
            },
    )
}

/// A 256-bit identifier as its bytes, the most significant first.
#[derive(Clone, Copy, Debug)]
pub struct UInt256 {
    pub bytes: [u8; 32],
}

impl View for UInt256 {
    type V = Seq<u8>;

    open spec fn view(&self) -> Seq<u8> {
        self.bytes@
    }
}

/// The identifier whose bytes are all zero.
pub open spec fn zero() -> UInt256 {
    UInt256 { bytes: vstd::array::spec_array_fill_for_copy_type::<u8, 32>(0) }
}

impl Default for UInt256 {
    /// The identifier whose bytes are all zero.
    fn default() -> (id: UInt256)
        ensures
            id == zero(),
            id@ == Seq::new(32, |i: int| 0u8),
    {
        UInt256 { bytes: [0u8; 32] }
    }
}

impl PartialEq for UInt256 {
    fn eq(&self, other: &Self) -> (equal: bool) {
        let mut i: usize = 0;
        while i < 32
            invariant
                i <= 32,
                forall|j: int| 0 <= j < i ==> self@[j] == other@[j],
            decreases 32 - i,
        {
            if self.bytes[i] != other.bytes[i] {
                return false;
            }
            i += 1;
        }
        proof {
            lemma_same_bytes(*self, *other);
        }
        true
    }
}

impl vstd::std_specs::cmp::PartialEqSpecImpl for UInt256 {
    open spec fn obeys_eq_spec() -> bool {
        true
    }

    open spec fn eq_spec(&self, other: &Self) -> bool {
        *self == *other
    }
}

impl Eq for UInt256 {

}

impl UInt256 {
    /// The identifier's text: 64 lower-case hexadecimal digits.
    pub open spec fn hex(self) -> Seq<char> {
        hex(self@)
    }

    /// The identifier's text: 64 lower-case hexadecimal digits.
    pub fn to_hex_string(&self) -> (text: String)
        ensures
            text@ == self.hex(),
            text@.len() == 64,
    {
        let mut text = String::new();
        let mut i: usize = 0;
        while i < 32
            invariant
                i <= 32,
                text@ == hex(self@).take(2 * i),
            decreases 32 - i,
        {
            let byte: u8 = self.bytes[i];
            text.append(hex_digit_text(byte / 16));
            text.append(hex_digit_text(byte % 16));
            assert(text@ =~= hex(self@).take(2 * (i + 1)));
            i += 1;
        }
        assert(hex(self@).take(64) =~= hex(self@));
        text
    }
}

/// The one-character text of a hexadecimal digit.
fn hex_digit_text(n: u8) -> (text: &'static str)
    requires
        n < 16,
    ensures
        text@ == seq![hex_digit(n as int)],
{
    proof {
        reveal_strlit("0");
        reveal_strlit("1");
        reveal_strlit("2");
        reveal_strlit("3");
        reveal_strlit("4");
        reveal_strlit("5");
        reveal_strlit("6");
        reveal_strlit("7");
        reveal_strlit("8");
        reveal_strlit("9");
        reveal_strlit("a");
        reveal_strlit("b");
        reveal_strlit("c");
        reveal_strlit("d");
        reveal_strlit("e");
        reveal_strlit("f");
    }
    match n {
        0 => "0",
        1 => "1",
        2 => "2",
        3 => "3",
        4 => "4",
        5 => "5",
        6 => "6",
        7 => "7",
        8 => "8",
        9 => "9",
        10 => "a",
        11 => "b",
        12 => "c",
        13 => "d",
        14 => "e",
        _ => "f",
    }
}

/// Identifiers with the same bytes are the same identifier.
pub proof fn lemma_same_bytes(a: UInt256, b: UInt256)
    requires
        a@ =~= b@,
    ensures
        a == b,
{
    assert forall|i: int| 0 <= i < 32 implies a.bytes[i] == b.bytes[i] by {
        assert(a@[i] == b@[i]);
    }
    assert(a.bytes =~= b.bytes);
}

/// Different numbers below sixteen have different digits.
proof fn lemma_hex_digit_is_injective(m: int, n: int)
    requires
        0 <= m < 16,
        0 <= n < 16,
        hex_digit(m) == hex_digit(n),
    ensures
        m == n,
{
    assert(hex_digit(m) as int == if m < 10 { 48 + m } else { 87 + m });
    assert(hex_digit(n) as int == if n < 10 { 48 + n } else { 87 + n });
}

/// The text tells identifiers apart: two identifiers with the same text are the same.
pub proof fn law_hex_is_injective(a: UInt256, b: UInt256)
    requires
        a.hex() == b.hex(),
    ensures
        a == b,
{
    assert forall|i: int| 0 <= i < 32 implies a@[i] == b@[i] by {
        let (m, n) = (a@[i] as int, b@[i] as int);
        assert((2 * i) % 2 == 0 && (2 * i) / 2 == i);
        assert((2 * i + 1) % 2 == 1 && (2 * i + 1) / 2 == i);
        assert(hex(a@)[2 * i] == hex_digit(m / 16) && hex(b@)[2 * i] == hex_digit(n / 16));
        assert(hex(a@)[2 * i + 1] == hex_digit(m % 16) && hex(b@)[2 * i + 1] == hex_digit(n % 16));
        lemma_hex_digit_is_injective(m / 16, n / 16);
        lemma_hex_digit_is_injective(m % 16, n % 16);
    }
    lemma_same_bytes(a, b);
}

/// The text reads back as the identifier. It has 64 digits, each of them one of
/// `0` to `9` and `a` to `f`, and two digits in turn are one byte in base sixteen,
/// the first byte first.
pub proof fn law_hex_reads_back(id: UInt256)
    ensures
        id.hex().len() == 64,
        forall|i: int|
            0 <= i < 64 ==> ({
                let digit = (#[trigger] id.hex()[i]) as int;
                '0' as int <= digit <= '9' as int || 'a' as int <= digit <= 'f' as int
            }),
        ({
            let value = |digit: char|
                if digit as int <= '9' as int {
                    digit as int - '0' as int
                } else {
                    digit as int - 'a' as int + 10
                };
            forall|i: int|
                0 <= i < 32 ==> (#[trigger] id.bytes[i]) as int == 16 * value(id.hex()[2 * i])
                    + value(id.hex()[2 * i + 1])
        }),
{
    assert forall|i: int| 0 <= i < 64 implies ({
        let digit = (#[trigger] id.hex()[i]) as int;
        '0' as int <= digit <= '9' as int || 'a' as int <= digit <= 'f' as int
    }) by {
        let byte = id.bytes[i / 2] as int;
        assert(id.hex()[i] == hex_digit(byte / 16) || id.hex()[i] == hex_digit(byte % 16));
    }
    assert forall|i: int| 0 <= i < 32 implies ({
        let value = |digit: char|
            if digit as int <= '9' as int {
                digit as int - '0' as int
            } else {
                digit as int - 'a' as int + 10
            };
        (#[trigger] id.bytes[i]) as int == 16 * value(id.hex()[2 * i]) + value(id.hex()[2 * i + 1])
    }) by {
        let byte = id.bytes[i] as int;
        assert((2 * i) % 2 == 0 && (2 * i) / 2 == i);
        assert((2 * i + 1) % 2 == 1 && (2 * i + 1) / 2 == i);
        assert(id.hex()[2 * i] == hex_digit(byte / 16));
        assert(id.hex()[2 * i + 1] == hex_digit(byte % 16));
    }
}

/// The zero identifier has zero in every byte, and is the only one that has.
pub proof fn law_zero_is_zero_in_every_byte(id: UInt256)
    ensures
        id == zero() <==> forall|i: int| 0 <= i < 32 ==> #[trigger] id.bytes[i] == 0,
{
    if forall|i: int| 0 <= i < 32 ==> #[trigger] id.bytes[i] == 0 {
        assert forall|i: int| 0 <= i < 32 implies id@[i] == zero()@[i] by {
            assert(id.bytes[i] == 0);
        }
        lemma_same_bytes(id, zero());
    }
}

} // verus!
