//! Identifiers of jobs, users, requests and codes.
use vstd::prelude::*;

verus! {

/// A universally unique identifier, as the 128-bit number that it stands for.
#[derive(Debug, Clone, Copy, PartialEq, Eq, Structural, Hash)]
pub struct Uuid {
    pub bits: u128,
}

/// A hexadecimal digit, in lower case.
pub open spec fn hex_char(d: int) -> char {
    if d < 10 {
        (48 + d) as char
    } else {
        (87 + d) as char
    }
}

/// The last `count` hexadecimal digits of a number.
pub open spec fn hex(n: int, count: nat) -> Seq<char>
    decreases count,
{
    if count == 0 {
        Seq::empty()
    } else {
        hex(n / 16, (count - 1) as nat).push(hex_char(n % 16))
    }
}

impl Uuid {
    /// The hyphenated form: 32 hexadecimal digits in groups of 8, 4, 4, 4 and 12.
    pub open spec fn text(self) -> Seq<char> {
        let digits = hex(self.bits as int, 32);
        digits.subrange(0, 8) + "-"@ + digits.subrange(8, 12) + "-"@ + digits.subrange(12, 16) + "-"@
            + digits.subrange(16, 20) + "-"@ + digits.subrange(20, 32)
    }

    /// Prints an identifier with `uuid::Uuid`: `from_u128` takes the number with
    /// its most significant byte first, and `to_string` writes the hyphenated
    /// form in lower case.
    #[verifier::external_body]
    pub(crate) fn to_text(&self) -> (r: String)
        ensures
            r@ == self.text(),
    {
        uuid::Uuid::from_u128(self.bits).to_string()
    }
}

proof fn lemma_hex_len(n: int, count: nat)
    ensures
        hex(n, count).len() == count,
    decreases count,
{
    if count > 0 {
        lemma_hex_len(n / 16, (count - 1) as nat);
    }
}

proof fn lemma_hex_injective(a: int, b: int, count: nat)
    requires
        0 <= a < vstd::arithmetic::power::pow(16, count),
        0 <= b < vstd::arithmetic::power::pow(16, count),
        hex(a, count) == hex(b, count),
    ensures
        a == b,
    decreases count,
{
    reveal(vstd::arithmetic::power::pow);
    if count > 0 {
        let rest = (count - 1) as nat;
        let x = hex(a, count);
        let y = hex(b, count);
        assert(x.last() == hex_char(a % 16));
        assert(y.last() == hex_char(b % 16));
        assert(a % 16 == b % 16);
        assert(x.drop_last() =~= hex(a / 16, rest));
        assert(y.drop_last() =~= hex(b / 16, rest));
        lemma_hex_injective(a / 16, b / 16, rest);
    }
}

proof fn lemma_pow16()
    ensures
        vstd::arithmetic::power::pow(16, 32) == 0x1_0000_0000_0000_0000_0000_0000_0000_0000int,
{
    vstd::arithmetic::power::lemma_pow1(16);
    vstd::arithmetic::power::lemma_pow_adds(16, 1, 1);
    assert(vstd::arithmetic::power::pow(16, 2) == 0x100int) by (nonlinear_arith)
        requires
            vstd::arithmetic::power::pow(16, 2) == vstd::arithmetic::power::pow(16, 1) * vstd::arithmetic::power::pow(16, 1),
            vstd::arithmetic::power::pow(16, 1) == 0x10int,
    ;
    vstd::arithmetic::power::lemma_pow_adds(16, 2, 2);
    assert(vstd::arithmetic::power::pow(16, 4) == 0x10000int) by (nonlinear_arith)
        requires
            vstd::arithmetic::power::pow(16, 4) == vstd::arithmetic::power::pow(16, 2) * vstd::arithmetic::power::pow(16, 2),
            vstd::arithmetic::power::pow(16, 2) == 0x100int,
    ;
    vstd::arithmetic::power::lemma_pow_adds(16, 4, 4);
    assert(vstd::arithmetic::power::pow(16, 8) == 0x100000000int) by (nonlinear_arith)
        requires
            vstd::arithmetic::power::pow(16, 8) == vstd::arithmetic::power::pow(16, 4) * vstd::arithmetic::power::pow(16, 4),
            vstd::arithmetic::power::pow(16, 4) == 0x10000int,
    ;
    vstd::arithmetic::power::lemma_pow_adds(16, 8, 8);
    assert(vstd::arithmetic::power::pow(16, 16) == 0x10000000000000000int) by (nonlinear_arith)
        requires
            vstd::arithmetic::power::pow(16, 16) == vstd::arithmetic::power::pow(16, 8) * vstd::arithmetic::power::pow(16, 8),
            vstd::arithmetic::power::pow(16, 8) == 0x100000000int,
    ;
    vstd::arithmetic::power::lemma_pow_adds(16, 16, 16);
    assert(vstd::arithmetic::power::pow(16, 32) == 0x100000000000000000000000000000000int) by (nonlinear_arith)
        requires
            vstd::arithmetic::power::pow(16, 32) == vstd::arithmetic::power::pow(16, 16) * vstd::arithmetic::power::pow(16, 16),
            vstd::arithmetic::power::pow(16, 16) == 0x10000000000000000int,
    ;
}

proof fn lemma_hex_chars(n: int, count: nat)
    ensures
        forall|i: int| 0 <= i < hex(n, count).len() ==> #[trigger] hex(n, count)[i] != '/',
    decreases count,
{
    if count > 0 {
        let before = hex(n / 16, (count - 1) as nat);
        lemma_hex_chars(n / 16, (count - 1) as nat);
        assert(hex(n, count) == before.push(hex_char(n % 16)));
        assert(hex_char(n % 16) != '/');
        assert forall|i: int| 0 <= i < hex(n, count).len() implies #[trigger] hex(n, count)[i]
            != '/' by {
            if i < before.len() {
                assert(hex(n, count)[i] == before[i]);
            }
        }
    }
}

/// The text of an identifier is a relative path of one component.
pub proof fn uuid_text_is_a_name(id: Uuid)
    ensures
        !id.text().contains('/'),
{
    lemma_hex_len(id.bits as int, 32);
    lemma_hex_chars(id.bits as int, 32);
    reveal_strlit("-");
    let digits = hex(id.bits as int, 32);
    let text = id.text();
    assert forall|at: int| 0 <= at < text.len() implies text[at] != '/' by {
        if at < 8 {
            assert(text[at] == digits[at]);
        } else if 8 < at < 13 {
            assert(text[at] == digits[at - 1]);
        } else if 13 < at < 18 {
            assert(text[at] == digits[at - 2]);
        } else if 18 < at < 23 {
            assert(text[at] == digits[at - 3]);
        } else if 23 < at {
            assert(text[at] == digits[at - 4]);
        } else {
            assert(text[at] == '-');
        }
    }
}

/// The text of an identifier has 36 characters.
pub proof fn uuid_text_len(id: Uuid)
    ensures
        id.text().len() == 36,
{
    lemma_hex_len(id.bits as int, 32);
    reveal_strlit("-");
}

/// Different identifiers print differently.
pub proof fn uuid_texts_differ(a: Uuid, b: Uuid)
    requires
        a.text() == b.text(),
    ensures
        a == b,
{
    let x = hex(a.bits as int, 32);
    let y = hex(b.bits as int, 32);
    lemma_hex_len(a.bits as int, 32);
    lemma_hex_len(b.bits as int, 32);
    reveal_strlit("-");
    assert(x =~= y) by {
        assert forall|i: int| 0 <= i < 32 implies x[i] == y[i] by {
            let at = if i < 8 {
                i
            } else if i < 12 {
                i + 1
            } else if i < 16 {
                i + 2
            } else if i < 20 {
                i + 3
            } else {
                i + 4
            };
            assert(a.text()[at] == x[i]);
            assert(b.text()[at] == y[i]);
        }
    }
    lemma_pow16();
    lemma_hex_injective(a.bits as int, b.bits as int, 32);
}

} // verus!
