//! Text: how it reaches the wire, and the random tokens that name lease holders.
use vstd::prelude::*;

verus! {

/// The bytes of a text on the wire.
pub open spec fn utf8(text: Seq<char>) -> Seq<u8> {
    vstd::utf8::encode_utf8(text)
}

/// Different texts have different bytes.
pub proof fn lemma_utf8_injective(a: Seq<char>, b: Seq<char>)
    ensures
        utf8(a) == utf8(b) <==> a == b,
{
    vstd::utf8::encode_utf8_decode_utf8(a);
    vstd::utf8::encode_utf8_decode_utf8(b);
}

/// The bytes of a number on the wire: its decimal digits, without leading zeros.
pub open spec fn decimal(n: nat) -> Seq<u8>
    decreases n,
{
    if n < 10 {
        seq![(48 + n) as u8]
    } else {
        decimal(n / 10).push((48 + n % 10) as u8)
    }
}

/// The number that a run of decimal digits spells.
pub open spec fn decimal_value(digits: Seq<u8>) -> nat
    decreases digits.len(),
{
    if digits.len() == 0 {
        0
    } else {
        decimal_value(digits.drop_last()) * 10 + (digits.last() - 48) as nat
    }
}

/// Reading a number's digits gives the number back.
pub proof fn lemma_decimal_value(n: nat)
    ensures
        decimal_value(decimal(n)) == n,
    decreases n,
{
    if n < 10 {
        assert(decimal(n).drop_last() =~= Seq::<u8>::empty());
        assert(decimal_value(decimal(n).drop_last()) == 0);
    } else {
        lemma_decimal_value(n / 10);
        assert(decimal(n).drop_last() =~= decimal(n / 10));
    }
}

/// The text is what the conversion of `value` into a `String` gives.
pub open spec fn converts_to<K: Into<String>>(value: K, text: Seq<char>) -> bool {
    exists|s: String| call_ensures(K::into, (value,), s) && #[trigger] s@ == text
}

/// `String::from` on a `&str`: the same text.
pub assume_specification<'b>[ <String as From<&'b str>>::from ](s: &str) -> (text: String)
    ensures
        text@ == s@,
;

/// `From::from` from a type to itself: the same value.
pub assume_specification<T>[ <T as From<T>>::from ](value: T) -> (same: T)
    ensures
        same == value,
;

/// A hexadecimal digit in lower case.
pub open spec fn is_hex_digit(c: char) -> bool {
    ('0' <= c && c <= '9') || ('a' <= c && c <= 'f')
}

/// The hyphenated lower-case text of a random (version 4) UUID: groups of 8, 4, 4, 4 and 12
/// hexadecimal digits, of which the version digit is `4` and the variant digit is one of
/// `8`, `9`, `a` and `b`.
pub open spec fn is_random_uuid(text: Seq<char>) -> bool {
    &&& text.len() == 36
    &&& forall|i: int|
        0 <= i < 36 ==> if i == 8 || i == 13 || i == 18 || i == 23 {
            #[trigger] text[i] == '-'
        } else {
            is_hex_digit(text[i])
        }
    &&& text[14] == '4'
    &&& (text[19] == '8' || text[19] == '9' || text[19] == 'a' || text[19] == 'b')
}

/// `uuid::Uuid::new_v4`, as text: a random UUID in its hyphenated lower-case form. Which
/// one it is, is left to chance; it panics where the operating system has no randomness to
/// give.
#[verifier::external_body]
pub(crate) fn random_token() -> (token: String)
    ensures
        is_random_uuid(token@),
{
    uuid::Uuid::new_v4().to_string()
}

/// Text goes over the wire in UTF-8.
pub proof fn law_text_is_sent_in_utf8(text: Seq<char>)
    ensures
        utf8(text) == vstd::utf8::encode_utf8(text),
{
}

/// Each further digit makes ten times the number, and the digit.
pub proof fn law_digits_are_decimal(digits: Seq<u8>, digit: u8)
    requires
        48 <= digit <= 57,
    ensures
        decimal_value(Seq::empty()) == 0,
        decimal_value(digits.push(digit)) == decimal_value(digits) * 10 + (digit - 48),
{
    assert(digits.push(digit).drop_last() =~= digits);
}

/// A number is sent as digits that spell it, the first of which is a zero only for zero.
pub proof fn law_numbers_are_sent_in_digits(n: nat)
    ensures
        decimal_value(decimal(n)) == n,
        decimal(n).len() > 0,
        forall|i: int| 0 <= i < decimal(n).len() ==> 48 <= #[trigger] decimal(n)[i] <= 57,
        decimal(n)[0] == 48 ==> n == 0,
    decreases n,
{
    lemma_decimal_value(n);
    if n >= 10 {
        law_numbers_are_sent_in_digits(n / 10);
        assert(decimal(n)[0] == decimal(n / 10)[0]);
        assert forall|i: int| 0 <= i < decimal(n).len() implies 48 <= #[trigger] decimal(n)[i]
            <= 57 by {
            if i < decimal(n / 10).len() {
                assert(decimal(n)[i] == decimal(n / 10)[i]);
            }
        }
    }
}

/// A key that is given as text, borrowed or owned, is that text.
pub proof fn law_text_converts_to_itself(borrowed: &str, owned: String, text: Seq<char>)
    ensures
        converts_to::<&str>(borrowed, text) ==> text == borrowed@,
        converts_to::<String>(owned, text) ==> text == owned@,
{
}

/// A random UUID as text is 32 hexadecimal digits in lower case and four hyphens at
/// their places, with the version and the variant of a random one.
pub proof fn law_token_is_a_random_uuid(token: Seq<char>, i: int)
    requires
        is_random_uuid(token),
        0 <= i < 36,
    ensures
        token.len() == 36,
        token[i] == '-' <==> i == 8 || i == 13 || i == 18 || i == 23,
        token[i] == '-' || ('0' <= token[i] && token[i] <= '9') || ('a' <= token[i]
            && token[i] <= 'f'),
        token[14] == '4',
        token[19] == '8' || token[19] == '9' || token[19] == 'a' || token[19] == 'b',
{
}

} // verus!
