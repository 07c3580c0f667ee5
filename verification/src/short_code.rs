//! Short codes: the base-36 text of a row id, and the random tokens that
//! serve as API keys.

use vstd::prelude::*;
use vstd::string::*;

verus! {

/// The value of `c` as a base-36 digit: `0-9` stand for 0 to 9 and `a-z`
/// for 10 to 35. No other character is a digit.
pub open spec fn digit_value(c: char) -> Option<nat> {
    if '0' <= c && c <= '9' {
        Some((c as int - '0' as int) as nat)
    } else if 'a' <= c && c <= 'z' {
        Some((c as int - 'a' as int + 10) as nat)
    } else {
        None
    }
}

/// The character that stands for the digit `d`, for `d < 36`.
pub open spec fn digit_char(d: nat) -> char {
    if d < 10 {
        ('0' as int + d) as char
    } else {
        ('a' as int + d - 10) as char
    }
}

/// Every character of `s` is a base-36 digit.
pub open spec fn all_digits(s: Seq<char>) -> bool {
    forall|i: int| 0 <= i < s.len() ==> (#[trigger] digit_value(s[i])) is Some
}

/// The number that the digits of `s` spell, most significant digit first.
pub open spec fn digits_value(s: Seq<char>) -> nat
    decreases s.len(),
{
    if s.len() == 0 {
        0
    } else {
        digits_value(s.drop_last()) * 36 + digit_value(s.last()).unwrap()
    }
}

/// The short code of `n`: its digits in base 36, most significant first,
/// without padding. Zero is the single digit `0`.
pub open spec fn encode_spec(n: nat) -> Seq<char>
    decreases n,
{
    if n < 36 {
        seq![digit_char(n)]
    } else {
        encode_spec(n / 36).push(digit_char(n % 36))
    }
}

/// Why a text is not a short code.
#[derive(Clone, Copy, Debug, PartialEq, Eq, Structural)]
pub enum InvalidCode {
    /// The text is empty.
    Empty,
    /// Some character is not one of `0-9`, `a-z`.
    InvalidDigit,
    /// The text has more than one digit and starts with `0`.
    LeadingZero,
    /// The digits spell a number above `usize::MAX`.
    Overflow,
}

/// What a text decodes to: the number its digits spell, or the reason why
/// it is no short code. A number has one short code only, the one without
/// leading zeros: a longer text that starts with `0` is none.
pub open spec fn decode_spec(s: Seq<char>) -> Result<nat, InvalidCode> {
    if s.len() == 0 {
        Err(InvalidCode::Empty)
    } else if !all_digits(s) {
        Err(InvalidCode::InvalidDigit)
    } else if s.len() > 1 && s[0] == '0' {
        Err(InvalidCode::LeadingZero)
    } else if digits_value(s) > usize::MAX {
        Err(InvalidCode::Overflow)
    } else {
        Ok(digits_value(s))
    }
}

/// A text decodes if and only if it is not empty, holds only the
/// characters `0-9` and `a-z`, has no leading zero, and spells a number
/// that fits the row id type. Each other text is rejected for the first
/// of these that it fails.
pub proof fn lemma_decode_rejects(s: Seq<char>)
    ensures
        s.len() == 0 ==> decode_spec(s) == Err::<nat, InvalidCode>(InvalidCode::Empty),
        (exists|i: int|
            0 <= i < s.len() && !(('0' <= s[i] && s[i] <= '9') || ('a' <= s[i] && s[i] <= 'z')))
            ==> decode_spec(s) == Err::<nat, InvalidCode>(InvalidCode::InvalidDigit),
        all_digits(s) && s.len() > 1 && s[0] == '0' ==> decode_spec(s) == Err::<nat, InvalidCode>(
            InvalidCode::LeadingZero,
        ),
        is_canonical(s) && digits_value(s) > usize::MAX ==> decode_spec(s) == Err::<
            nat,
            InvalidCode,
        >(InvalidCode::Overflow),
        decode_spec(s) is Ok <==> s.len() > 0 && (forall|i: int|
            0 <= i < s.len() ==> ('0' <= s[i] && s[i] <= '9') || ('a' <= s[i] && s[i] <= 'z'))
            && (s.len() == 1 || s[0] != '0') && digits_value(s) <= usize::MAX,
{
    if exists|i: int|
        0 <= i < s.len() && !(('0' <= s[i] && s[i] <= '9') || ('a' <= s[i] && s[i] <= 'z')) {
        let i = choose|i: int|
            0 <= i < s.len() && !(('0' <= s[i] && s[i] <= '9') || ('a' <= s[i] && s[i] <= 'z'));
        assert(digit_value(s[i]) is None);
    } else {
        assert forall|i: int| 0 <= i < s.len() implies (#[trigger] digit_value(s[i])) is Some by {
            assert(('0' <= s[i] && s[i] <= '9') || ('a' <= s[i] && s[i] <= 'z'));
        }
    }
    if all_digits(s) {
        assert forall|i: int| 0 <= i < s.len() implies ('0' <= s[i] && s[i] <= '9') || ('a'
            <= s[i] && s[i] <= 'z') by {
            assert(digit_value(s[i]) is Some);
        }
    }
}

/// The form of a short code: digits only, and no leading zero but in the
/// code of zero itself.
pub open spec fn is_canonical(s: Seq<char>) -> bool {
    &&& s.len() > 0
    &&& all_digits(s)
    &&& (s.len() == 1 || s[0] != '0')
}

/// Every short code that `encode_spec` writes is canonical.
pub proof fn lemma_encode_canonical(n: nat)
    ensures
        is_canonical(encode_spec(n)),
        n > 0 ==> encode_spec(n)[0] != '0',
    decreases n,
{
    if n >= 36 {
        lemma_encode_canonical(n / 36);
        let head = encode_spec(n / 36);
        let code = encode_spec(n);
        assert forall|i: int| 0 <= i < code.len() implies (#[trigger] digit_value(code[i])) is Some by {
            if i < head.len() {
                assert(code[i] == head[i]);
                assert(digit_value(head[i]) is Some);
            }
        }
    }
}

/// The digits of the short code of `n` spell `n`.
pub proof fn lemma_encode_value(n: nat)
    ensures
        digits_value(encode_spec(n)) == n,
    decreases n,
{
    if n < 36 {
        assert(encode_spec(n).drop_last() =~= Seq::<char>::empty());
        assert(digits_value(encode_spec(n).drop_last()) == 0);
    } else {
        lemma_encode_value(n / 36);
        assert(encode_spec(n).drop_last() =~= encode_spec(n / 36));
    }
}

/// Decoding the short code of `n` gives `n` back, for every `n` that fits
/// the row id type.
pub proof fn lemma_decode_encode(n: nat)
    requires
        n <= usize::MAX,
    ensures
        decode_spec(encode_spec(n)) == Ok::<nat, InvalidCode>(n),
{
    lemma_encode_canonical(n);
    lemma_encode_value(n);
}

/// Two different numbers never share a short code.
pub proof fn lemma_encode_injective(n: nat, m: nat)
    requires
        n != m,
    ensures
        encode_spec(n) != encode_spec(m),
{
    lemma_encode_value(n);
    lemma_encode_value(m);
}

/// A canonical text whose first digit is not zero spells a positive number.
proof fn lemma_leading_digit(s: Seq<char>)
    requires
        s.len() > 0,
        all_digits(s),
        s[0] != '0',
    ensures
        digits_value(s) > 0,
    decreases s.len(),
{
    if s.len() > 1 {
        let head = s.drop_last();
        assert forall|i: int| 0 <= i < head.len() implies (#[trigger] digit_value(head[i])) is Some by {
            assert(head[i] == s[i]);
            assert(digit_value(s[i]) is Some);
        }
        lemma_leading_digit(head);
    }
}

/// Encoding the number that a canonical text spells gives the text back.
pub proof fn lemma_encode_canonical_value(s: Seq<char>)
    requires
        is_canonical(s),
    ensures
        encode_spec(digits_value(s)) == s,
    decreases s.len(),
{
    let last = s.last();
    let d = digit_value(last).unwrap();
    if s.len() == 1 {
        assert(s.drop_last() =~= Seq::<char>::empty());
        assert(digits_value(s.drop_last()) == 0);
        assert(encode_spec(d) =~= s);
    } else {
        let head = s.drop_last();
        assert forall|i: int| 0 <= i < head.len() implies (#[trigger] digit_value(head[i])) is Some by {
            assert(head[i] == s[i]);
            assert(digit_value(s[i]) is Some);
        }
        lemma_leading_digit(head);
        lemma_encode_canonical_value(head);
        let v = digits_value(head);
        assert((v * 36 + d) / 36 == v && (v * 36 + d) % 36 == d) by (nonlinear_arith)
            requires
                d < 36,
        ;
        assert(encode_spec(digits_value(s)) =~= s);
    }
}

/// Every text that decodes is the short code of the number that it
/// decodes to.
pub proof fn lemma_encode_decode(s: Seq<char>)
    ensures
        decode_spec(s) matches Ok(n) ==> encode_spec(n) == s,
{
    if decode_spec(s) is Ok {
        lemma_encode_canonical_value(s);
    }
}

/// Two different texts never decode to the same number.
pub proof fn lemma_decode_injective(s: Seq<char>, t: Seq<char>)
    requires
        decode_spec(s) is Ok,
        decode_spec(s) == decode_spec(t),
    ensures
        s == t,
{
    lemma_encode_decode(s);
    lemma_encode_decode(t);
}

/// The value of the character `c` as a base-36 digit, if it is one.
fn digit_of(c: char) -> (d: Option<usize>)
    ensures
        match d {
            Some(v) => digit_value(c) == Some(v as nat) && v < 36,
            None => digit_value(c) is None,
        },
{
    if '0' <= c && c <= '9' {
        Some((c as u32 - '0' as u32) as usize)
    } else if 'a' <= c && c <= 'z' {
        Some((c as u32 - 'a' as u32) as usize + 10)
    } else {
        None
    }
}

/// Decodes a short code: reads `code` as an unsigned number in base 36.
///
/// Only the digits `0-9` and `a-z` are accepted: there is no sign, no
/// upper case, no white space and no leading zero. So the text that
/// decodes to a number is its short code, and no other text is. A text
/// with a character that is no digit is rejected for that, whatever else
/// is wrong with it.
pub fn decode(code: &str) -> (r: Result<usize, InvalidCode>)
    ensures
        match r {
            Ok(n) => decode_spec(code@) == Ok::<nat, InvalidCode>(n as nat) && code@
                == encode_spec(n as nat),
            Err(e) => decode_spec(code@) == Err::<nat, InvalidCode>(e),
        },
{
    if code.is_empty() {
        return Err(InvalidCode::Empty);
    }
    let mut n: usize = 0;
    let mut overflow = false;
    let mut started = false;
    let mut leading_zero = false;
    let mut long = false;
    for c in it: code.chars()
        invariant
            it.seq() == code@,
            forall|j: int| 0 <= j < it.index() ==> (#[trigger] digit_value(code@[j])) is Some,
            !overflow ==> n == digits_value(code@.take(it.index() as int)),
            overflow ==> digits_value(code@.take(it.index() as int)) > usize::MAX,
            started <==> it.index() > 0,
            long <==> it.index() > 1,
            started ==> (leading_zero <==> code@[0] == '0'),
    {
        proof {
            let read = code@.take(it.index() as int);
            assert(code@.take(it.index() + 1).drop_last() =~= read);
            assert(digits_value(read) <= digits_value(read) * 36) by (nonlinear_arith);
        }
        let d = match digit_of(c) {
            Some(d) => d,
            None => {
                return Err(InvalidCode::InvalidDigit);
            },
        };
        if started {
            long = true;
        } else {
            started = true;
            leading_zero = c == '0';
        }
        if !overflow {
            let next = match n.checked_mul(36) {
                Some(m) => m.checked_add(d),
                None => None,
            };
            match next {
                Some(m) => {
                    n = m;
                },
                None => {
                    overflow = true;
                },
            }
        }
    }
    assert(code@.take(code@.len() as int) =~= code@);
    if long && leading_zero {
        Err(InvalidCode::LeadingZero)
    } else if overflow {
        Err(InvalidCode::Overflow)
    } else {
        proof {
            lemma_encode_decode(code@);
        }
        Ok(n)
    }
}

/// Writes `n` in base 36.
///
/// Trusted: the body formats `radix_fmt::radix_36(n)` with `{}`. That
/// prints the digits of `n` in base 36, most significant first, with
/// `0-9` and lower case `a-z`, no padding and no sign, and `0` for zero.
#[verifier::external_body]
fn radix_36_text(n: usize) -> (text: String)
    ensures
        text@ == encode_spec(n as nat),
{
    format!("{}", radix_fmt::radix_36(n))
}

/// Encodes a row id as its short code.
pub fn encode(n: usize) -> (code: String)
    ensures
        code@ == encode_spec(n as nat),
        decode_spec(code@) == Ok::<nat, InvalidCode>(n as nat),
{
    proof {
        lemma_decode_encode(n as nat);
    }
    radix_36_text(n)
}

/// A short code together with the row id that it stands for.
pub struct ShortCode {
    pub code: String,
    pub n: usize,
}

impl ShortCode {
    /// The code is the short code of the row id, and decodes to it.
    pub open spec fn wf(&self) -> bool {
        &&& self.code@ == encode_spec(self.n as nat)
        &&& decode_spec(self.code@) == Ok::<nat, InvalidCode>(self.n as nat)
    }

    /// The short code of the row id `n`.
    pub fn new(n: usize) -> (sc: ShortCode)
        ensures
            sc.n == n,
            sc.code@ == encode_spec(n as nat),
            sc.wf(),
    {
        let code = encode(n);
        ShortCode { code, n }
    }

    /// Reads a short code.
    pub fn from_code(code: &str) -> (r: Result<ShortCode, InvalidCode>)
        ensures
            match r {
                Ok(sc) => sc.code@ == code@ && sc.code@ == encode_spec(sc.n as nat) && sc.wf(),
                Err(e) => decode_spec(code@) == Err::<nat, InvalidCode>(e),
            },
    {
        match decode(code) {
            Ok(n) => {
                let code = code.to_owned();
                Ok(ShortCode { code, n })
            },
            Err(e) => Err(e),
        }
    }
}

/// A lower case hexadecimal digit.
pub open spec fn is_hex_lower(c: char) -> bool {
    ('0' <= c && c <= '9') || ('a' <= c && c <= 'f')
}

/// The text of a random (version 4) UUID in its hyphenated lower case
/// form: 36 characters in groups of 8, 4, 4, 4 and 12 hexadecimal digits
/// with a hyphen between them, where the third group starts with the
/// version digit `4` and the fourth with the variant digit `8`, `9`, `a`
/// or `b`.
pub open spec fn is_random_uuid_text(s: Seq<char>) -> bool {
    &&& s.len() == 36
    &&& forall|i: int|
        #![trigger s[i]]
        0 <= i < 36 ==> if i == 8 || i == 13 || i == 18 || i == 23 {
            s[i] == '-'
        } else {
            is_hex_lower(s[i])
        }
    &&& s[14] == '4'
    &&& (s[19] == '8' || s[19] == '9' || s[19] == 'a' || s[19] == 'b')
}

/// Creates a new random UUID and encodes it as lower case hyphenated
/// string.
///
/// Trusted: the body calls `uuid::Uuid::new_v4`, which draws 16 bytes from
/// the operating system's random source and sets the version and variant
/// bits, and `Hyphenated::encode_lower` on a buffer of
/// `Uuid::encode_buffer`. Which token comes back is not determined; the
/// contract states its form only. `new_v4` panics if the operating system
/// has no random bytes to give.
#[verifier::external_body]
pub fn random_uuid() -> (token: String)
    ensures
        is_random_uuid_text(token@),
{
    let uuid = uuid::Uuid::new_v4();
    uuid.to_hyphenated().encode_lower(&mut uuid::Uuid::encode_buffer()).to_owned()
}

} // verus!
