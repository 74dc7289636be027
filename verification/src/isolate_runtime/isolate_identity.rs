use vstd::prelude::*;
use vstd::arithmetic::div_mod::lemma_div_denominator;
use vstd::arithmetic::div_mod::lemma_fundamental_div_mod;
use vstd::string::StrSliceExecFns;
use vstd::string::StringExecFns;
use crate::isolate_runtime::isolate_runtime_error::IsolateRuntimeError;

verus! {

/// Opaque unique token addressing one spawned worker.
///
/// The token is a 128-bit value drawn from the `uuid` crate's version-4
/// generator; equality and hashing are structural over those bits. Its text
/// form is the usual hyphenated rendering of such tokens: thirty-two
/// lowercase hexadecimal digits, most significant first, in groups of
/// 8-4-4-4-12.
#[derive(Clone, Copy, PartialEq, Eq, Hash, Debug, Structural)]
pub struct IsolateIdentity {
    bits: u128,
}

// ---------------------------------------------------------------------------
// The mathematical model of the text form.
// ---------------------------------------------------------------------------
/// 16 to the power `n`.
pub open spec fn pow16(n: nat) -> nat
    decreases n,
{
    if n == 0 {
        1
    } else {
        16 * pow16((n - 1) as nat)
    }
}

/// The low `n` hexadecimal digits of `b`, most significant first.
pub open spec fn nibbles_of(b: nat, n: nat) -> Seq<u8>
    decreases n,
{
    if n == 0 {
        Seq::empty()
    } else {
        nibbles_of(b / 16, (n - 1) as nat).push((b % 16) as u8)
    }
}

/// The value of a sequence of hexadecimal digits, most significant first.
pub open spec fn nibble_val(s: Seq<u8>) -> nat
    decreases s.len(),
{
    if s.len() == 0 {
        0
    } else {
        nibble_val(s.drop_last()) * 16 + s.last() as nat
    }
}

/// The lowercase hexadecimal character of a digit below sixteen.
pub open spec fn hex_char_of(n: u8) -> char {
    if n == 0 {
        '0'
    } else if n == 1 {
        '1'
    } else if n == 2 {
        '2'
    } else if n == 3 {
        '3'
    } else if n == 4 {
        '4'
    } else if n == 5 {
        '5'
    } else if n == 6 {
        '6'
    } else if n == 7 {
        '7'
    } else if n == 8 {
        '8'
    } else if n == 9 {
        '9'
    } else if n == 10 {
        'a'
    } else if n == 11 {
        'b'
    } else if n == 12 {
        'c'
    } else if n == 13 {
        'd'
    } else if n == 14 {
        'e'
    } else {
        'f'
    }
}

/// The digit of a hexadecimal character, either case; 255 marks a character
/// that is no hexadecimal digit.
pub open spec fn hex_digit_of(c: char) -> u8 {
    if c == '0' {
        0
    } else if c == '1' {
        1
    } else if c == '2' {
        2
    } else if c == '3' {
        3
    } else if c == '4' {
        4
    } else if c == '5' {
        5
    } else if c == '6' {
        6
    } else if c == '7' {
        7
    } else if c == '8' {
        8
    } else if c == '9' {
        9
    } else if c == 'a' || c == 'A' {
        10
    } else if c == 'b' || c == 'B' {
        11
    } else if c == 'c' || c == 'C' {
        12
    } else if c == 'd' || c == 'D' {
        13
    } else if c == 'e' || c == 'E' {
        14
    } else if c == 'f' || c == 'F' {
        15
    } else {
        255
    }
}

/// The positions of the four hyphens in the 36-character text form.
pub open spec fn is_hyphen_pos(i: int) -> bool {
    i == 8 || i == 13 || i == 18 || i == 23
}

/// How many digit slots lie before position `i` of the text form.
pub open spec fn slot_count(i: int) -> int {
    if i <= 8 {
        i
    } else if i <= 13 {
        i - 1
    } else if i <= 18 {
        i - 2
    } else if i <= 23 {
        i - 3
    } else {
        i - 4
    }
}

/// The position in the text form that carries digit slot `j`.
pub open spec fn char_pos(j: int) -> int {
    if j < 8 {
        j
    } else if j < 12 {
        j + 1
    } else if j < 16 {
        j + 2
    } else if j < 20 {
        j + 3
    } else {
        j + 4
    }
}

/// Character `i` of the text form of `b`.
pub open spec fn identity_char_at(b: u128, i: int) -> char {
    if is_hyphen_pos(i) {
        '-'
    } else {
        hex_char_of(nibbles_of(b as nat, 32)[slot_count(i)])
    }
}

/// The text form of the 128-bit value `b`: thirty-two lowercase hexadecimal
/// digits, most significant first, hyphenated in groups of 8-4-4-4-12.
pub open spec fn spec_identity_chars(b: u128) -> Seq<char> {
    Seq::new(36, |i: int| identity_char_at(b, i))
}

/// Whether `s` has the shape of a text form: 36 characters, hyphens exactly
/// at their four positions, hexadecimal digits (either case) elsewhere.
pub open spec fn wellformed_identity_chars(s: Seq<char>) -> bool {
    &&& s.len() == 36
    &&& forall|i: int| 0 <= i < 36 && is_hyphen_pos(i) ==> s[i] == '-'
    &&& forall|i: int| 0 <= i < 36 && !is_hyphen_pos(i) ==> hex_digit_of(s[i]) < 16
}

/// The thirty-two digits of a well-shaped text form, most significant first.
pub open spec fn parsed_nibbles(s: Seq<char>) -> Seq<u8> {
    Seq::new(32, |j: int| hex_digit_of(s[char_pos(j)]))
}

/// What parsing a text form yields: the 128-bit value of its digits if it is
/// well-shaped, nothing otherwise.
pub open spec fn spec_parse_identity(s: Seq<char>) -> Option<u128> {
    if wellformed_identity_chars(s) {
        Some(nibble_val(parsed_nibbles(s)) as u128)
    } else {
        None
    }
}

// ---------------------------------------------------------------------------
// Facts about the model.
// ---------------------------------------------------------------------------
/// `pow16` is positive.
proof fn lemma_pow16_pos(n: nat)
    ensures
        1 <= pow16(n),
    decreases n,
{
    if n > 0 {
        lemma_pow16_pos((n - 1) as nat);
    }
}

/// `pow16` is positive and weakly increasing.
proof fn lemma_pow16_ordered(a: nat, b: nat)
    requires
        a <= b,
    ensures
        1 <= pow16(a) <= pow16(b),
    decreases b,
{
    lemma_pow16_pos(a);
    if a < b {
        lemma_pow16_ordered(a, (b - 1) as nat);
    }
}

/// Sixteen to the thirty-second is exactly one more than the largest
/// 128-bit value.
proof fn lemma_pow16_32()
    ensures
        pow16(32) == 0x100000000000000000000000000000000,
{
    reveal_with_fuel(pow16, 33);
}

/// Each of the `n` digits of `b` is below sixteen and is the matching
/// hexadecimal digit of `b`'s value.
proof fn lemma_nibbles_of_props(b: nat, n: nat)
    ensures
        nibbles_of(b, n).len() == n,
        forall|j: int|
            0 <= j < n ==> nibbles_of(b, n)[j] < 16 && nibbles_of(b, n)[j] as nat == (b / pow16(
                (n - 1 - j) as nat,
            )) % 16,
    decreases n,
{
    if n > 0 {
        let tail = nibbles_of(b / 16, (n - 1) as nat);
        lemma_nibbles_of_props(b / 16, (n - 1) as nat);
        assert forall|j: int| 0 <= j < n implies nibbles_of(b, n)[j] < 16 && nibbles_of(b, n)[j]
            as nat == (b / pow16((n - 1 - j) as nat)) % 16 by {
            if j < n - 1 {
                assert(nibbles_of(b, n)[j] == tail[j]);
                let m = (n - 2 - j) as nat;
                lemma_pow16_ordered(0, m);
                lemma_div_denominator(b as int, 16, pow16(m) as int);
                assert(16 * pow16(m) == pow16((m + 1) as nat));
                assert((b / 16) / pow16(m) == b / pow16((n - 1 - j) as nat));
            } else {
                assert(nibbles_of(b, n)[j] == (b % 16) as u8);
                assert(pow16(0) == 1);
                assert(b / 1 == b);
            }
        }
    }
}

/// Reading the `n` digits of a value below `pow16(n)` back together yields
/// the value again.
proof fn lemma_nibble_val_round(b: nat, n: nat)
    requires
        b < pow16(n),
    ensures
        nibble_val(nibbles_of(b, n)) == b,
    decreases n,
{
    if n == 0 {
        assert(nibbles_of(b, n) =~= Seq::<u8>::empty());
    } else {
        let s = nibbles_of(b, n);
        let tail = nibbles_of(b / 16, (n - 1) as nat);
        assert(s.drop_last() =~= tail);
        lemma_fundamental_div_mod(b as int, 16);
        assert(16 * (b / 16) <= b);
        assert(b / 16 < pow16((n - 1) as nat));
        lemma_nibble_val_round(b / 16, (n - 1) as nat);
        assert(nibble_val(s) == nibble_val(tail) * 16 + (b % 16));
    }
}

/// Reading a digit's character back gives the digit.
proof fn lemma_hex_digit_of_hex_char(n: u8)
    requires
        n < 16,
    ensures
        hex_digit_of(hex_char_of(n)) == n,
{
}

/// The value carried by any sequence of digits below sixteen stays below
/// `pow16` of its length.
proof fn lemma_nibble_val_bound(s: Seq<u8>)
    requires
        forall|j: int| 0 <= j < s.len() ==> s[j] < 16,
    ensures
        nibble_val(s) < pow16(s.len()),
    decreases s.len(),
{
    if s.len() > 0 {
        lemma_nibble_val_bound(s.drop_last());
    }
}

/// The law of the identity text form: parsing the text form of any 128-bit
/// value yields exactly that value back.
pub proof fn lemma_identity_text_round_trip(b: u128)
    ensures
        spec_parse_identity(spec_identity_chars(b)) == Some(b),
{
    let s = spec_identity_chars(b);
    let nibs = nibbles_of(b as nat, 32);
    lemma_nibbles_of_props(b as nat, 32);
    assert forall|i: int| 0 <= i < 36 && !is_hyphen_pos(i) implies hex_digit_of(s[i]) < 16 by {
        lemma_hex_digit_of_hex_char(nibs[slot_count(i)]);
    }
    assert(wellformed_identity_chars(s));
    assert forall|j: int| 0 <= j < 32 implies parsed_nibbles(s)[j] == nibs[j] by {
        let i = char_pos(j);
        assert(!is_hyphen_pos(i));
        assert(slot_count(i) == j);
        assert(s[i] == hex_char_of(nibs[j]));
        lemma_hex_digit_of_hex_char(nibs[j]);
    }
    assert(parsed_nibbles(s) =~= nibs);
    lemma_pow16_32();
    lemma_nibble_val_round(b as nat, 32);
}

/// Whether `c` is a hexadecimal digit in its canonical (lowercase) form.
pub open spec fn is_lower_hex_char(c: char) -> bool {
    hex_digit_of(c) < 16 && !(c == 'A' || c == 'B' || c == 'C' || c == 'D' || c == 'E' || c == 'F')
}

/// Rendering a canonical digit's value gives the digit back.
proof fn lemma_hex_char_of_hex_digit(c: char)
    requires
        is_lower_hex_char(c),
    ensures
        hex_char_of(hex_digit_of(c)) == c,
{
}

/// Splitting a value into digits inverts reading digits together.
proof fn lemma_nibbles_of_nibble_val(p: Seq<u8>)
    requires
        forall|j: int| 0 <= j < p.len() ==> p[j] < 16,
    ensures
        nibbles_of(nibble_val(p), p.len()) == p,
    decreases p.len(),
{
    if p.len() == 0 {
        assert(nibbles_of(0, 0) =~= p);
    } else {
        let front = p.drop_last();
        let a = nibble_val(front);
        let b = p.last();
        let v = nibble_val(p);
        vstd::arithmetic::div_mod::lemma_fundamental_div_mod_converse(
            v as int,
            16,
            a as int,
            b as int,
        );
        lemma_nibbles_of_nibble_val(front);
        assert(nibbles_of(v, p.len()) =~= p);
    }
}

/// The second law of the identity text form: on a canonical text — well
/// shaped, with every digit lowercase — parsing and then printing yields the
/// very same text, so the codec is inverse in both directions there.
pub proof fn lemma_identity_text_canonical(s: Seq<char>)
    requires
        wellformed_identity_chars(s),
        forall|i: int| 0 <= i < 36 && !is_hyphen_pos(i) ==> is_lower_hex_char(s[i]),
    ensures
        spec_parse_identity(s) matches Some(b) && spec_identity_chars(b) == s,
{
    let p = parsed_nibbles(s);
    assert forall|j: int| 0 <= j < p.len() implies p[j] < 16 by {
        assert(!is_hyphen_pos(char_pos(j)));
    }
    lemma_nibble_val_bound(p);
    lemma_pow16_32();
    let b = (nibble_val(p) as u128);
    lemma_nibbles_of_nibble_val(p);
    assert forall|i: int| 0 <= i < 36 implies spec_identity_chars(b)[i] == s[i] by {
        if !is_hyphen_pos(i) {
            let j = slot_count(i);
            assert(char_pos(j) == i);
            assert(nibbles_of(b as nat, 32)[j] == p[j]);
            lemma_hex_char_of_hex_digit(s[i]);
        }
    }
    assert(spec_identity_chars(b) =~= s);
}

/// The text form is injective: identities with the same text are the same.
pub proof fn lemma_identity_text_injective(a: u128, b: u128)
    requires
        spec_identity_chars(a) == spec_identity_chars(b),
    ensures
        a == b,
{
    lemma_identity_text_round_trip(a);
    lemma_identity_text_round_trip(b);
}

/// An identity is nothing but its 128-bit value: equal bits, equal
/// identities. With the round-trip law this closes the circle for a caller:
/// an identity parsed back from another's text form is that identity.
pub proof fn lemma_identity_eq_bits(a: IsolateIdentity, b: IsolateIdentity)
    requires
        a.spec_bits() == b.spec_bits(),
    ensures
        a == b,
{
}

// ---------------------------------------------------------------------------
// The executable codec.
// ---------------------------------------------------------------------------
/// The digit of a hexadecimal character, either case; 255 for any other
/// character.
fn hex_digit_exec(c: char) -> (r: u8)
    ensures
        r == hex_digit_of(c),
{
    if c == '0' {
        0
    } else if c == '1' {
        1
    } else if c == '2' {
        2
    } else if c == '3' {
        3
    } else if c == '4' {
        4
    } else if c == '5' {
        5
    } else if c == '6' {
        6
    } else if c == '7' {
        7
    } else if c == '8' {
        8
    } else if c == '9' {
        9
    } else if c == 'a' || c == 'A' {
        10
    } else if c == 'b' || c == 'B' {
        11
    } else if c == 'c' || c == 'C' {
        12
    } else if c == 'd' || c == 'D' {
        13
    } else if c == 'e' || c == 'E' {
        14
    } else if c == 'f' || c == 'F' {
        15
    } else {
        255
    }
}

/// Append the character of one digit below sixteen.
fn append_hex_char(s: &mut String, nib: u8)
    requires
        nib < 16,
    ensures
        final(s)@ == old(s)@.push(hex_char_of(nib)),
{
    if nib == 0 {
        s.append("0");
        proof {
            reveal_strlit("0");
            assert(s@ =~= old(s)@.push('0'));
        }
    } else if nib == 1 {
        s.append("1");
        proof {
            reveal_strlit("1");
            assert(s@ =~= old(s)@.push('1'));
        }
    } else if nib == 2 {
        s.append("2");
        proof {
            reveal_strlit("2");
            assert(s@ =~= old(s)@.push('2'));
        }
    } else if nib == 3 {
        s.append("3");
        proof {
            reveal_strlit("3");
            assert(s@ =~= old(s)@.push('3'));
        }
    } else if nib == 4 {
        s.append("4");
        proof {
            reveal_strlit("4");
            assert(s@ =~= old(s)@.push('4'));
        }
    } else if nib == 5 {
        s.append("5");
        proof {
            reveal_strlit("5");
            assert(s@ =~= old(s)@.push('5'));
        }
    } else if nib == 6 {
        s.append("6");
        proof {
            reveal_strlit("6");
            assert(s@ =~= old(s)@.push('6'));
        }
    } else if nib == 7 {
        s.append("7");
        proof {
            reveal_strlit("7");
            assert(s@ =~= old(s)@.push('7'));
        }
    } else if nib == 8 {
        s.append("8");
        proof {
            reveal_strlit("8");
            assert(s@ =~= old(s)@.push('8'));
        }
    } else if nib == 9 {
        s.append("9");
        proof {
            reveal_strlit("9");
            assert(s@ =~= old(s)@.push('9'));
        }
    } else if nib == 10 {
        s.append("a");
        proof {
            reveal_strlit("a");
            assert(s@ =~= old(s)@.push('a'));
        }
    } else if nib == 11 {
        s.append("b");
        proof {
            reveal_strlit("b");
            assert(s@ =~= old(s)@.push('b'));
        }
    } else if nib == 12 {
        s.append("c");
        proof {
            reveal_strlit("c");
            assert(s@ =~= old(s)@.push('c'));
        }
    } else if nib == 13 {
        s.append("d");
        proof {
            reveal_strlit("d");
            assert(s@ =~= old(s)@.push('d'));
        }
    } else if nib == 14 {
        s.append("e");
        proof {
            reveal_strlit("e");
            assert(s@ =~= old(s)@.push('e'));
        }
    } else {
        s.append("f");
        proof {
            reveal_strlit("f");
            assert(s@ =~= old(s)@.push('f'));
        }
    }
}

impl IsolateIdentity {
    /// The raw 128-bit value of this identity.
    pub closed spec fn spec_bits(self) -> u128 {
        self.bits
    }

    /// Generate a fresh identity.
    ///
    /// Distinctness of two generated identities is probabilistic (the
    /// generator is random), so nothing is promised about the value.
    pub fn new() -> IsolateIdentity {
        IsolateIdentity { bits: fresh_identity_bits() }
    }

    /// The text form of this identity: its thirty-two hexadecimal digits,
    /// most significant first, hyphenated in groups of 8-4-4-4-12.
    pub fn to_string(&self) -> (r: String)
        ensures
            r@ == spec_identity_chars(self.spec_bits()),
    {
        let ghost all = nibbles_of(self.bits as nat, 32);
        proof {
            lemma_nibbles_of_props(self.bits as nat, 32);
            vstd::arithmetic::div_mod::lemma_div_basics(self.bits as int);
        }

        // The digits of the value, least significant first.
        let mut nibs: Vec<u8> = Vec::new();
        let mut rem: u128 = self.bits;
        let mut k: usize = 0;
        while k < 32
            invariant
                k <= 32,
                nibs@.len() == k,
                rem as nat == (self.bits as nat) / pow16(k as nat),
                forall|j: int|
                    0 <= j < k ==> nibs@[j] < 16 && nibs@[j] as nat == ((self.bits as nat) / pow16(
                        j as nat,
                    )) % 16,
            decreases 32 - k,
        {
            proof {
                lemma_pow16_ordered(0, k as nat);
                lemma_div_denominator(self.bits as int, pow16(k as nat) as int, 16);
                assert(pow16(k as nat) * 16 == pow16((k + 1) as nat));
            }
            nibs.push((rem % 16) as u8);
            rem = rem / 16;
            k = k + 1;
        }

        let mut s = String::new();
        proof {
            assert(s@ =~= spec_identity_chars(self.bits).take(0));
        }
        let mut i: usize = 0;
        while i < 36
            invariant
                i <= 36,
                all == nibbles_of(self.bits as nat, 32),
                nibs@.len() == 32,
                forall|j: int|
                    0 <= j < 32 ==> nibs@[j] < 16 && nibs@[j] as nat == ((self.bits as nat)
                        / pow16(j as nat)) % 16,
                s@ == spec_identity_chars(self.bits).take(i as int),
            decreases 36 - i,
        {
            let ghost prefix = s@;
            if i == 8 || i == 13 || i == 18 || i == 23 {
                s.append("-");
                proof {
                    reveal_strlit("-");
                    assert(s@ =~= prefix.push('-'));
                }
            } else {
                let j = if i < 8 {
                    i
                } else if i < 13 {
                    i - 1
                } else if i < 18 {
                    i - 2
                } else {
                    if i < 23 {
                        i - 3
                    } else {
                        i - 4
                    }
                };
                let nib = nibs[31 - j];
                proof {
                    assert(j == slot_count(i as int));
                    lemma_nibbles_of_props(self.bits as nat, 32);
                    assert(all[j as int] as nat == ((self.bits as nat) / pow16((31 - j) as nat))
                        % 16);
                    assert(nibs@[31 - j] == all[j as int]);
                }
                append_hex_char(&mut s, nib);
                proof {
                    assert(s@ == prefix.push(hex_char_of(all[j as int])));
                    assert(identity_char_at(self.bits, i as int) == hex_char_of(all[j as int]));
                }
            }
            proof {
                assert(s@ =~= spec_identity_chars(self.bits).take(i as int + 1));
            }
            i = i + 1;
        }
        proof {
            assert(s@ =~= spec_identity_chars(self.bits));
        }
        s
    }

    /// Parse a text form back into an identity. Exactly the well-shaped
    /// texts are accepted: 36 characters with hyphens at their four usual
    /// places and hexadecimal digits (either case) everywhere else.
    pub fn try_from(value: &str) -> (r: Result<IsolateIdentity, IsolateRuntimeError>)
        ensures
            match r {
                Ok(id) => spec_parse_identity(value@) == Some(id.spec_bits()),
                Err(e) => spec_parse_identity(value@) is None && e is InvalidIdentity,
            },
    {
        let n = value.unicode_len();
        if n != 36 {
            return Err(IsolateRuntimeError::InvalidIdentity("expected 36 characters".to_owned()));
        }
        let ghost p = parsed_nibbles(value@);
        proof {
            assert(p.take(slot_count(0)) =~= Seq::<u8>::empty());
        }
        let mut acc: u128 = 0;
        let mut i: usize = 0;
        while i < 36
            invariant
                i <= 36,
                value@.len() == 36,
                forall|k: int| 0 <= k < i && is_hyphen_pos(k) ==> value@[k] == '-',
                forall|k: int| 0 <= k < i && !is_hyphen_pos(k) ==> hex_digit_of(value@[k]) < 16,
                acc as nat == nibble_val(p.take(slot_count(i as int))),
                (acc as nat) < pow16(slot_count(i as int) as nat),
                p == parsed_nibbles(value@),
            decreases 36 - i,
        {
            let c = value.get_char(i);
            if i == 8 || i == 13 || i == 18 || i == 23 {
                if c != '-' {
                    proof {
                        assert(!wellformed_identity_chars(value@)) by {
                            if wellformed_identity_chars(value@) {
                                assert(is_hyphen_pos(i as int));
                                assert(value@[i as int] == '-');
                            }
                        }
                    }
                    return Err(
                        IsolateRuntimeError::InvalidIdentity("expected a hyphen".to_owned()),
                    );
                }
                proof {
                    assert(slot_count(i + 1 as int) == slot_count(i as int));
                }
            } else {
                let d = hex_digit_exec(c);
                if d >= 16 {
                    proof {
                        assert(!wellformed_identity_chars(value@)) by {
                            if wellformed_identity_chars(value@) {
                                assert(!is_hyphen_pos(i as int));
                                assert(hex_digit_of(value@[i as int]) < 16);
                            }
                        }
                    }
                    return Err(
                        IsolateRuntimeError::InvalidIdentity(
                            "expected a hexadecimal digit".to_owned(),
                        ),
                    );
                }
                let ghost j = slot_count(i as int);
                proof {
                    assert(char_pos(j) == i as int);
                    assert(p[j] == d);
                    assert(0 <= j < 32);
                    lemma_pow16_ordered((j + 1) as nat, 32);
                    lemma_pow16_32();
                    assert(p.take(j + 1).drop_last() =~= p.take(j));
                    assert(p.take(j + 1).last() == p[j]);
                    assert(nibble_val(p.take(j + 1)) == nibble_val(p.take(j)) * 16 + p[j]);
                    assert(slot_count(i + 1 as int) == j + 1);
                }
                acc = acc * 16 + (d as u128);
            }
            i = i + 1;
        }
        proof {
            assert(wellformed_identity_chars(value@));
            assert(p.take(32) =~= p);
            assert(slot_count(36) == 32);
        }
        Ok(IsolateIdentity { bits: acc })
    }
}

/// Relies on `uuid::Uuid::new_v4`: draws a fresh random 128-bit token.
/// The result depends on entropy, so no clause relates it to anything.
#[verifier::external_body]
fn fresh_identity_bits() -> u128 {
    uuid::Uuid::new_v4().as_u128()
}

} // verus!
