//! Network identities and their textual (hex) representation.
use vstd::prelude::*;

verus! {

/// Number of bytes in an identity (and in a message id).
pub const ID_LEN: usize = 16;

/// A user or message identity: a fixed-size byte string.
#[derive(Clone, Copy, Debug, PartialEq, Eq)]
pub struct Identity {
    pub bytes: [u8; 16],
}

impl View for Identity {
    type V = Seq<u8>;

    open spec fn view(&self) -> Seq<u8> {
        self.bytes@
    }
}

impl Identity {
    /// An identity from its bytes; `None` unless there are exactly `ID_LEN` of them.
    pub fn from_bytes(bytes: &[u8]) -> (r: Option<Identity>)
        ensures
            r is Some <==> bytes@.len() == ID_LEN,
            r matches Some(id) ==> id@ == bytes@,
    {
        if bytes.len() != ID_LEN {
            return None;
        }
        let mut a: [u8; 16] = [0u8; 16];
        let mut i: usize = 0;
        while i < ID_LEN
            invariant
                i <= ID_LEN,
                bytes@.len() == ID_LEN,
                forall|k: int| 0 <= k < i ==> a@[k] == bytes@[k],
            decreases ID_LEN - i,
        {
            a[i] = bytes[i];
            i = i + 1;
        }
        assert(a@ =~= bytes@);
        Some(Identity { bytes: a })
    }

    /// The bytes of the identity.
    pub fn as_bytes(&self) -> (b: &[u8])
        ensures
            b@ == self@,
    {
        self.bytes.as_slice()
    }
}

/// Message ids share the representation of identities.
pub type MsgId = Identity;

/// The lowercase hex digit for a nibble.
pub open spec fn hex_digit(n: u8) -> char {
    if n < 10 {
        (n + 48) as char
    } else {
        (n + 87) as char
    }
}

/// The value of a hex digit (either case), if the character is one.
pub open spec fn hex_value(c: char) -> Option<u8> {
    if '0' <= c && c <= '9' {
        Some((c as u32 - 48) as u8)
    } else if 'a' <= c && c <= 'f' {
        Some((c as u32 - 87) as u8)
    } else if 'A' <= c && c <= 'F' {
        Some((c as u32 - 55) as u8)
    } else {
        None
    }
}

/// Lowercase hex encoding: two digits per byte, high nibble first.
pub open spec fn hex_encode(b: Seq<u8>) -> Seq<char> {
    Seq::new(
        2 * b.len(),
        |i: int|
            if i % 2 == 0 {
                hex_digit(b[i / 2] / 16)
            } else {
                hex_digit(b[i / 2] % 16)
            },
    )
}

/// Whether every character of `s` is a hex digit and there is an even number of them.
pub open spec fn is_hex(s: Seq<char>) -> bool {
    &&& s.len() % 2 == 0
    &&& forall|i: int| 0 <= i < s.len() ==> (#[trigger] hex_value(s[i])) is Some
}

/// Hex decoding of a whole string; `None` where the string is not hex.
pub open spec fn hex_decode(s: Seq<char>) -> Option<Seq<u8>> {
    if is_hex(s) {
        Some(
            Seq::new(
                s.len() / 2,
                |j: int|
                    (hex_value(s[2 * j])->0 * 16 + hex_value(s[2 * j + 1])->0) as u8,
            ),
        )
    } else {
        None
    }
}

/// The textual form of an identity.
pub open spec fn identity_text(id: Seq<u8>) -> Seq<char> {
    hex_encode(id)
}

/// The identity that a text denotes, if any: a hex string of exactly `ID_LEN` bytes.
pub open spec fn parse_identity(s: Seq<char>) -> Option<Seq<u8>> {
    match hex_decode(s) {
        Some(b) => if b.len() == ID_LEN {
            Some(b)
        } else {
            None
        },
        None => None,
    }
}

/// Decoding gives back what encoding wrote.
pub proof fn lemma_hex_roundtrip(b: Seq<u8>)
    ensures
        hex_decode(hex_encode(b)) == Some(b),
{
    let s = hex_encode(b);
    assert forall|i: int| 0 <= i < s.len() implies (#[trigger] hex_value(s[i])) is Some by {
        let n: u8 = if i % 2 == 0 { b[i / 2] / 16 } else { b[i / 2] % 16 };
        assert(s[i] == hex_digit(n));
        assert(hex_value(hex_digit(n)) == Some(n));
    }
    let d = hex_decode(s)->0;
    assert forall|j: int| 0 <= j < b.len() implies d[j] == b[j] by {
        let hi = b[j] / 16;
        let lo = b[j] % 16;
        assert(s[2 * j] == hex_digit(hi));
        assert(s[2 * j + 1] == hex_digit(lo));
        assert(hex_value(hex_digit(hi)) == Some(hi));
        assert(hex_value(hex_digit(lo)) == Some(lo));
    }
    assert(d =~= b);
}

/// An identity's text reads back as that identity.
pub proof fn lemma_identity_text_roundtrip(id: Seq<u8>)
    requires
        id.len() == ID_LEN,
    ensures
        parse_identity(identity_text(id)) == Some(id),
{
    lemma_hex_roundtrip(id);
}

/// The sixteen lowercase hex digits, in order of value.
proof fn lemma_lower_digits()
    ensures
        "0123456789abcdef"@.len() == 16,
        forall|n: int| 0 <= n < 10 ==> #[trigger] "0123456789abcdef"@[n] == (n + 48) as char,
        forall|n: int| 10 <= n < 16 ==> #[trigger] "0123456789abcdef"@[n] == (n + 87) as char,
{
    reveal_strlit("0123456789abcdef");
    let d = "0123456789abcdef"@;
    assert(d[0] == '0' && d[1] == '1' && d[2] == '2' && d[3] == '3' && d[4] == '4');
    assert(d[5] == '5' && d[6] == '6' && d[7] == '7' && d[8] == '8' && d[9] == '9');
    assert(d[10] == 'a' && d[11] == 'b' && d[12] == 'c' && d[13] == 'd' && d[14] == 'e'
        && d[15] == 'f');
    assert forall|n: int| 0 <= n < 10 implies #[trigger] d[n] == (n + 48) as char by {
        if n == 0 {} else if n == 1 {} else if n == 2 {} else if n == 3 {} else if n == 4 {}
        else if n == 5 {} else if n == 6 {} else if n == 7 {} else if n == 8 {} else {}
    }
    assert forall|n: int| 10 <= n < 16 implies #[trigger] d[n] == (n + 87) as char by {
        if n == 10 {} else if n == 11 {} else if n == 12 {} else if n == 13 {} else if n == 14 {}
        else {}
    }
}

/// The text of an identity is, for each of its bytes in order, the lowercase
/// hex digit of the high nibble and then that of the low nibble, the digit of
/// a nibble `n` being `"0123456789abcdef"[n]`; reading any of these digits,
/// or its uppercase form, gives back the nibble.
pub proof fn lemma_identity_text_digits(id: Seq<u8>)
    ensures
        identity_text(id).len() == 2 * id.len(),
        forall|i: int|
            0 <= i < id.len() ==> identity_text(id)[2 * i] == "0123456789abcdef"@[(
            #[trigger] id[i]) as int / 16] && identity_text(id)[2 * i + 1]
                == "0123456789abcdef"@[id[i] as int % 16],
        forall|n: int|
            0 <= n < 16 ==> hex_value(#[trigger] "0123456789abcdef"@[n]) == Some(n as u8),
        forall|n: int|
            0 <= n < 16 ==> hex_value(#[trigger] "0123456789ABCDEF"@[n]) == Some(n as u8),
{
    lemma_lower_digits();
    let d = "0123456789abcdef"@;
    assert forall|i: int| 0 <= i < id.len() implies identity_text(id)[2 * i] == d[(
    #[trigger] id[i]) as int / 16] && identity_text(id)[2 * i + 1] == d[id[i] as int % 16] by {
        let hi = id[i] / 16;
        let lo = id[i] % 16;
        assert(identity_text(id)[2 * i] == hex_digit(hi));
        assert(identity_text(id)[2 * i + 1] == hex_digit(lo));
        if hi < 10 { assert(d[hi as int] == (hi + 48) as char); } else { assert(d[hi as int] == (hi + 87) as char); }
        if lo < 10 { assert(d[lo as int] == (lo + 48) as char); } else { assert(d[lo as int] == (lo + 87) as char); }
    }
    reveal_strlit("0123456789ABCDEF");
    let u = "0123456789ABCDEF"@;
    assert(u[10] == 'A' && u[11] == 'B' && u[12] == 'C' && u[13] == 'D' && u[14] == 'E'
        && u[15] == 'F');
    assert(u[0] == '0' && u[1] == '1' && u[2] == '2' && u[3] == '3' && u[4] == '4');
    assert(u[5] == '5' && u[6] == '6' && u[7] == '7' && u[8] == '8' && u[9] == '9');
    assert forall|n: int| 0 <= n < 16 implies hex_value(#[trigger] d[n]) == Some(n as u8) by {
        if n < 10 { assert(d[n] == (n + 48) as char); } else { assert(d[n] == (n + 87) as char); }
    }
    assert forall|n: int| 0 <= n < 16 implies hex_value(#[trigger] u[n]) == Some(n as u8) by {
        if n == 0 {} else if n == 1 {} else if n == 2 {} else if n == 3 {} else if n == 4 {}
        else if n == 5 {} else if n == 6 {} else if n == 7 {} else if n == 8 {} else if n == 9 {}
        else if n == 10 {} else if n == 11 {} else if n == 12 {} else if n == 13 {}
        else if n == 14 {} else {}
    }
}

/// Appends one character to a string (`String::push`).
#[verifier::external_body]
fn push_char(s: &mut String, c: char)
    ensures
        final(s)@ == old(s)@.push(c),
{
    s.push(c);
}

fn nibble_digit(n: u8) -> (c: char)
    requires
        n < 16,
    ensures
        c == hex_digit(n),
{
    if n < 10 {
        (n + 48) as char
    } else {
        (n + 87) as char
    }
}

fn digit_value(c: char) -> (r: Option<u8>)
    ensures
        r == hex_value(c),
{
    if '0' <= c && c <= '9' {
        Some((c as u32 - 48) as u8)
    } else if 'a' <= c && c <= 'f' {
        Some((c as u32 - 87) as u8)
    } else if 'A' <= c && c <= 'F' {
        Some((c as u32 - 55) as u8)
    } else {
        None
    }
}

/// Writes an identity as lowercase hex.
pub fn from_identity(id: &Identity) -> (s: String)
    ensures
        s@ == identity_text(id@),
{
    let mut s = String::new();
    let mut i: usize = 0;
    while i < ID_LEN
        invariant
            i <= ID_LEN,
            s@ == hex_encode(id.bytes@.take(i as int)),
        decreases ID_LEN - i,
    {
        let b = id.bytes[i];
        push_char(&mut s, nibble_digit(b / 16));
        push_char(&mut s, nibble_digit(b % 16));
        proof {
            assert(id.bytes@.take(i as int + 1).drop_last() =~= id.bytes@.take(i as int));
            assert(hex_encode(id.bytes@.take(i as int + 1)) =~= hex_encode(
                id.bytes@.take(i as int),
            ).push(hex_digit(b / 16)).push(hex_digit(b % 16)));
        }
        i = i + 1;
    }
    assert(id.bytes@.take(ID_LEN as int) =~= id.bytes@);
    s
}

/// Reads an identity from its hex form; `None` unless the text is exactly
/// `2 * ID_LEN` hex digits (either case).
pub fn identity_from_text(text: &str) -> (r: Option<Identity>)
    ensures
        r is Some <==> parse_identity(text@) is Some,
        r matches Some(id) ==> id@ == parse_identity(text@)->0,
{
    let n = text.unicode_len();
    if n != 2 * ID_LEN {
        return None;
    }
    let mut bytes: [u8; 16] = [0u8; 16];
    let mut j: usize = 0;
    while j < ID_LEN
        invariant
            j <= ID_LEN,
            n == text@.len(),
            n == 2 * ID_LEN,
            forall|i: int| 0 <= i < 2 * j ==> (#[trigger] hex_value(text@[i])) is Some,
            forall|k: int|
                0 <= k < j ==> bytes@[k] == (hex_value(text@[2 * k])->0 * 16 + hex_value(
                    text@[2 * k + 1],
                )->0) as u8,
        decreases ID_LEN - j,
    {
        let hi = digit_value(text.get_char(2 * j));
        let lo = digit_value(text.get_char(2 * j + 1));
        match (hi, lo) {
            (Some(h), Some(l)) => {
                bytes[j] = h * 16 + l;
            },
            _ => {
                assert(!is_hex(text@));
                return None;
            },
        }
        j = j + 1;
    }
    let ghost s = text@;
    assert(is_hex(s)) by {
        assert forall|i: int| 0 <= i < s.len() implies (#[trigger] hex_value(s[i])) is Some by {}
    }
    assert(bytes@ =~= hex_decode(s)->0);
    Some(Identity { bytes })
}

} // verus!
