//! Session and stream identity values.

use vstd::prelude::*;

verus! {

/// The 128-bit value that `uuid::Uuid::from_str` yields for a given text
/// (big-endian, as `uuid::Uuid::as_u128` reads it), or `None` where the text
/// is not a well-formed UUID.
pub uninterp spec fn uuid_value_of_text(s: Seq<char>) -> Option<u128>;

/// A 128-bit identity for one publish or subscribe session, stored as the
/// big-endian value of the sixteen UUID bytes.
#[derive(Clone, Copy, Debug, PartialEq, Eq, Hash, Structural)]
pub struct Uuid {
    value: u128,
}

/// Relies on `uuid::Uuid::new_v4`: a random version-4 UUID. Nothing is
/// promised of the value; `as_u128` only converts it.
#[verifier::external_body]
fn fresh_uuid_value() -> u128 {
    uuid::Uuid::new_v4().as_u128()
}

/// Relies on `uuid::Uuid::parse_str`: the accepted texts and their values
/// depend on the input alone, named by `uuid_value_of_text`.
#[verifier::external_body]
fn parse_uuid_text(s: &str) -> (r: Option<u128>)
    ensures
        r == uuid_value_of_text(s@),
{
    uuid::Uuid::parse_str(s).ok().map(|u| u.as_u128())
}

/// Relies on `chrono::Local::now`: the wall clock as milliseconds since the
/// Unix epoch. Nothing is promised of the value.
#[verifier::external_body]
pub(crate) fn now_unix_millis() -> i64 {
    chrono::Local::now().timestamp_millis()
}

/// Relies on `String::push`: appends one character.
#[verifier::external_body]
pub(crate) fn push_char(s: &mut String, c: char)
    ensures
        final(s)@ == old(s)@.push(c),
{
    s.push(c);
}

/// The lower-case hexadecimal digit for a value below sixteen.
pub open spec fn hex_char_of(n: u8) -> char
    recommends
        n < 16,
{
    if n < 10 {
        ((n + 48) as u8) as char
    } else {
        ((n + 87) as u8) as char
    }
}

/// The nibble of `v` at position `i` counted from the most significant,
/// for `i` between 0 and 31.
pub open spec fn uuid_nibble(v: u128, i: int) -> u8 {
    ((v >> (((31 - i) * 4) as u128)) & 0xf) as u8
}

/// How many hyphens of the canonical layout stand before text position `i`.
pub open spec fn hyphens_before(i: int) -> int {
    if i < 8 {
        0
    } else if i < 13 {
        1
    } else if i < 18 {
        2
    } else if i < 23 {
        3
    } else {
        4
    }
}

/// The character at position `i` of the canonical hyphenated text of `v`:
/// eight, four, four, four and twelve lower-case hex digits joined by hyphens.
pub open spec fn uuid_text_char(v: u128, i: int) -> char {
    if i == 8 || i == 13 || i == 18 || i == 23 {
        '-'
    } else {
        hex_char_of(uuid_nibble(v, i - hyphens_before(i)))
    }
}

/// The canonical 36-character hyphenated text of `v`.
pub open spec fn uuid_text(v: u128) -> Seq<char> {
    Seq::new(36, |i: int| uuid_text_char(v, i))
}

impl Uuid {
    /// The identity as its 128-bit value.
    pub closed spec fn spec_value(&self) -> u128 {
        self.value
    }

    /// The all-zero identity used before a real one is known.
    pub closed spec fn spec_nil() -> Uuid {
        Uuid { value: 0 }
    }

    /// A fresh random identity.
    pub fn new() -> Self {
        Uuid { value: fresh_uuid_value() }
    }

    /// The all-zero identity.
    pub fn nil() -> (r: Self)
        ensures
            r == Uuid::spec_nil(),
    {
        Uuid { value: 0 }
    }

    /// Parses a UUID text; `None` where the text is not a well-formed UUID.
    pub fn from_str2(s: &str) -> (r: Option<Self>)
        ensures
            match uuid_value_of_text(s@) {
                Some(v) => r matches Some(u) && u.spec_value() == v,
                None => r is None,
            },
    {
        match parse_uuid_text(s) {
            Some(v) => Some(Uuid { value: v }),
            None => None,
        }
    }

    /// The canonical hyphenated text of this identity, as `uuid::Uuid`
    /// prints it.
    pub fn to_string(&self) -> (r: String)
        ensures
            r@ == uuid_text(self.spec_value()),
    {
        let v: u128 = self.value;
        let mut out = String::new();
        let mut i: usize = 0;
        while i < 36
            invariant
                i <= 36,
                out@ == uuid_text(v).subrange(0, i as int),
            decreases 36 - i,
        {
            let c: char = if i == 8 || i == 13 || i == 18 || i == 23 {
                '-'
            } else {
                let skipped: usize = if i < 8 {
                    0
                } else if i < 13 {
                    1
                } else if i < 18 {
                    2
                } else if i < 23 {
                    3
                } else {
                    4
                };
                let pos: usize = i - skipped;
                let shift: u128 = ((31 - pos) * 4) as u128;
                let nib: u8 = ((v >> shift) & 0xf) as u8;
                proof {
                    assert((v >> shift) & 0xf < 16) by (bit_vector);
                }
                if nib < 10 {
                    (nib + 48) as char
                } else {
                    (nib + 87) as char
                }
            };
            assert(c == uuid_text_char(v, i as int));
            push_char(&mut out, c);
            proof {
                assert(out@ =~= uuid_text(v).subrange(0, i + 1));
            }
            i = i + 1;
        }
        proof {
            assert(out@ =~= uuid_text(v));
        }
        out
    }
}

} // verus!
