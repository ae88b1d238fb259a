use vstd::prelude::*;

use crate::errors::TpgError;

verus! {

broadcast use vstd::seq_lib::lemma_seq_skip_index, vstd::seq_lib::lemma_seq_skip_len,
    vstd::seq_lib::lemma_seq_take_index, vstd::seq_lib::lemma_seq_take_len;

/// One 16-bit PHY register value, with nibble- and byte-indexed extraction.
#[derive(Debug, Clone, Copy, PartialEq, Eq, Structural)]
pub struct Reg(pub u16);

/// A digit-group separator, ignored wherever it stands in a literal.
pub open spec fn is_separator(c: char) -> bool {
    c == '_' || c == '\''
}

/// The literal as the parser sees it: every digit-group separator removed.
pub open spec fn strip_separators(s: Seq<char>) -> Seq<char>
    decreases s.len(),
{
    if s.len() == 0 {
        Seq::empty()
    } else if is_separator(s.last()) {
        strip_separators(s.drop_last())
    } else {
        strip_separators(s.drop_last()).push(s.last())
    }
}

/// The numeric value of one digit character, for radices up to 16; `None`
/// for any character that is no digit.
pub open spec fn spec_digit(c: char) -> Option<u8> {
    match c {
        '0' => Some(0u8),
        '1' => Some(1u8),
        '2' => Some(2u8),
        '3' => Some(3u8),
        '4' => Some(4u8),
        '5' => Some(5u8),
        '6' => Some(6u8),
        '7' => Some(7u8),
        '8' => Some(8u8),
        '9' => Some(9u8),
        'a' | 'A' => Some(10u8),
        'b' | 'B' => Some(11u8),
        'c' | 'C' => Some(12u8),
        'd' | 'D' => Some(13u8),
        'e' | 'E' => Some(14u8),
        'f' | 'F' => Some(15u8),
        _ => None,
    }
}

pub open spec fn is_digit(c: char, radix: u16) -> bool {
    spec_digit(c) matches Some(d) && d < radix
}

/// The radix selected by the prefix of a separator-stripped literal.
pub open spec fn literal_radix(s: Seq<char>) -> u16 {
    if s.len() >= 2 && s[0] == '0' && s[1] == 'x' {
        16
    } else if s.len() >= 2 && s[0] == '0' && s[1] == 'o' {
        8
    } else if s.len() >= 2 && s[0] == '0' && s[1] == 'b' {
        2
    } else {
        10
    }
}

/// The digit characters of a separator-stripped literal: what follows the
/// radix prefix and an optional leading plus sign.
pub open spec fn literal_digits(s: Seq<char>) -> Seq<char> {
    let t = if literal_radix(s) == 10 {
        s
    } else {
        s.skip(2)
    };
    if t.len() > 0 && t[0] == '+' {
        t.skip(1)
    } else {
        t
    }
}

/// A non-empty digit string all of whose characters are digits under `radix`.
pub open spec fn digits_valid(d: Seq<char>, radix: u16) -> bool {
    d.len() > 0 && (forall|i: int| 0 <= i < d.len() ==> is_digit(#[trigger] d[i], radix))
}

pub open spec fn digit_weight(c: char) -> nat {
    match spec_digit(c) {
        Some(d) => d as nat,
        None => 0,
    }
}

/// The base-`radix` value of a digit string.
pub open spec fn digits_value(d: Seq<char>, radix: u16) -> nat
    decreases d.len(),
{
    if d.len() == 0 {
        0
    } else {
        digits_value(d.drop_last(), radix) * (radix as nat) + digit_weight(d.last())
    }
}

/// What a register literal denotes: `None` exactly when parsing fails, that
/// is when, after stripping separators and taking the radix prefix and an
/// optional plus sign off, no digit is left, some character is no digit
/// under the selected radix, or the value does not fit in 16 bits.
pub open spec fn literal_value(s: Seq<char>) -> Option<u16> {
    let t = strip_separators(s);
    let radix = literal_radix(t);
    let d = literal_digits(t);
    if digits_valid(d, radix) && digits_value(d, radix) <= 0xffff {
        Some(digits_value(d, radix) as u16)
    } else {
        None
    }
}

/// The numeric value of one digit character, for radices up to 16.
fn digit_of(c: char) -> (r: Option<u8>)
    ensures
        r == spec_digit(c),
{
    match c {
        '0' => Some(0),
        '1' => Some(1),
        '2' => Some(2),
        '3' => Some(3),
        '4' => Some(4),
        '5' => Some(5),
        '6' => Some(6),
        '7' => Some(7),
        '8' => Some(8),
        '9' => Some(9),
        'a' | 'A' => Some(10),
        'b' | 'B' => Some(11),
        'c' | 'C' => Some(12),
        'd' | 'D' => Some(13),
        'e' | 'E' => Some(14),
        'f' | 'F' => Some(15),
        _ => None,
    }
}

/// The 4-bit field of `v` at nibble index `idx` (0 is least significant).
pub open spec fn nibble_of(v: u16, idx: u8) -> u8
    recommends
        idx <= 3,
{
    ((v >> ((idx * 4) as u16)) & 0xf) as u8
}

/// The 8-bit field of `v` at byte index `idx` (0 is least significant).
pub open spec fn byte_of(v: u16, idx: u8) -> u8
    recommends
        idx <= 1,
{
    ((v >> ((idx * 8) as u16)) & 0xff) as u8
}

impl Reg {
    pub fn nibble(&self, idx: u8) -> (r: u8)
        requires
            idx <= 3,
        ensures
            r == nibble_of(self.0, idx),
    {
        ((self.0 >> ((idx * 4) as u16)) & 0xf) as u8
    }

    pub fn byte(&self, idx: u8) -> (r: u8)
        requires
            idx <= 1,
        ensures
            r == byte_of(self.0, idx),
    {
        ((self.0 >> ((idx * 8) as u16)) & 0xff) as u8
    }

    /// Parse a register literal: hexadecimal (`0x`), octal (`0o`), binary
    /// (`0b`) or decimal, with `_` and `'` digit-group separators ignored.
    pub fn from_literal(s: &str) -> (r: Result<Reg, TpgError>)
        ensures
            r is Ok <==> literal_value(s@) is Some,
            r matches Ok(reg) ==> literal_value(s@) == Some(reg.0),
            r matches Err(e) ==> e matches TpgError::LiteralParse { text, radix }
                && text@ == s@ && radix == literal_radix(strip_separators(s@)),
    {
        let n = s.unicode_len();
        let mut cleaned: Vec<char> = Vec::new();
        let mut i: usize = 0;
        while i < n
            invariant
                i <= n,
                n == s@.len(),
                cleaned@ == strip_separators(s@.take(i as int)),
            decreases n - i,
        {
            let c = s.get_char(i);
            proof {
                assert(s@.take(i + 1).drop_last() =~= s@.take(i as int));
            }
            if !(c == '_' || c == '\'') {
                cleaned.push(c);
            }
            i += 1;
        }
        proof {
            assert(s@.take(n as int) =~= s@);
        }
        let ghost cl = strip_separators(s@);
        let radix: u16;
        let mut pos: usize;
        if cleaned.len() >= 2 && cleaned[0] == '0' && cleaned[1] == 'x' {
            radix = 16;
            pos = 2;
        } else if cleaned.len() >= 2 && cleaned[0] == '0' && cleaned[1] == 'o' {
            radix = 8;
            pos = 2;
        } else if cleaned.len() >= 2 && cleaned[0] == '0' && cleaned[1] == 'b' {
            radix = 2;
            pos = 2;
        } else {
            radix = 10;
            pos = 0;
        }
        proof {
            assert(radix == literal_radix(cl));
            if literal_radix(cl) == 10 {
                assert(cl.skip(0) =~= cl);
            }
        }
        let ghost t = if literal_radix(cl) == 10 { cl } else { cl.skip(2) };
        // here t == cl.skip(pos as int)
        if pos < cleaned.len() && cleaned[pos] == '+' {
            proof {
                assert(t.skip(1) =~= cl.skip(pos + 1));
            }
            pos = pos + 1;
        }
        let ghost d = literal_digits(cl);
        proof {
            assert(d == cl.skip(pos as int));
        }
        let len = cleaned.len();
        if pos >= len {
            proof {
                assert(!digits_valid(d, radix));
            }
            return Err(TpgError::LiteralParse { text: s.to_owned(), radix });
        }
        let mut val: u32 = 0;
        let mut too_big = false;
        let mut j = pos;
        while j < len
            invariant
                pos <= j <= len,
                pos < len,
                len == cleaned@.len(),
                cleaned@ == cl,
                cl == strip_separators(s@),
                d == literal_digits(cl),
                d == cl.skip(pos as int),
                radix == 2 || radix == 8 || radix == 10 || radix == 16,
                radix == literal_radix(cl),
                forall|k: int| 0 <= k < j - pos ==> is_digit(#[trigger] d[k], radix),
                !too_big ==> val == digits_value(d.take(j - pos), radix) && val <= 0xffff,
                too_big ==> digits_value(d.take(j - pos), radix) > 0xffff,
            decreases len - j,
        {
            let c = cleaned[j];
            let ghost idx = j - pos;
            proof {
                assert(d[idx] == cl[j as int]);
                assert(d.take(idx + 1).drop_last() =~= d.take(idx));
                assert(d.take(idx + 1).last() == d[idx]);
            }
            let dvo = digit_of(c);
            let valid = match dvo {
                Some(x) => (x as u16) < radix,
                None => false,
            };
            if !valid {
                proof {
                    assert(!is_digit(d[idx], radix));
                    assert(!digits_valid(d, radix));
                }
                return Err(TpgError::LiteralParse { text: s.to_owned(), radix });
            }
            let x: u8 = match dvo {
                Some(x) => x,
                None => 0,
            };
            if too_big {
                proof {
                    let prev = digits_value(d.take(idx), radix);
                    assert(prev * radix >= prev) by (nonlinear_arith)
                        requires
                            radix >= 1,
                            prev >= 0,
                    ;
                }
            } else {
                proof {
                    assert(val * (radix as u32) <= 0xffff * 16) by (nonlinear_arith)
                        requires
                            val <= 0xffff,
                            radix <= 16,
                    ;
                }
                let nv: u32 = val * (radix as u32) + (x as u32);
                if nv > 0xffff {
                    too_big = true;
                    proof {
                        assert(digits_value(d.take(idx + 1), radix) == nv);
                    }
                } else {
                    val = nv;
                }
            }
            j += 1;
        }
        proof {
            assert(d.take(len - pos) =~= d);
            assert(digits_valid(d, radix));
        }
        if too_big {
            return Err(TpgError::LiteralParse { text: s.to_owned(), radix });
        }
        Ok(Reg(val as u16))
    }
}

impl Default for Reg {
    /// The all-zero register: what an absent DATA argument stands for.
    fn default() -> (r: Self)
        ensures
            r.0 == 0,
    {
        Reg(0)
    }
}

} // verus!
