//! Registry value data: decoding the stored bytes into a command string and
//! encoding a command as a `REG_SZ` value.

use vstd::prelude::*;
use vstd::utf8::{decode_utf8, valid_utf8};

verus! {

/// Registry value types (the kinds a registry value can be stored as).
#[allow(non_camel_case_types)]
#[derive(Debug, Clone, Copy, PartialEq, Eq, Structural)]
pub enum RegType {
    REG_NONE,
    REG_SZ,
    REG_EXPAND_SZ,
    REG_BINARY,
    REG_DWORD,
    REG_DWORD_BIG_ENDIAN,
    REG_LINK,
    REG_MULTI_SZ,
    REG_RESOURCE_LIST,
    REG_FULL_RESOURCE_DESCRIPTOR,
    REG_RESOURCE_REQUIREMENTS_LIST,
    REG_QWORD,
}

/// The replacement character U+FFFD.
pub open spec fn replacement_char() -> char {
    '\u{FFFD}'
}

/// A UTF-16 code unit in the surrogate range.
pub open spec fn is_surrogate(u: u16) -> bool {
    0xD800 <= u <= 0xDFFF
}

/// A leading (high) surrogate.
pub open spec fn is_high_surrogate(u: u16) -> bool {
    0xD800 <= u <= 0xDBFF
}

/// A trailing (low) surrogate.
pub open spec fn is_low_surrogate(u: u16) -> bool {
    0xDC00 <= u <= 0xDFFF
}

/// The code point that a surrogate pair stands for.
pub open spec fn pair_code(hi: u16, lo: u16) -> u32 {
    (0x10000 + (hi - 0xD800) * 0x400 + (lo - 0xDC00)) as u32
}

/// UTF-16 decoding that replaces each unpaired surrogate by U+FFFD
/// (`String::from_utf16_lossy`).
pub open spec fn utf16_decode_lossy(u: Seq<u16>) -> Seq<char>
    decreases u.len(),
{
    if u.len() == 0 {
        Seq::empty()
    } else if !is_surrogate(u[0]) {
        seq![u[0] as char] + utf16_decode_lossy(u.drop_first())
    } else if is_high_surrogate(u[0]) && u.len() >= 2 && is_low_surrogate(u[1]) {
        seq![pair_code(u[0], u[1]) as char] + utf16_decode_lossy(u.subrange(2, u.len() as int))
    } else {
        seq![replacement_char()] + utf16_decode_lossy(u.drop_first())
    }
}

/// The UTF-16 code units of one character.
pub open spec fn utf16_units_of(c: char) -> Seq<u16> {
    let v = c as u32;
    if v < 0x10000 {
        seq![v as u16]
    } else {
        seq![(0xD800 + (v - 0x10000) / 0x400) as u16, (0xDC00 + (v - 0x10000) % 0x400) as u16]
    }
}

/// The UTF-16 encoding of a string (`str::encode_utf16`).
pub open spec fn utf16_encode(s: Seq<char>) -> Seq<u16>
    decreases s.len(),
{
    if s.len() == 0 {
        Seq::empty()
    } else {
        utf16_units_of(s[0]) + utf16_encode(s.drop_first())
    }
}

/// Code units as little-endian byte pairs.
pub open spec fn le_bytes(u: Seq<u16>) -> Seq<u8>
    decreases u.len(),
{
    if u.len() == 0 {
        Seq::empty()
    } else {
        seq![(u[0] % 256) as u8, (u[0] / 256) as u8] + le_bytes(u.drop_first())
    }
}

/// Little-endian byte pairs read as code units; an odd last byte is ignored
/// (`chunks_exact(2)`).
pub open spec fn units_of_le_bytes(b: Seq<u8>) -> Seq<u16> {
    Seq::new(b.len() / 2, |i: int| (b[2 * i] + 256 * b[2 * i + 1]) as u16)
}

/// `u` without its trailing zero units.
pub open spec fn strip_trailing_zeros(u: Seq<u16>) -> Seq<u16>
    decreases u.len(),
{
    if u.len() > 0 && u.last() == 0 {
        strip_trailing_zeros(u.drop_last())
    } else {
        u
    }
}

/// What `String::from_utf8_lossy` makes of a byte sequence.
pub uninterp spec fn utf8_lossy(b: Seq<u8>) -> Seq<char>;

/// The command text stored in a registry value of type `vtype` with data
/// `bytes`: UTF-16LE without trailing NUL units for `REG_SZ` and
/// `REG_EXPAND_SZ`, lossy UTF-8 otherwise.
pub open spec fn spec_decode_reg_value(vtype: RegType, bytes: Seq<u8>) -> Seq<char> {
    if vtype == RegType::REG_SZ || vtype == RegType::REG_EXPAND_SZ {
        utf16_decode_lossy(strip_trailing_zeros(units_of_le_bytes(bytes)))
    } else {
        utf8_lossy(bytes)
    }
}

/// `char::from_u32`: `Some` exactly for Unicode scalar values (at most
/// 0x10FFFF and outside the surrogate range), holding the character whose
/// code is `v`.
#[verifier::external_body]
fn char_from_u32(v: u32) -> (r: Option<char>)
    ensures
        r is Some <==> (v <= 0x10FFFF && !(0xD800 <= v <= 0xDFFF)),
        r matches Some(c) ==> c as u32 == v,
{
    char::from_u32(v)
}

/// `String::push`: appends one character.
#[verifier::external_body]
fn string_push(s: &mut String, c: char)
    ensures
        final(s)@ == old(s)@.push(c),
{
    s.push(c)
}

/// `String::from_utf8_lossy`: the result is named; on valid UTF-8 it is the
/// decoded text, as the documentation states.
#[verifier::external_body]
fn from_utf8_lossy(b: &[u8]) -> (r: String)
    ensures
        r@ == utf8_lossy(b@),
        valid_utf8(b@) ==> r@ == decode_utf8(b@),
{
    String::from_utf8_lossy(b).to_string()
}

proof fn lemma_char_of_code(c: char, v: u32)
    requires
        c as u32 == v,
    ensures
        v as char == c,
{
}

/// Decode UTF-16 code units, replacing unpaired surrogates by U+FFFD.
pub fn decode_utf16_lossy(u: &Vec<u16>) -> (r: String)
    ensures
        r@ == utf16_decode_lossy(u@),
{
    let mut out = String::new();
    let mut i: usize = 0;
    assert(u@.subrange(0, u@.len() as int) =~= u@);
    while i < u.len()
        invariant
            i <= u@.len(),
            out@ + utf16_decode_lossy(u@.subrange(i as int, u@.len() as int)) == utf16_decode_lossy(
                u@,
            ),
        decreases u@.len() - i,
    {
        let ghost rest = u@.subrange(i as int, u@.len() as int);
        let x = u[i];
        if x < 0xD800 || x > 0xDFFF {
            let c = char_from_u32(x as u32).unwrap();
            proof {
                lemma_char_of_code(c, x as u32);
                assert(rest.drop_first() =~= u@.subrange(i + 1, u@.len() as int));
            }
            string_push(&mut out, c);
            i = i + 1;
        } else if x <= 0xDBFF && i + 1 < u.len() && u[i + 1] >= 0xDC00 && u[i + 1] <= 0xDFFF {
            let y = u[i + 1];
            let code: u32 = 0x10000 + ((x - 0xD800) as u32) * 0x400 + ((y - 0xDC00) as u32);
            assert(code <= 0x10FFFF) by (nonlinear_arith)
                requires
                    0xD800 <= x <= 0xDBFF,
                    0xDC00 <= y <= 0xDFFF,
                    code == 0x10000 + ((x - 0xD800) as u32) * 0x400 + ((y - 0xDC00) as u32),
            ;
            let c = char_from_u32(code).unwrap();
            proof {
                lemma_char_of_code(c, code);
                assert(code == pair_code(rest[0], rest[1]));
                assert(rest.subrange(2, rest.len() as int) =~= u@.subrange(
                    i + 2,
                    u@.len() as int,
                ));
            }
            string_push(&mut out, c);
            i = i + 2;
        } else {
            proof {
                assert(rest.drop_first() =~= u@.subrange(i + 1, u@.len() as int));
            }
            string_push(&mut out, '\u{FFFD}');
            i = i + 1;
        }
    }
    assert(u@.subrange(i as int, u@.len() as int) =~= Seq::<u16>::empty());
    out
}

/// Decode a registry value's raw bytes into a string.
///
/// `REG_SZ` / `REG_EXPAND_SZ` values are UTF-16LE with trailing NUL units,
/// which are stripped. Other types fall back to a lossy UTF-8 decode.
pub fn decode_reg_value_bytes(vtype: RegType, bytes: &[u8]) -> (r: String)
    ensures
        r@ == spec_decode_reg_value(vtype, bytes@),
        vtype != RegType::REG_SZ && vtype != RegType::REG_EXPAND_SZ && valid_utf8(bytes@) ==> r@
            == decode_utf8(bytes@),
{
    match vtype {
        RegType::REG_SZ | RegType::REG_EXPAND_SZ => {
            let mut units: Vec<u16> = Vec::new();
            let blen = bytes.len();
            let n = blen / 2;
            let mut k: usize = 0;
            while k < n
                invariant
                    blen == bytes@.len(),
                    n == bytes@.len() / 2,
                    k <= n,
                    units@ =~= units_of_le_bytes(bytes@).take(k as int),
                decreases n - k,
            {
                assert(2 * k + 1 < bytes@.len()) by (nonlinear_arith)
                    requires
                        k < n,
                        n == bytes@.len() / 2,
                ;
                let lo = bytes[2 * k] as u16;
                let hi = bytes[2 * k + 1] as u16;
                units.push(lo + 256 * hi);
                k = k + 1;
            }
            assert(units@ =~= units_of_le_bytes(bytes@));
            while units.len() > 0 && units[units.len() - 1] == 0
                invariant
                    strip_trailing_zeros(units@) == strip_trailing_zeros(units_of_le_bytes(bytes@)),
                decreases units@.len(),
            {
                units.pop();
            }
            decode_utf16_lossy(&units)
        },
        _ => from_utf8_lossy(bytes),
    }
}

} // verus!

verus! {

proof fn lemma_units_of_char(c: char)
    ensures
        utf16_units_of(c).len() == 1 ==> !is_surrogate(utf16_units_of(c)[0]) && utf16_units_of(
            c,
        )[0] as char == c,
        utf16_units_of(c).len() == 2 ==> is_high_surrogate(utf16_units_of(c)[0])
            && is_low_surrogate(utf16_units_of(c)[1]) && pair_code(
            utf16_units_of(c)[0],
            utf16_units_of(c)[1],
        ) as char == c,
        utf16_units_of(c).len() == 1 || utf16_units_of(c).len() == 2,
        utf16_units_of(c).last() == 0 ==> c == '\0',
{
    let v = c as u32;
    if v < 0x10000 {
        lemma_char_of_code(c, v);
    } else {
        let w = v - 0x10000;
        let hi = (0xD800 + w / 0x400) as u16;
        let lo = (0xDC00 + w % 0x400) as u16;
        assert(0 <= w < 0x100000);
        assert(w / 0x400 < 0x400);
        assert(0 <= w % 0x400 < 0x400);
        assert(w == (w / 0x400) * 0x400 + w % 0x400);
        assert(pair_code(hi, lo) == v);
        lemma_char_of_code(c, v);
    }
}

/// Decoding the units of one character gives the character back, whatever follows.
proof fn lemma_decode_units_of(c: char, rest: Seq<u16>)
    ensures
        utf16_decode_lossy(utf16_units_of(c) + rest) == seq![c] + utf16_decode_lossy(rest),
{
    lemma_units_of_char(c);
    let u = utf16_units_of(c) + rest;
    if utf16_units_of(c).len() == 1 {
        assert(u.drop_first() =~= rest);
    } else {
        assert(u.subrange(2, u.len() as int) =~= rest);
    }
}

/// UTF-16 decoding undoes UTF-16 encoding.
pub proof fn lemma_utf16_roundtrip(s: Seq<char>)
    ensures
        utf16_decode_lossy(utf16_encode(s)) == s,
    decreases s.len(),
{
    if s.len() > 0 {
        lemma_utf16_roundtrip(s.drop_first());
        lemma_decode_units_of(s[0], utf16_encode(s.drop_first()));
        assert(seq![s[0]] + s.drop_first() =~= s);
    }
}

proof fn lemma_encode_push(a: Seq<char>, c: char)
    ensures
        utf16_encode(a.push(c)) == utf16_encode(a) + utf16_units_of(c),
    decreases a.len(),
{
    if a.len() == 0 {
        assert(a.push(c).drop_first() =~= Seq::<char>::empty());
        assert(a.push(c)[0] == c);
        assert(utf16_encode(Seq::<char>::empty()) == Seq::<u16>::empty());
        assert(utf16_encode(a) == Seq::<u16>::empty());
        assert(utf16_units_of(c) + Seq::<u16>::empty() =~= utf16_units_of(c));
        assert(Seq::<u16>::empty() + utf16_units_of(c) =~= utf16_units_of(c));
    } else {
        lemma_encode_push(a.drop_first(), c);
        assert(a.push(c).drop_first() =~= a.drop_first().push(c));
        assert(utf16_units_of(a[0]) + (utf16_encode(a.drop_first()) + utf16_units_of(c))
            =~= utf16_units_of(a[0]) + utf16_encode(a.drop_first()) + utf16_units_of(c));
    }
}

proof fn lemma_le_bytes_append(a: Seq<u16>, b: Seq<u16>)
    ensures
        le_bytes(a + b) == le_bytes(a) + le_bytes(b),
    decreases a.len(),
{
    if a.len() == 0 {
        assert(a + b =~= b);
        assert(le_bytes(a) + le_bytes(b) =~= le_bytes(b));
    } else {
        lemma_le_bytes_append(a.drop_first(), b);
        assert((a + b).drop_first() =~= a.drop_first() + b);
        let h = seq![(a[0] % 256) as u8, (a[0] / 256) as u8];
        assert(h + (le_bytes(a.drop_first()) + le_bytes(b)) =~= h + le_bytes(a.drop_first())
            + le_bytes(b));
    }
}

proof fn lemma_le_bytes_index(u: Seq<u16>)
    ensures
        le_bytes(u).len() == 2 * u.len(),
        forall|i: int|
            0 <= i < u.len() ==> le_bytes(u)[2 * i] == (u[i] % 256) as u8 && le_bytes(u)[2 * i
                + 1] == (u[i] / 256) as u8,
    decreases u.len(),
{
    if u.len() > 0 {
        lemma_le_bytes_index(u.drop_first());
        let h = seq![(u[0] % 256) as u8, (u[0] / 256) as u8];
        let t = le_bytes(u.drop_first());
        assert(le_bytes(u) == h + t);
        assert forall|i: int| 0 <= i < u.len() implies le_bytes(u)[2 * i] == (u[i] % 256) as u8
            && le_bytes(u)[2 * i + 1] == (u[i] / 256) as u8 by {
            if i > 0 {
                assert((h + t)[2 * i] == t[2 * (i - 1)]);
                assert((h + t)[2 * i + 1] == t[2 * (i - 1) + 1]);
                assert(u[i] == u.drop_first()[i - 1]);
            } else {
                assert((h + t)[0] == h[0]);
                assert((h + t)[1] == h[1]);
            }
        }
    }
}

/// Reading little-endian byte pairs undoes writing them.
pub proof fn lemma_le_bytes_roundtrip(u: Seq<u16>)
    ensures
        units_of_le_bytes(le_bytes(u)) == u,
{
    lemma_le_bytes_index(u);
    let b = le_bytes(u);
    assert(b.len() / 2 == u.len());
    assert forall|i: int| 0 <= i < u.len() implies #[trigger] units_of_le_bytes(b)[i] == u[i] by {
        assert(b[2 * i] == (u[i] % 256) as u8);
        assert(b[2 * i + 1] == (u[i] / 256) as u8);
    }
    assert(units_of_le_bytes(b) =~= u);
}

/// The UTF-16LE bytes of a string (`str::encode_utf16` then `u16::to_le_bytes`).
pub open spec fn utf16le_bytes(s: Seq<char>) -> Seq<u8> {
    le_bytes(utf16_encode(s))
}

/// `k` zero code units: the NUL terminators a string value may end with.
pub open spec fn nul_units(k: nat) -> Seq<u16> {
    Seq::new(k, |i: int| 0u16)
}

proof fn lemma_strip_trailing_nuls(u: Seq<u16>, k: nat)
    requires
        u.len() == 0 || u.last() != 0,
    ensures
        strip_trailing_zeros(u + nul_units(k)) == u,
    decreases k,
{
    if k == 0 {
        assert(u + nul_units(0) =~= u);
    } else {
        let w = u + nul_units(k);
        assert(w.last() == 0);
        assert(w.drop_last() =~= u + nul_units((k - 1) as nat));
        lemma_strip_trailing_nuls(u, (k - 1) as nat);
    }
}

/// A string value (`REG_SZ` or `REG_EXPAND_SZ`) written as the UTF-16LE
/// bytes of a command, followed by any number of NUL terminators, reads
/// back as the same command, as long as the command does not itself end
/// with a NUL character (trailing NUL units are dropped when a value is
/// read).
pub proof fn lemma_reg_sz_roundtrip(vtype: RegType, s: Seq<char>, k: nat)
    requires
        vtype == RegType::REG_SZ || vtype == RegType::REG_EXPAND_SZ,
        s.len() == 0 || s.last() != '\0',
    ensures
        spec_decode_reg_value(vtype, utf16le_bytes(s) + le_bytes(nul_units(k))) == s,
{
    let u = utf16_encode(s);
    lemma_le_bytes_append(u, nul_units(k));
    lemma_le_bytes_roundtrip(u + nul_units(k));
    if s.len() > 0 {
        let a = s.drop_last();
        assert(a.push(s.last()) =~= s);
        lemma_encode_push(a, s.last());
        lemma_units_of_char(s.last());
        assert(u.last() == utf16_units_of(s.last()).last());
    }
    lemma_strip_trailing_nuls(u, k);
    lemma_utf16_roundtrip(s);
}

/// The UTF-16LE bytes of `s`, as a `REG_SZ` value stores them.
pub fn encode_utf16le(s: &str) -> (r: Vec<u8>)
    ensures
        r@ == utf16le_bytes(s@),
{
    let mut out: Vec<u8> = Vec::new();
    let ghost mut done: Seq<char> = Seq::empty();
    for c in it: s.chars()
        invariant
            it.seq() == s@,
            done == it.seq().take(it.index() as int),
            out@ == le_bytes(utf16_encode(done)),
    {
        let v = c as u32;
        let ghost units = utf16_units_of(c);
        let ghost before = out@;
        proof {
            lemma_encode_push(done, c);
            lemma_le_bytes_append(utf16_encode(done), units);
            assert(done.push(c) =~= it.seq().take(it.index() + 1));
        }
        if v < 0x10000 {
            let u = v as u16;
            out.push((u % 256) as u8);
            out.push((u / 256) as u8);
            proof {
                assert(units =~= seq![u]);
                assert(units.drop_first() =~= Seq::<u16>::empty());
                assert(le_bytes(Seq::<u16>::empty()) == Seq::<u8>::empty());
                assert(units[0] == u);
                assert(le_bytes(units) =~= seq![(u % 256) as u8, (u / 256) as u8]);
                assert(out@ =~= before + le_bytes(units));
            }
        } else {
            let w = v - 0x10000;
            assert(w < 0x100000) by {
                lemma_units_of_char(c);
                assert((c as u32) <= 0x10FFFF);
            }
            let hi: u16 = (0xD800 + w / 0x400) as u16;
            let lo: u16 = (0xDC00 + w % 0x400) as u16;
            out.push((hi % 256) as u8);
            out.push((hi / 256) as u8);
            out.push((lo % 256) as u8);
            out.push((lo / 256) as u8);
            proof {
                assert(units =~= seq![hi, lo]);
                assert(units.drop_first() =~= seq![lo]);
                assert(units.drop_first().drop_first() =~= Seq::<u16>::empty());
                assert(le_bytes(Seq::<u16>::empty()) == Seq::<u8>::empty());
                assert(seq![lo].drop_first() =~= Seq::<u16>::empty());
                assert(le_bytes(seq![lo]) =~= seq![(lo % 256) as u8, (lo / 256) as u8]);
                assert(le_bytes(units) =~= seq![
                    (hi % 256) as u8,
                    (hi / 256) as u8,
                    (lo % 256) as u8,
                    (lo / 256) as u8,
                ]);
                assert(out@ =~= before + le_bytes(units));
            }
        }
        proof {
            done = done.push(c);
        }
    }
    proof {
        assert(done =~= s@);
    }
    out
}

} // verus!
