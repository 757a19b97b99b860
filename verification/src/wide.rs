use vstd::prelude::*;

verus! {

/// The UTF-16 code units of one Unicode scalar value: the value itself below
/// 0x10000, otherwise a high surrogate followed by a low surrogate.
pub open spec fn utf16_units(c: char) -> Seq<u16> {
    let v = c as u32;
    if v < 0x10000 {
        seq![v as u16]
    } else {
        let w = (v - 0x10000) as int;
        seq![(0xD800 + w / 0x400) as u16, (0xDC00 + w % 0x400) as u16]
    }
}

/// The UTF-16 encoding of a character sequence, unit by unit.
pub open spec fn encode_utf16(s: Seq<char>) -> Seq<u16>
    decreases s.len(),
{
    if s.len() == 0 {
        Seq::empty()
    } else {
        encode_utf16(s.drop_last()) + utf16_units(s.last())
    }
}

/// A NUL-terminated wide string, as the Windows host functions expect it.
pub open spec fn wide_string(s: Seq<char>) -> Seq<u16> {
    encode_utf16(s).push(0u16)
}

fn push_utf16_units(out: &mut Vec<u16>, c: char)
    ensures
        final(out)@ == old(out)@ + utf16_units(c),
{
    proof {
        vstd::utf8::char_is_scalar(c);
    }
    let v: u32 = c as u32;
    if v < 0x10000 {
        out.push(v as u16);
    } else {
        let w: u32 = v - 0x10000;
        let hi: u32 = 0xD800 + w / 0x400;
        let lo: u32 = 0xDC00 + w % 0x400;
        out.push(hi as u16);
        out.push(lo as u16);
    }
}

/// Encodes `str` as UTF-16 and appends the terminating NUL unit.
pub fn to_wstring(str: &str) -> (v: Vec<u16>)
    ensures
        v@ == wide_string(str@),
{
    let mut v: Vec<u16> = Vec::new();
    proof {
        vstd::string::axiom_spec_iter(str);
    }
    for c in it: str.chars()
        invariant
            it.seq() == str@,
            v@ == encode_utf16(str@.take(it.index() as int)),
    {
        push_utf16_units(&mut v, c);
        assert(str@.take(it.index() + 1).drop_last() =~= str@.take(it.index() as int));
    }
    assert(str@.take(str@.len() as int) =~= str@);
    v.push(0);
    v
}


/// Every unit of the encoding of one character is nonzero unless the
/// character is NUL.
proof fn lemma_units_nonzero(c: char)
    ensures
        c != '\0' ==> forall|k: int| 0 <= k < utf16_units(c).len() ==> utf16_units(c)[k] != 0,
{
    vstd::utf8::char_is_scalar(c);
    let v = c as u32;
    if c != '\0' {
        assert(v != 0) by {
            vstd::utf8::char_u32_cast(c, v);
        }
    }
}

/// A text of plain ASCII characters becomes one unit per character, each
/// the character's code, followed by the terminating NUL.
pub proof fn law_ascii_wide_string(s: Seq<char>)
    requires
        forall|i: int| 0 <= i < s.len() ==> (s[i] as u32) < 0x80,
    ensures
        wide_string(s).len() == s.len() + 1,
        forall|i: int| 0 <= i < s.len() ==> wide_string(s)[i] as u32 == s[i] as u32,
        wide_string(s)[s.len() as int] == 0u16,
    decreases s.len(),
{
    if s.len() > 0 {
        let t = s.drop_last();
        law_ascii_wide_string(t);
        let c = s.last();
        assert((c as u32) < 0x80);
        assert(encode_utf16(s) =~= encode_utf16(t) + seq![c as u32 as u16]);
        assert forall|i: int| 0 <= i < s.len() implies wide_string(s)[i] as u32 == s[i] as u32 by {
            if i < t.len() {
                assert(wide_string(t)[i] as u32 == t[i] as u32);
                assert(wide_string(s)[i] == wide_string(t)[i]);
            } else {
                assert(wide_string(s)[i] == c as u32 as u16);
            }
        }
    }
}

/// A text without NUL characters yields a wide string whose only zero unit
/// is the terminator, so the native side reads back the whole text.
pub proof fn law_terminator_is_only_nul(s: Seq<char>)
    requires
        !s.contains('\0'),
    ensures
        wide_string(s).last() == 0u16,
        forall|i: int| 0 <= i < wide_string(s).len() - 1 ==> wide_string(s)[i] != 0,
    decreases s.len(),
{
    if s.len() > 0 {
        let t = s.drop_last();
        assert(!t.contains('\0')) by {
            if t.contains('\0') {
                let j = choose|j: int| 0 <= j < t.len() && t[j] == '\0';
                assert(s[j] == '\0');
            }
        }
        law_terminator_is_only_nul(t);
        assert(s[s.len() - 1] != '\0');
        lemma_units_nonzero(s.last());
        let e = encode_utf16(t);
        let u = utf16_units(s.last());
        assert forall|i: int| 0 <= i < wide_string(s).len() - 1 implies wide_string(s)[i] != 0 by {
            if i < e.len() {
                assert(wide_string(s)[i] == e[i]);
                assert(wide_string(t)[i] == e[i]);
            } else {
                assert(wide_string(s)[i] == u[i - e.len()]);
            }
        }
    }
}


/// The text that a sequence of UTF-16 code units stands for: a high
/// surrogate followed by a low surrogate makes one character above 0xFFFF,
/// any other unit is a character by itself.
pub open spec fn decode_utf16(u: Seq<u16>) -> Seq<char>
    decreases u.len(),
{
    if u.len() == 0 {
        Seq::empty()
    } else if u.len() >= 2 && 0xD800 <= u[0] < 0xDC00 && 0xDC00 <= u[1] < 0xE000 {
        seq![(0x10000 + (u[0] - 0xD800) * 0x400 + (u[1] - 0xDC00)) as u32 as char]
            + decode_utf16(u.subrange(2, u.len() as int))
    } else {
        seq![u[0] as u32 as char] + decode_utf16(u.drop_first())
    }
}

proof fn lemma_encode_front(s: Seq<char>)
    requires
        s.len() > 0,
    ensures
        encode_utf16(s) == utf16_units(s[0]) + encode_utf16(s.drop_first()),
    decreases s.len(),
{
    if s.len() == 1 {
        assert(s.drop_last() =~= Seq::<char>::empty());
        assert(s.drop_first() =~= Seq::<char>::empty());
        assert(encode_utf16(s) =~= utf16_units(s[0]) + encode_utf16(s.drop_first()));
    } else {
        let t = s.drop_last();
        lemma_encode_front(t);
        assert(t.drop_first() =~= s.drop_first().drop_last());
        assert(s.drop_first().last() == s.last());
        assert(encode_utf16(s) =~= utf16_units(s[0]) + encode_utf16(s.drop_first()));
    }
}

proof fn lemma_decode_units(c: char, rest: Seq<u16>)
    ensures
        decode_utf16(utf16_units(c) + rest) == seq![c] + decode_utf16(rest),
{
    vstd::utf8::char_is_scalar(c);
    let v = c as u32;
    vstd::utf8::char_u32_cast(c, v);
    let u = utf16_units(c) + rest;
    if v < 0x10000 {
        assert(u[0] == v as u16);
        assert(u[0] as u32 == v);
        assert(u.drop_first() =~= rest);
    } else {
        let w = (v - 0x10000) as int;
        assert(u[0] as int == 0xD800 + w / 0x400);
        assert(u[1] as int == 0xDC00 + w % 0x400);
        assert((w / 0x400) * 0x400 + w % 0x400 == w);
        assert(u.subrange(2, u.len() as int) =~= rest);
        assert((0x10000 + (u[0] - 0xD800) * 0x400 + (u[1] - 0xDC00)) == v);
    }
}

/// Decoding the UTF-16 encoding of a text gives the text back.
pub proof fn law_utf16_round_trip(s: Seq<char>)
    ensures
        decode_utf16(encode_utf16(s)) == s,
    decreases s.len(),
{
    if s.len() > 0 {
        lemma_encode_front(s);
        law_utf16_round_trip(s.drop_first());
        lemma_decode_units(s[0], encode_utf16(s.drop_first()));
        assert(seq![s[0]] + s.drop_first() =~= s);
    }
}

/// The wide string of a text, without its terminator, decodes back to the
/// text.
pub proof fn law_wide_string_round_trip(s: Seq<char>)
    ensures
        decode_utf16(wide_string(s).drop_last()) == s,
{
    assert(wide_string(s).drop_last() =~= encode_utf16(s));
    law_utf16_round_trip(s);
}

} // verus!
