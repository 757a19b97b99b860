use vstd::prelude::*;
use vstd::utf8::encode_utf8;

verus! {

/// The NUL-terminated byte string that stands for the text `s`: its UTF-8
/// bytes followed by one zero byte; there is none when a zero byte already
/// occurs in the text, since the native side would cut the text there.
pub open spec fn c_string_of(s: Seq<char>) -> Option<Seq<u8>> {
    if encode_utf8(s).contains(0u8) {
        None
    } else {
        Some(encode_utf8(s).push(0u8))
    }
}

/// Encodes `s` as a NUL-terminated byte string for the native host, or
/// `None` when `s` holds a NUL byte itself.
pub fn encode_c_string(s: &str) -> (r: Option<Vec<u8>>)
    ensures
        r is Some <==> c_string_of(s@) is Some,
        r matches Some(v) ==> Some(v@) == c_string_of(s@),
{
    let bytes = s.as_bytes();
    let mut out: Vec<u8> = Vec::new();
    let mut i: usize = 0;
    while i < bytes.len()
        invariant
            bytes@ == encode_utf8(s@),
            i <= bytes@.len(),
            out@ == bytes@.take(i as int),
            !out@.contains(0u8),
        decreases bytes@.len() - i,
    {
        if bytes[i] == 0 {
            assert(bytes@[i as int] == 0u8);
            return None;
        }
        out.push(bytes[i]);
        assert(out@ =~= bytes@.take(i + 1));
        i = i + 1;
    }
    assert(out@ =~= bytes@);
    out.push(0);
    Some(out)
}

/// Encodes every argument as a NUL-terminated byte string, in order, or
/// gives `None` when some argument holds a NUL byte.
pub fn c_string_args(args: &Vec<String>) -> (r: Option<Vec<Vec<u8>>>)
    ensures
        r is Some <==> forall|i: int| 0 <= i < args@.len() ==> #[trigger] c_string_of(args@[i]@) is Some,
        r matches Some(v) ==> v@.len() == args@.len() && forall|i: int|
            0 <= i < args@.len() ==> Some(#[trigger] v@[i]@) == c_string_of(args@[i]@),
{
    let mut out: Vec<Vec<u8>> = Vec::new();
    let mut i: usize = 0;
    while i < args.len()
        invariant
            i <= args@.len(),
            out@.len() == i,
            forall|j: int| 0 <= j < i ==> Some(#[trigger] out@[j]@) == c_string_of(args@[j]@),
        decreases args@.len() - i,
    {
        match encode_c_string(args[i].as_str()) {
            Some(bytes) => {
                out.push(bytes);
            },
            None => {
                assert(c_string_of(args@[i as int]@) is None);
                return None;
            },
        }
        i = i + 1;
    }
    assert forall|j: int| 0 <= j < args@.len() implies #[trigger] c_string_of(args@[j]@) is Some by {
        assert(Some(out@[j]@) == c_string_of(args@[j]@));
    }
    Some(out)
}


/// The native byte string of a text ends in its one zero byte and decodes
/// back to exactly that text.
pub proof fn law_c_string_round_trip(s: Seq<char>)
    requires
        c_string_of(s) is Some,
    ensures
        ({
            let b = c_string_of(s)->0;
            &&& b.last() == 0u8
            &&& forall|i: int| 0 <= i < b.len() - 1 ==> b[i] != 0u8
            &&& vstd::utf8::valid_utf8(b.drop_last())
            &&& vstd::utf8::decode_utf8(b.drop_last()) == s
        }),
{
    let b = c_string_of(s)->0;
    assert(b.drop_last() =~= encode_utf8(s));
    vstd::utf8::encode_utf8_valid_utf8(s);
    vstd::utf8::encode_utf8_decode_utf8(s);
    assert forall|i: int| 0 <= i < b.len() - 1 implies b[i] != 0u8 by {
        assert(encode_utf8(s)[i] == b[i]);
    }
}

} // verus!
