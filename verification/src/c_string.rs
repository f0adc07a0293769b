use vstd::prelude::*;
use vstd::string::StringSliceAdditionalSpecFns;

verus! {

/// Whether a byte string holds a NUL byte, which a C string cannot carry.
pub open spec fn has_nul(bytes: Seq<u8>) -> bool {
    bytes.contains(0u8)
}

/// The bytes of a C string that carries `bytes`: `bytes` and a NUL after them.
pub open spec fn c_string_bytes(bytes: Seq<u8>) -> Seq<u8> {
    bytes.push(0u8)
}

/// How an optional string argument reaches the service: an empty string is
/// passed as no argument at all (a null pointer), any other as a C string.
pub open spec fn optional_c_string_bytes(bytes: Seq<u8>) -> Option<Seq<u8>> {
    if bytes.len() == 0 {
        None
    } else {
        Some(c_string_bytes(bytes))
    }
}

/// The bytes that an optional C string argument holds, if there is one.
pub open spec fn c_arg_view(arg: Option<Vec<u8>>) -> Option<Seq<u8>> {
    match arg {
        Some(v) => Some(v@),
        None => None,
    }
}

/// The bytes of `s` in a C string: its UTF-8 bytes followed by a NUL.
/// A string that holds a NUL has no such form.
pub fn c_string(s: &str) -> (r: Vec<u8>)
    requires
        !has_nul(s.spec_bytes()),
    ensures
        r@ == c_string_bytes(s.spec_bytes()),
{
    let bytes = s.as_bytes();
    let mut r: Vec<u8> = Vec::new();
    let mut i: usize = 0;
    while i < bytes.len()
        invariant
            i <= bytes@.len(),
            r@ == bytes@.subrange(0, i as int),
        decreases bytes@.len() - i,
    {
        r.push(bytes[i]);
        i = i + 1;
    }
    assert(bytes@.subrange(0, bytes@.len() as int) == bytes@);
    r.push(0u8);
    r
}

/// An optional string argument as the service takes it: `None` (a null
/// pointer) for the empty string, else the string's C string bytes.
pub fn optional_c_string(s: &str) -> (r: Option<Vec<u8>>)
    requires
        !has_nul(s.spec_bytes()),
    ensures
        c_arg_view(r) == optional_c_string_bytes(s.spec_bytes()),
        r is None <==> s.spec_bytes().len() == 0,
        r matches Some(v) ==> v@ == s.spec_bytes().push(0u8),
{
    let c = c_string(s);
    if c.len() == 1 {
        None
    } else {
        Some(c)
    }
}

/// A C string built from bytes without a NUL ends at its one NUL, and
/// cutting that NUL off gives the bytes back.
pub proof fn lemma_c_string_round_trip(bytes: Seq<u8>)
    requires
        !has_nul(bytes),
    ensures
        c_string_bytes(bytes).len() == bytes.len() + 1,
        c_string_bytes(bytes).last() == 0u8,
        c_string_bytes(bytes).drop_last() == bytes,
        forall|i: int| 0 <= i < bytes.len() ==> #[trigger] c_string_bytes(bytes)[i] != 0u8,
{
    assert(c_string_bytes(bytes).drop_last() =~= bytes);
    assert forall|i: int| 0 <= i < bytes.len() implies #[trigger] c_string_bytes(bytes)[i]
        != 0u8 by {
        assert(c_string_bytes(bytes)[i] == bytes[i]);
        if bytes[i] == 0u8 {
            assert(bytes.contains(0u8));
        }
    }
}

/// An optional string argument is absent exactly for the empty string; any
/// other string is passed whole, as its bytes followed by one NUL.
pub proof fn lemma_optional_argument_absent_only_when_empty(bytes: Seq<u8>)
    ensures
        optional_c_string_bytes(bytes) is None <==> bytes.len() == 0,
        bytes.len() > 0 ==> optional_c_string_bytes(bytes) == Some(bytes.push(0u8)),
        optional_c_string_bytes(bytes) matches Some(c) ==> c.len() == bytes.len() + 1 && c.last()
            == 0u8 && c.drop_last() == bytes,
{
    assert(bytes.push(0u8).drop_last() =~= bytes);
}

} // verus!
