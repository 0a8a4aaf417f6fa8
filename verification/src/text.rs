use vstd::prelude::*;
use vstd::string::StringSliceAdditionalSpecFns;

verus! {

/// Exclusive upper bound, in bytes, on a text that the sink copies.
pub const TEXT_CEILING: usize = 65535;

/// The bytes end with a NUL, so the sink can read them as a C string.
pub open spec fn nul_terminated(bytes: Seq<u8>) -> bool {
    bytes.len() > 0 && bytes.last() == 0u8
}

/// The text, NUL included, can be handed to the sink as a C string.
pub open spec fn is_c_text(text: &str) -> bool {
    nul_terminated(text.spec_bytes())
}

/// The text is short enough for the sink to copy it: its length in bytes
/// is under the ceiling.
pub open spec fn fits_ceiling(text: &str) -> bool {
    text.len() < TEXT_CEILING
}

/// Tells whether `bytes` end with a NUL.
pub fn ends_with_nul(bytes: &[u8]) -> (yes: bool)
    ensures
        yes == nul_terminated(bytes@),
{
    let n = bytes.len();
    n > 0 && bytes[n - 1] == 0
}

/// Tells whether two texts are the same, character by character.
pub fn same_text(a: &str, b: &str) -> (same: bool)
    ensures
        same == (a@ == b@),
{
    let left = a.as_bytes();
    let right = b.as_bytes();
    proof {
        vstd::utf8::encode_utf8_decode_utf8(a@);
        vstd::utf8::encode_utf8_decode_utf8(b@);
    }
    if left.len() != right.len() {
        return false;
    }
    let mut i: usize = 0;
    while i < left.len()
        invariant
            left@ == a.spec_bytes(),
            right@ == b.spec_bytes(),
            left@.len() == right@.len(),
            i <= left@.len(),
            left@.take(i as int) == right@.take(i as int),
        decreases left@.len() - i,
    {
        if left[i] != right[i] {
            return false;
        }
        assert(left@.take(i + 1) =~= left@.take(i as int).push(left@[i as int]));
        assert(right@.take(i + 1) =~= right@.take(i as int).push(right@[i as int]));
        i += 1;
    }
    assert(left@ =~= left@.take(i as int));
    assert(right@ =~= right@.take(i as int));
    true
}

/// The name that stands in for the enclosing function when it is not known.
pub fn unavailable() -> (name: &'static [u8])
    ensures
        name@ == "<unavailable>\0".spec_bytes(),
        nul_terminated(name@),
        name@.len() == 14,
{
    let text: &'static str = "<unavailable>\0";
    proof {
        reveal_strlit("<unavailable>\0");
        vstd::string::is_ascii_spec_bytes(text);
    }
    text.as_bytes()
}

/// Copies the first `N - 1` bytes of `s` into an array and ends it with a NUL.
pub fn as_array<const N: usize>(s: &'static str) -> (buf: [u8; N])
    requires
        1 <= N <= s.spec_bytes().len() + 1,
    ensures
        buf@ == s.spec_bytes().take(N - 1).push(0u8),
        nul_terminated(buf@),
{
    let bytes = s.as_bytes();
    let mut buf: [u8; N] = vstd::array::array_fill_for_copy_types(0u8);
    let mut i: usize = 0;
    while i < N - 1
        invariant
            1 <= N <= bytes@.len() + 1,
            i <= N - 1,
            forall|j: int| 0 <= j < i ==> buf@[j] == bytes@[j],
            forall|j: int| i <= j < N ==> buf@[j] == 0u8,
        decreases N - 1 - i,
    {
        buf[i] = bytes[i];
        i += 1;
    }
    assert(buf@ =~= s.spec_bytes().take(N - 1).push(0u8));
    buf
}

/// The name of the function that encloses a type, as a C string.
///
/// `nested` is the full name of a type with a one-letter name that is
/// declared inside the function, so it ends in two colons and that letter.
/// The result is the name without that suffix, followed by a NUL.
pub fn get_fn_name_from_nested_type(nested: &str) -> (buf: Vec<u8>)
    requires
        nested.spec_bytes().len() >= 3,
    ensures
        buf@ == nested.spec_bytes().take(nested.spec_bytes().len() - 3).push(0u8),
        nul_terminated(buf@),
{
    let bytes = nested.as_bytes();
    let n: usize = bytes.len() - 3;
    let mut buf: Vec<u8> = Vec::with_capacity(n + 1);
    let mut i: usize = 0;
    while i < n
        invariant
            n + 3 == bytes@.len(),
            i <= n,
            buf@ == bytes@.take(i as int),
        decreases n - i,
    {
        buf.push(bytes[i]);
        assert(bytes@.take(i as int).push(bytes@[i as int]) =~= bytes@.take(i + 1));
        i += 1;
    }
    buf.push(0);
    buf
}

} // verus!
