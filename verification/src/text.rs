use vstd::prelude::*;

verus! {

// String helpers shared by the decoders: an exact equality test on string
// slices, and the one conversion from raw bytes to an owned string.

/// Equality of two string slices, decided on their UTF-8 bytes and lifted to
/// their character sequences through the injectivity of the encoding.
pub fn str_eq(a: &str, b: &str) -> (r: bool)
    ensures
        r == (a@ == b@),
{
    proof {
        vstd::utf8::encode_utf8_decode_utf8(a@);
        vstd::utf8::encode_utf8_decode_utf8(b@);
    }
    let ab = a.as_bytes();
    let bb = b.as_bytes();
    if ab.len() != bb.len() {
        return false;
    }
    let n = ab.len();
    let mut i: usize = 0;
    while i < n
        invariant
            n == ab.len() == bb.len(),
            i <= n,
            ab@ == vstd::utf8::encode_utf8(a@),
            bb@ == vstd::utf8::encode_utf8(b@),
            forall|j: int| 0 <= j < i ==> ab@[j] == bb@[j],
        decreases n - i,
    {
        if *vstd::slice::slice_index_get(ab, i) != *vstd::slice::slice_index_get(bb, i) {
            proof {
                if a@ == b@ {
                    assert(ab@ == bb@);
                }
            }
            return false;
        }
        i = i + 1;
    }
    proof {
        assert(ab@ =~= bb@);
        assert(vstd::utf8::decode_utf8(ab@) == vstd::utf8::decode_utf8(bb@));
    }
    true
}

/// Relies on `String::from_utf8`: it returns `Ok` exactly when the bytes are
/// a valid UTF-8 encoding, and the resulting string decodes those bytes.
#[verifier::external_body]
pub fn bytes_to_string(b: &Vec<u8>) -> (r: Option<String>)
    ensures
        r is Some <==> vstd::utf8::valid_utf8(b@),
        r is Some ==> r.unwrap()@ == vstd::utf8::decode_utf8(b@),
{
    match String::from_utf8(b.clone()) {
        Ok(s) => Some(s),
        Err(_) => None,
    }
}

} // verus!
