use vstd::prelude::*;

use crate::errno::EINVAL;

verus! {

/// The platform path-length limit: the fixed maximum number of bytes
/// read out of the requesting process's memory.
pub const PATH_MAX: usize = 4096;

/// What the characters of a decoded path are, as a function of the raw
/// bytes alone: `None` when the bytes are not valid UTF-8.
pub uninterp spec fn utf8_decode(bytes: Seq<u8>) -> Option<Seq<char>>;

/// Relies on `String::from_utf8`: it succeeds exactly when the bytes
/// are valid UTF-8, the characters depend on the bytes alone, and an
/// empty input decodes to the empty string.
#[verifier::external_body]
fn decode_utf8(bytes: Vec<u8>) -> (r: Option<String>)
    ensures
        r is Some <==> utf8_decode(bytes@) is Some,
        r is Some ==> r->0@ == utf8_decode(bytes@)->0,
        bytes@.len() == 0 ==> r is Some && r->0@ =~= Seq::<char>::empty(),
{
    match String::from_utf8(bytes) {
        Ok(s) => Some(s),
        Err(_) => None,
    }
}

/// `i` is the position of the first null byte of `bytes`.
pub open spec fn is_first_nul(bytes: Seq<u8>, i: int) -> bool {
    &&& 0 <= i < bytes.len()
    &&& bytes[i] == 0
    &&& forall|j: int| 0 <= j < i ==> bytes[j] != 0
}

/// The position of the first null byte, if any.
pub open spec fn first_nul(bytes: Seq<u8>) -> Option<int> {
    if exists|i: int| is_first_nul(bytes, i) {
        Some(choose|i: int| is_first_nul(bytes, i))
    } else {
        None
    }
}

/// What path extraction yields on a buffer read from the requester's
/// memory: the bytes before the first null, decoded as UTF-8. A buffer
/// with no null byte, or one whose prefix is not valid text, is a
/// malformed input.
pub open spec fn spec_extract(bytes: Seq<u8>) -> Result<Seq<char>, i32> {
    match first_nul(bytes) {
        Option::None => Result::Err(EINVAL),
        Option::Some(i) => match utf8_decode(bytes.take(i)) {
            Option::None => Result::Err(EINVAL),
            Option::Some(cs) => Result::Ok(cs),
        },
    }
}

/// A buffer holding no null byte anywhere within the maximum length is
/// a malformed input: extraction yields the invalid-argument error.
pub proof fn lemma_unterminated_buffer_invalid(bytes: Seq<u8>)
    requires
        forall|i: int| 0 <= i < bytes.len() ==> bytes[i] != 0,
    ensures
        spec_extract(bytes) == Result::<Seq<char>, i32>::Err(EINVAL),
{
    if exists|i: int| is_first_nul(bytes, i) {
        let w = choose|i: int| is_first_nul(bytes, i);
        assert(bytes[w] != 0);
    }
}

proof fn lemma_first_nul_unique(bytes: Seq<u8>, i: int, j: int)
    requires
        is_first_nul(bytes, i),
        is_first_nul(bytes, j),
    ensures
        i == j,
{
    if i < j {
        assert(bytes[i] != 0);
    } else if j < i {
        assert(bytes[j] != 0);
    }
}

/// Locates the first null byte of the buffer, if there is one.
#[verifier::loop_isolation(false)]
fn find_nul(buffer: &Vec<u8>) -> (r: Option<usize>)
    ensures
        r matches Some(i) ==> first_nul(buffer@) == Some(i as int),
        r is None ==> first_nul(buffer@) is None,
{
    let mut i: usize = 0;
    while i < buffer.len()
        invariant
            0 <= i <= buffer@.len(),
            forall|j: int| 0 <= j < i ==> buffer@[j] != 0,
        decreases buffer@.len() - i,
    {
        if buffer[i] == 0 {
            proof {
                assert(is_first_nul(buffer@, i as int));
                let w = choose|k: int| is_first_nul(buffer@, k);
                lemma_first_nul_unique(buffer@, w, i as int);
            }
            return Some(i);
        }
        i = i + 1;
    }
    proof {
        if exists|k: int| is_first_nul(buffer@, k) {
            let w = choose|k: int| is_first_nul(buffer@, k);
            assert(buffer@[w] != 0);
        }
    }
    None
}

/// The string extractor's decoding half: given the bytes read from the
/// requesting process's memory, locate the first null byte and decode
/// the preceding bytes as a path string. The decoded path serves audit
/// and intent only; authorization never rests on it, since the
/// requester can rewrite its memory after the read.
pub fn extract_path(buffer: &Vec<u8>) -> (r: Result<String, i32>)
    ensures
        r is Ok <==> spec_extract(buffer@) is Ok,
        r matches Ok(s) ==> spec_extract(buffer@) matches Ok(cs) && s@ == cs,
        r matches Err(code) ==> code == EINVAL && spec_extract(buffer@) == Result::<
            Seq<char>,
            i32,
        >::Err(EINVAL),
{
    let nul = match find_nul(buffer) {
        Option::None => {
            return Err(EINVAL);
        },
        Option::Some(i) => i,
    };
    let mut prefix: Vec<u8> = Vec::new();
    proof {
        assert(prefix@ =~= buffer@.take(0));
    }
    let mut k: usize = 0;
    while k < nul
        invariant
            0 <= k <= nul,
            nul < buffer@.len(),
            prefix@ == buffer@.take(k as int),
        decreases nul - k,
    {
        prefix.push(buffer[k]);
        proof {
            assert(prefix@ =~= buffer@.take(k + 1));
        }
        k = k + 1;
    }
    proof {
        assert(prefix@ =~= buffer@.take(nul as int));
    }
    match decode_utf8(prefix) {
        Option::None => Err(EINVAL),
        Option::Some(s) => Ok(s),
    }
}

} // verus!
