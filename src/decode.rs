//! Rules shared by the record decoders: embedded C strings, sentinel-coded
//! readings and per-lane bit vectors.
use vstd::prelude::*;
use vstd::utf8::*;
use crate::error::{DCMIError, DCMIResult, GetDataError};

verus! {

/// Reading that the device marks as invalid data.
pub const INVALID_DATA_SENTINEL: u32 = 0x7ffd;
/// Reading that the device marks as a read failure.
pub const READ_ERROR_SENTINEL: u32 = 0x7fff;

/// `n` is the position of the first NUL byte of `b`.
pub open spec fn is_first_nul(b: Seq<u8>, n: int) -> bool {
    &&& 0 <= n < b.len()
    &&& b[n] == 0
    &&& forall|i: int| 0 <= i < n ==> b[i] != 0
}

/// The bytes before the first NUL of `b`, or `None` where `b` holds no NUL.
pub open spec fn c_string_bytes(b: Seq<u8>) -> Option<Seq<u8>> {
    if exists|n: int| is_first_nul(b, n) {
        Some(b.take(choose|n: int| is_first_nul(b, n)))
    } else {
        None
    }
}

/// The text held by a fixed-size buffer with a NUL-terminated string.
pub open spec fn c_string(b: Seq<u8>) -> DCMIResult<Seq<char>> {
    match c_string_bytes(b) {
        Some(t) => if valid_utf8(t) {
            Ok(decode_utf8(t))
        } else {
            Err(DCMIError::Utf8Error)
        },
        None => Err(DCMIError::Utf8Error),
    }
}

/// The view of a decoded string, or the error unchanged.
pub open spec fn text_view(r: DCMIResult<String>) -> DCMIResult<Seq<char>> {
    match r {
        Ok(s) => Ok(s@),
        Err(e) => Err(e),
    }
}

/// Relies on `std::str::from_utf8`: it accepts exactly the valid UTF-8 byte
/// sequences, and the text it returns is what those bytes encode.
#[verifier::external_body]
fn utf8_to_string(b: &[u8]) -> (r: Option<String>)
    ensures
        r is Some <==> valid_utf8(b@),
        r matches Some(s) ==> s@ == decode_utf8(b@),
{
    match std::str::from_utf8(b) {
        Ok(s) => Some(s.to_string()),
        Err(_) => None,
    }
}

/// Decodes bytes that must be UTF-8 text as a whole.
pub fn decode_utf8_bytes(b: &[u8]) -> (r: DCMIResult<String>)
    ensures
        text_view(r) == (if valid_utf8(b@) {
            Ok(decode_utf8(b@))
        } else {
            Err(DCMIError::Utf8Error)
        }),
{
    match utf8_to_string(b) {
        Some(s) => Ok(s),
        None => Err(DCMIError::Utf8Error),
    }
}

/// Decodes the NUL-terminated string held by a fixed-size buffer: the bytes
/// before the first NUL, as UTF-8 text. A buffer with no NUL is an error.
pub fn decode_c_string(buf: &[u8]) -> (r: DCMIResult<String>)
    ensures
        text_view(r) == c_string(buf@),
{
    let mut n: usize = 0;
    while n < buf.len()
        invariant
            n <= buf@.len(),
            forall|i: int| 0 <= i < n ==> buf@[i] != 0,
        decreases buf@.len() - n,
    {
        if buf[n] == 0 {
            proof {
                assert(is_first_nul(buf@, n as int));
                let m = choose|m: int| is_first_nul(buf@, m);
                assert(m == n as int) by {
                    if m < n as int {
                        assert(buf@[m] != 0);
                    } else if m > n as int {
                        assert(buf@[n as int] != 0);
                    }
                };
            }
            let bytes = vstd::slice::slice_subrange(buf, 0, n);
            assert(bytes@ == buf@.take(n as int));
            return decode_utf8_bytes(bytes);
        }
        n = n + 1;
    }
    assert(!exists|m: int| is_first_nul(buf@, m));
    Err(DCMIError::Utf8Error)
}

/// What a sentinel-coded reading amounts to: the error it signals, if any.
pub open spec fn reading_error(v: int) -> Option<GetDataError> {
    if v == INVALID_DATA_SENTINEL {
        Some(GetDataError::InvalidData)
    } else if v == READ_ERROR_SENTINEL {
        Some(GetDataError::ReadError)
    } else {
        None
    }
}

/// A signed reading, unless it is one of the two sentinels.
pub open spec fn checked_i32(v: i32) -> Result<i32, GetDataError> {
    match reading_error(v as int) {
        Some(e) => Err(e),
        None => Ok(v),
    }
}

/// An unsigned reading, unless it is one of the two sentinels.
pub open spec fn checked_u32(v: u32) -> Result<u32, GetDataError> {
    match reading_error(v as int) {
        Some(e) => Err(e),
        None => Ok(v),
    }
}

/// Intercepts the sentinels of a signed reading.
pub fn check_value_i32(v: i32) -> (r: Result<i32, GetDataError>)
    ensures
        r == checked_i32(v),
{
    if v == INVALID_DATA_SENTINEL as i32 {
        Err(GetDataError::InvalidData)
    } else if v == READ_ERROR_SENTINEL as i32 {
        Err(GetDataError::ReadError)
    } else {
        Ok(v)
    }
}

/// Intercepts the sentinels of an unsigned reading.
pub fn check_value_u32(v: u32) -> (r: Result<u32, GetDataError>)
    ensures
        r == checked_u32(v),
{
    if v == INVALID_DATA_SENTINEL {
        Err(GetDataError::InvalidData)
    } else if v == READ_ERROR_SENTINEL {
        Err(GetDataError::ReadError)
    } else {
        Ok(v)
    }
}

/// Number of lanes in a per-lane status word.
pub const LANE_COUNT: usize = 32;

/// Whether bit `i` of `x` is set.
pub open spec fn lane_bit(x: u32, i: int) -> bool {
    x & (1u32 << (i as u32)) != 0
}

/// The 32 per-lane flags of a status word, bit 0 first.
pub open spec fn lanes_of(x: u32) -> Seq<bool> {
    Seq::new(32, |i: int| lane_bit(x, i))
}

/// The status word whose bit `i` is flag `i` of `s`, for at most 32 flags.
pub open spec fn lanes_value(s: Seq<bool>) -> u32
    decreases s.len(),
{
    if s.len() == 0 {
        0
    } else {
        lanes_value(s.drop_last()) | (if s.last() {
            1u32 << ((s.len() - 1) as u32)
        } else {
            0u32
        })
    }
}

/// The low `k` bits of a word set, the others clear.
pub open spec fn low_mask(k: u32) -> u32 {
    if k >= 32 {
        0xffff_ffffu32
    } else {
        !(0xffff_ffffu32 << k)
    }
}

proof fn lemma_low_mask_step(x: u32, j: u32)
    by (bit_vector)
    requires
        j < 32,
    ensures
        (x & low_mask(j)) | (if x & (1u32 << j) != 0 {
            1u32 << j
        } else {
            0u32
        }) == x & low_mask((j + 1) as u32),
{
}

proof fn lemma_lanes_prefix(x: u32, k: nat)
    requires
        k <= 32,
    ensures
        lanes_value(lanes_of(x).take(k as int)) == x & low_mask(k as u32),
    decreases k,
{
    let s = lanes_of(x).take(k as int);
    if k == 0 {
        assert(s.len() == 0);
        assert(x & low_mask(0) == 0) by (bit_vector);
    } else {
        lemma_lanes_prefix(x, (k - 1) as nat);
        assert(s.drop_last() =~= lanes_of(x).take(k - 1));
        lemma_low_mask_step(x, (k - 1) as u32);
    }
}

/// Decoding a status word into its 32 lane flags and encoding them again
/// gives back the word: no bit is lost, moved or added.
pub proof fn lemma_lanes_round_trip(x: u32)
    ensures
        lanes_of(x).len() == LANE_COUNT,
        lanes_value(lanes_of(x)) == x,
{
    lemma_lanes_prefix(x, 32);
    assert(lanes_of(x).take(32) =~= lanes_of(x));
    assert(x & low_mask(32) == x) by (bit_vector);
}

/// Splits a 32-bit per-lane status word into its flags, bit 0 first.
pub fn decode_lanes(x: u32) -> (r: Vec<bool>)
    ensures
        r@ == lanes_of(x),
{
    let mut r: Vec<bool> = Vec::new();
    let mut i: u32 = 0;
    while i < 32
        invariant
            i <= 32,
            r@ == lanes_of(x).take(i as int),
        decreases 32 - i,
    {
        r.push(x & (1u32 << i) != 0);
        i = i + 1;
        assert(r@ =~= lanes_of(x).take(i as int));
    }
    assert(r@ =~= lanes_of(x));
    r
}

/// The first `count` entries of a list that the interface filled, where
/// `count` is within the list; a count outside it is a malformed answer.
pub open spec fn prefix_result<T>(count: i32, list: Seq<T>, r: DCMIResult<Vec<T>>) -> bool {
    if 0 <= count <= list.len() {
        r matches Ok(v) && v@ == list.take(count as int)
    } else {
        r == Err::<Vec<T>, DCMIError>(DCMIError::GetDataError(GetDataError::InvalidData))
    }
}

/// Takes the first `count` entries of a list that the interface filled.
pub fn take_prefix<T: Copy>(count: i32, list: &[T]) -> (r: DCMIResult<Vec<T>>)
    ensures
        prefix_result(count, list@, r),
{
    if count < 0 || count as usize > list.len() {
        return Err(DCMIError::GetDataError(GetDataError::InvalidData));
    }
    let n = count as usize;
    let mut v: Vec<T> = Vec::new();
    let mut i: usize = 0;
    while i < n
        invariant
            n <= list@.len(),
            n == count,
            i <= n,
            v@ == list@.take(i as int),
        decreases n - i,
    {
        v.push(list[i]);
        i = i + 1;
        assert(v@ =~= list@.take(i as int));
    }
    Ok(v)
}

} // verus!
