//! The frame builder: serializes an address and an optional outgoing payload
//! into the wire frame that is transmitted over the byte transport.
//!
//! The frame is ASCII and newline-terminated:
//! - without a payload: `GET  <address>\n`
//! - with a payload:    `POST <address> <payload>\n`
//!
//! The five-byte method tag is fixed width, spaces included.

use vstd::prelude::*;

verus! {

/// The five method-tag bytes of a request without a payload: `"GET  "`.
pub open spec fn get_tag() -> Seq<u8> {
    seq![71u8, 69u8, 84u8, 32u8, 32u8]
}

/// The five method-tag bytes of a request with a payload: `"POST "`.
pub open spec fn post_tag() -> Seq<u8> {
    seq![80u8, 79u8, 83u8, 84u8, 32u8]
}

/// How many bytes the frame for the given region lengths occupies: the
/// five-byte tag, the address and a trailing newline, plus, when a payload is
/// present, a separating space and the payload before the newline.
pub open spec fn required_len(addr_len: nat, out_len: nat) -> nat {
    if out_len == 0 {
        5 + addr_len + 1
    } else {
        5 + addr_len + 1 + out_len + 1
    }
}

/// The wire frame for the given address and outgoing payload.  An empty
/// payload selects the GET method; a non-empty one selects POST.
pub open spec fn frame_spec(address: Seq<u8>, data_out: Seq<u8>) -> Seq<u8> {
    if data_out.len() == 0 {
        get_tag() + address + seq![10u8]
    } else {
        post_tag() + address + seq![32u8] + data_out + seq![10u8]
    }
}

/// The frame occupies exactly `required_len` bytes.
pub proof fn lemma_frame_len(address: Seq<u8>, data_out: Seq<u8>)
    ensures
        frame_spec(address, data_out).len() == required_len(address.len(), data_out.len()),
{
}

/// Law: method selection.  A frame built from an empty outgoing payload
/// begins with the GET tag; one built from a non-empty payload begins with
/// the POST tag.
pub proof fn lemma_method_selection(address: Seq<u8>, data_out: Seq<u8>)
    ensures
        data_out.len() == 0 ==> frame_spec(address, data_out).subrange(0, 5) == get_tag(),
        data_out.len() > 0 ==> frame_spec(address, data_out).subrange(0, 5) == post_tag(),
{
    if data_out.len() == 0 {
        assert(frame_spec(address, data_out).subrange(0, 5) =~= get_tag());
    } else {
        assert(frame_spec(address, data_out).subrange(0, 5) =~= post_tag());
    }
}

/// Write the wire frame for `address` and `data_out` into the front of
/// `buffer`, leaving the rest of the buffer as it was, and return the frame's
/// length.
pub fn build_frame(buffer: &mut Vec<u8>, address: &Vec<u8>, data_out: &Vec<u8>) -> (n: usize)
    requires
        required_len(address@.len(), data_out@.len()) <= old(buffer)@.len(),
    ensures
        final(buffer)@.len() == old(buffer)@.len(),
        n == required_len(address@.len(), data_out@.len()),
        final(buffer)@.subrange(0, n as int) == frame_spec(address@, data_out@),
        forall|i: int| n <= i < old(buffer)@.len() ==> final(buffer)@[i] == old(buffer)@[i],
{
    let a = address.len();
    let cap = buffer.len();
    if data_out.len() == 0 {
        buffer.set(0, 71); // 'G'
        buffer.set(1, 69); // 'E'
        buffer.set(2, 84); // 'T'
        buffer.set(3, 32); // ' '
        buffer.set(4, 32); // ' '
        let mut i: usize = 0;
        while i < a
            invariant
                i <= a,
                a == address@.len(),
                a + 6 <= cap,
                cap == buffer@.len(),
                buffer@.len() == old(buffer)@.len(),
                buffer@.subrange(0, 5) == get_tag(),
                forall|j: int| 0 <= j < i ==> buffer@[5 + j] == address@[j],
                forall|j: int| 5 + a < j < buffer@.len() ==> buffer@[j] == old(buffer)@[j],
                forall|j: int| 5 + i <= j <= 5 + a ==> buffer@[j] == old(buffer)@[j],
            decreases a - i,
        {
            buffer.set(5 + i, address[i]);
            assert(buffer@.subrange(0, 5) =~= get_tag());
            i += 1;
        }
        buffer.set(5 + a, 10); // '\n'
        assert(buffer@.subrange(0, 5) =~= get_tag());
        let n = 5 + a + 1;
        assert(buffer@.subrange(0, n as int) =~= frame_spec(address@, data_out@));
        n
    } else {
        let d = data_out.len();
        buffer.set(0, 80); // 'P'
        buffer.set(1, 79); // 'O'
        buffer.set(2, 83); // 'S'
        buffer.set(3, 84); // 'T'
        buffer.set(4, 32); // ' '
        let mut i: usize = 0;
        while i < a
            invariant
                i <= a,
                a == address@.len(),
                d == data_out@.len(),
                d > 0,
                a + d + 7 <= cap,
                cap == buffer@.len(),
                buffer@.len() == old(buffer)@.len(),
                buffer@.subrange(0, 5) == post_tag(),
                forall|j: int| 0 <= j < i ==> buffer@[5 + j] == address@[j],
                forall|j: int| 5 + a + 1 + d < j < buffer@.len() ==> buffer@[j] == old(buffer)@[j],
                forall|j: int| 5 + i <= j <= 5 + a + 1 + d ==> buffer@[j] == old(buffer)@[j],
            decreases a - i,
        {
            buffer.set(5 + i, address[i]);
            assert(buffer@.subrange(0, 5) =~= post_tag());
            i += 1;
        }
        buffer.set(5 + a, 32); // ' '
        assert(buffer@.subrange(0, 5) =~= post_tag());
        let mut k: usize = 0;
        while k < d
            invariant
                k <= d,
                a == address@.len(),
                d == data_out@.len(),
                d > 0,
                a + d + 7 <= cap,
                cap == buffer@.len(),
                buffer@.len() == old(buffer)@.len(),
                buffer@.subrange(0, 5) == post_tag(),
                forall|j: int| 0 <= j < a ==> buffer@[5 + j] == address@[j],
                buffer@[5 + a] == 32u8,
                forall|j: int| 0 <= j < k ==> buffer@[5 + a + 1 + j] == data_out@[j],
                forall|j: int| 5 + a + 1 + d < j < buffer@.len() ==> buffer@[j] == old(buffer)@[j],
                forall|j: int| 5 + a + 1 + k <= j <= 5 + a + 1 + d ==> buffer@[j] == old(buffer)@[j],
            decreases d - k,
        {
            buffer.set(5 + a + 1 + k, data_out[k]);
            assert(buffer@.subrange(0, 5) =~= post_tag());
            k += 1;
        }
        buffer.set(5 + a + 1 + d, 10); // '\n'
        assert(buffer@.subrange(0, 5) =~= post_tag());
        let n = 5 + a + 1 + d + 1;
        assert(buffer@.subrange(0, n as int) =~= frame_spec(address@, data_out@));
        n
    }
}

} // verus!
