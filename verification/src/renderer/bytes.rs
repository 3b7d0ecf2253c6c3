//! Buffer contents as the GPU receives them: the bytes of indices and of
//! vertex scalars in the byte order of the machine.

use vstd::prelude::*;
use vstd::slice::slice_to_vec;
use crate::renderer::vertex::{flatten, lemma_flatten_len, vertex_words, Vertex};

verus! {

/// The two byte orders a machine can have.
#[derive(Clone, Copy, Debug, PartialEq, Eq, Structural)]
pub enum ByteOrder {
    LittleEndian,
    BigEndian,
}

/// The two bytes of `value` in the given order.
pub open spec fn u16_bytes(value: u16, order: ByteOrder) -> Seq<u8> {
    let low = (value % 256) as u8;
    let high = (value / 256) as u8;
    match order {
        ByteOrder::LittleEndian => seq![low, high],
        ByteOrder::BigEndian => seq![high, low],
    }
}

/// The four bytes of `value` in the given order.
pub open spec fn u32_bytes(value: u32, order: ByteOrder) -> Seq<u8> {
    let b0 = (value % 256) as u8;
    let b1 = (value / 256 % 256) as u8;
    let b2 = (value / 65536 % 256) as u8;
    let b3 = (value / 16777216) as u8;
    match order {
        ByteOrder::LittleEndian => seq![b0, b1, b2, b3],
        ByteOrder::BigEndian => seq![b3, b2, b1, b0],
    }
}

/// The bytes of a run of 16-bit values, value after value.
pub open spec fn u16s_bytes(values: Seq<u16>, order: ByteOrder) -> Seq<u8> {
    Seq::new(2 * values.len(), |i: int| u16_bytes(values[i / 2], order)[i % 2])
}

/// The bytes of a run of 32-bit values, value after value.
pub open spec fn u32s_bytes(values: Seq<u32>, order: ByteOrder) -> Seq<u8> {
    Seq::new(4 * values.len(), |i: int| u32_bytes(values[i / 4], order)[i % 4])
}

/// `bytemuck::cast_slice` from `u16` to `u8`: the same memory seen as bytes.
/// The cast cannot fail, since bytes need no alignment and any length of
/// 16-bit values is a whole number of bytes. The contract claims that the
/// result holds two bytes per value, each value in the machine's byte order,
/// which is one of the two orders for the whole slice.
#[verifier::external_body]
fn cast_u16s(values: &[u16]) -> (bytes: &[u8])
    ensures
        bytes@ == u16s_bytes(values@, ByteOrder::LittleEndian) || bytes@ == u16s_bytes(
            values@,
            ByteOrder::BigEndian,
        ),
{
    bytemuck::cast_slice::<u16, u8>(values)
}

/// `bytemuck::cast_slice` from `u32` to `u8`: the same memory seen as bytes.
/// The cast cannot fail, for the reasons given for 16-bit values. The
/// contract claims that the result holds four bytes per value, each value in
/// the machine's byte order, which is one of the two orders for the whole
/// slice.
#[verifier::external_body]
fn cast_u32s(values: &[u32]) -> (bytes: &[u8])
    ensures
        bytes@ == u32s_bytes(values@, ByteOrder::LittleEndian) || bytes@ == u32s_bytes(
            values@,
            ByteOrder::BigEndian,
        ),
{
    bytemuck::cast_slice::<u32, u8>(values)
}

/// The contents of an index buffer holding `indices`.
pub fn index_bytes(indices: &[u16]) -> (bytes: &[u8])
    ensures
        bytes@ == u16s_bytes(indices@, ByteOrder::LittleEndian) || bytes@ == u16s_bytes(
            indices@,
            ByteOrder::BigEndian,
        ),
        bytes@.len() == 2 * indices@.len(),
{
    cast_u16s(indices)
}

/// The contents of a vertex buffer holding `vertices`: forty-eight bytes per
/// vertex, the scalars of each record in field order.
pub fn vertex_bytes(vertices: &Vec<Vertex>) -> (bytes: Vec<u8>)
    ensures
        bytes@ == u32s_bytes(flatten(vertices@), ByteOrder::LittleEndian) || bytes@ == u32s_bytes(
            flatten(vertices@),
            ByteOrder::BigEndian,
        ),
        bytes@.len() == 48 * vertices@.len(),
{
    let words = vertex_words(vertices);
    let view = cast_u32s(words.as_slice());
    proof {
        lemma_flatten_len(vertices@);
    }
    slice_to_vec(view)
}

} // verus!
