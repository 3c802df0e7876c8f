//! The byte layouts that the shader reads: one record per blade in the instance buffer, and
//! the two colours of the region in the uniform buffer. Every component is written as four
//! bytes, least significant first.

use vstd::prelude::*;
use crate::gpu::Vec4;
use crate::grass::{GrassBlade, Vec3};

verus! {

/// Bytes from one blade's record to the next.
pub const BLADE_STRIDE: usize = 16;

/// Where a blade's position starts within its record.
pub const POSITION_OFFSET: usize = 0;

/// Where a blade's height starts within its record.
pub const HEIGHT_OFFSET: usize = 12;

/// The size of the uniform block: two colours of four components each.
pub const UNIFORM_SIZE: usize = 32;

/// The four bytes of a component.
pub open spec fn word_bytes(w: u32) -> Seq<u8> {
    seq![
        (w % 256) as u8,
        (w / 256 % 256) as u8,
        (w / 65536 % 256) as u8,
        (w / 16777216) as u8,
    ]
}

/// The component that the four bytes starting at `at` hold.
pub open spec fn word_at(bytes: Seq<u8>, at: int) -> u32 {
    (bytes[at] + 256 * bytes[at + 1] + 65536 * bytes[at + 2] + 16777216 * bytes[at + 3]) as u32
}

/// The twelve bytes of a position.
pub open spec fn vec3_bytes(v: Vec3) -> Seq<u8> {
    word_bytes(v.x) + word_bytes(v.y) + word_bytes(v.z)
}

/// The sixteen bytes of a colour.
pub open spec fn vec4_bytes(v: Vec4) -> Seq<u8> {
    word_bytes(v.x) + word_bytes(v.y) + word_bytes(v.z) + word_bytes(v.w)
}

/// The record of one blade: its position, then its height.
pub open spec fn blade_bytes(blade: GrassBlade) -> Seq<u8> {
    vec3_bytes(blade.position) + word_bytes(blade.height)
}

/// The contents of the instance buffer of a chunk: the records of its blades, in order.
pub open spec fn instance_bytes(blades: Seq<GrassBlade>) -> Seq<u8>
    decreases blades.len(),
{
    if blades.len() == 0 {
        Seq::empty()
    } else {
        instance_bytes(blades.drop_last()) + blade_bytes(blades.last())
    }
}

/// The blade that the record with the given index holds.
pub open spec fn blade_at(bytes: Seq<u8>, index: int) -> GrassBlade {
    let start = index * BLADE_STRIDE as int;
    GrassBlade {
        position: Vec3 {
            x: word_at(bytes, start + POSITION_OFFSET as int),
            y: word_at(bytes, start + POSITION_OFFSET as int + 4),
            z: word_at(bytes, start + POSITION_OFFSET as int + 8),
        },
        height: word_at(bytes, start + HEIGHT_OFFSET as int),
    }
}

/// The blades that a buffer of whole records holds.
pub open spec fn blades_in(bytes: Seq<u8>) -> Seq<GrassBlade> {
    Seq::new((bytes.len() / BLADE_STRIDE as nat) as nat, |i: int| blade_at(bytes, i))
}

/// The contents of the uniform buffer: the main colour, then the bottom colour.
pub open spec fn uniform_bytes(main_color: Vec4, bottom_color: Vec4) -> Seq<u8> {
    vec4_bytes(main_color) + vec4_bytes(bottom_color)
}

/// A component is read back from its own four bytes, wherever they stand.
pub proof fn lemma_word_round_trip(bytes: Seq<u8>, at: int, w: u32)
    requires
        0 <= at,
        at + 4 <= bytes.len(),
        bytes.subrange(at, at + 4) == word_bytes(w),
    ensures
        word_at(bytes, at) == w,
{
    let part = bytes.subrange(at, at + 4);
    assert(part[0] == bytes[at]);
    assert(part[1] == bytes[at + 1]);
    assert(part[2] == bytes[at + 2]);
    assert(part[3] == bytes[at + 3]);
}

/// The instance buffer of `n` blades holds `n` records, and each record keeps its blade.
pub proof fn lemma_instance_bytes(blades: Seq<GrassBlade>)
    ensures
        instance_bytes(blades).len() == blades.len() * BLADE_STRIDE,
        forall|i: int|
            0 <= i < blades.len() ==> #[trigger] instance_bytes(blades).subrange(
                i * BLADE_STRIDE as int,
                i * BLADE_STRIDE as int + BLADE_STRIDE as int,
            ) == blade_bytes(blades[i]),
    decreases blades.len(),
{
    if blades.len() > 0 {
        let front = blades.drop_last();
        lemma_instance_bytes(front);
        let all = instance_bytes(blades);
        assert(all == instance_bytes(front) + blade_bytes(blades.last()));
        assert forall|i: int| 0 <= i < blades.len() implies #[trigger] all.subrange(
            i * BLADE_STRIDE as int,
            i * BLADE_STRIDE as int + BLADE_STRIDE as int,
        ) == blade_bytes(blades[i]) by {
            if i < front.len() {
                assert(all.subrange(i * 16, i * 16 + 16) == instance_bytes(front).subrange(
                    i * 16,
                    i * 16 + 16,
                ));
                assert(front[i] == blades[i]);
            } else {
                assert(all.subrange(i * 16, i * 16 + 16) == blade_bytes(blades.last()));
            }
        }
    }
}

/// Reading the records of an instance buffer gives back the blades it was written from,
/// bit for bit and in order, whatever their number.
pub proof fn lemma_blades_round_trip(blades: Seq<GrassBlade>)
    ensures
        blades_in(instance_bytes(blades)) == blades,
        forall|i: int| 0 <= i < blades.len() ==> blade_at(instance_bytes(blades), i) == blades[i],
{
    lemma_instance_bytes(blades);
    let bytes = instance_bytes(blades);
    assert forall|i: int| 0 <= i < blades.len() implies blade_at(bytes, i) == blades[i] by {
        let record = bytes.subrange(i * 16, i * 16 + 16);
        let blade = blades[i];
        assert(record == blade_bytes(blade));
        assert(bytes.subrange(i * 16, i * 16 + 4) == record.subrange(0, 4));
        assert(bytes.subrange(i * 16 + 4, i * 16 + 8) == record.subrange(4, 8));
        assert(bytes.subrange(i * 16 + 8, i * 16 + 12) == record.subrange(8, 12));
        assert(bytes.subrange(i * 16 + 12, i * 16 + 16) == record.subrange(12, 16));
        assert(record.subrange(0, 4) == word_bytes(blade.position.x));
        assert(record.subrange(4, 8) == word_bytes(blade.position.y));
        assert(record.subrange(8, 12) == word_bytes(blade.position.z));
        assert(record.subrange(12, 16) == word_bytes(blade.height));
        lemma_word_round_trip(bytes, i * 16, blade.position.x);
        lemma_word_round_trip(bytes, i * 16 + 4, blade.position.y);
        lemma_word_round_trip(bytes, i * 16 + 8, blade.position.z);
        lemma_word_round_trip(bytes, i * 16 + 12, blade.height);
    }
    assert(blades_in(bytes) =~= blades);
}

/// The bytes of a sequence of records, one record after the other.
pub open spec fn joined(records: Seq<[u8; 16]>) -> Seq<u8>
    decreases records.len(),
{
    if records.len() == 0 {
        Seq::empty()
    } else {
        joined(records.drop_last()) + records.last()@
    }
}

/// `bytemuck::cast_slice`, from records of sixteen bytes to bytes: the memory of the records,
/// which is their bytes, one record after the other.
#[verifier::external_body]
fn cast_records(records: &Vec<[u8; 16]>) -> (bytes: Vec<u8>)
    ensures
        bytes@ == joined(records@),
{
    bytemuck::cast_slice::<[u8; 16], u8>(records.as_slice()).to_vec()
}

/// The record of four components.
fn record_of(a: u32, b: u32, c: u32, d: u32) -> (record: [u8; 16])
    ensures
        record@ == word_bytes(a) + word_bytes(b) + word_bytes(c) + word_bytes(d),
{
    let record: [u8; 16] = [
        (a % 256) as u8,
        (a / 256 % 256) as u8,
        (a / 65536 % 256) as u8,
        (a / 16777216) as u8,
        (b % 256) as u8,
        (b / 256 % 256) as u8,
        (b / 65536 % 256) as u8,
        (b / 16777216) as u8,
        (c % 256) as u8,
        (c / 256 % 256) as u8,
        (c / 65536 % 256) as u8,
        (c / 16777216) as u8,
        (d % 256) as u8,
        (d / 256 % 256) as u8,
        (d / 65536 % 256) as u8,
        (d / 16777216) as u8,
    ];
    assert(record@ =~= word_bytes(a) + word_bytes(b) + word_bytes(c) + word_bytes(d));
    record
}

/// The record of one blade.
pub fn blade_record(blade: GrassBlade) -> (record: [u8; 16])
    ensures
        record@ == blade_bytes(blade),
{
    let record = record_of(blade.position.x, blade.position.y, blade.position.z, blade.height);
    assert(record@ =~= blade_bytes(blade));
    record
}

/// The record of one colour.
pub fn color_record(color: Vec4) -> (record: [u8; 16])
    ensures
        record@ == vec4_bytes(color),
{
    record_of(color.x, color.y, color.z, color.w)
}

/// The records of the blades, joined, are the contents of their instance buffer.
proof fn lemma_joined_blades(records: Seq<[u8; 16]>, blades: Seq<GrassBlade>)
    requires
        records.len() == blades.len(),
        forall|i: int| 0 <= i < blades.len() ==> (#[trigger] records[i])@ == blade_bytes(blades[i]),
    ensures
        joined(records) == instance_bytes(blades),
    decreases blades.len(),
{
    if blades.len() > 0 {
        lemma_joined_blades(records.drop_last(), blades.drop_last());
    }
}

/// Writes the instance buffer of a chunk: a record for each blade, from which the blades
/// can be read back.
pub fn write_blades(blades: &Vec<GrassBlade>) -> (bytes: Vec<u8>)
    ensures
        bytes@ == instance_bytes(blades@),
        bytes@.len() == blades@.len() * BLADE_STRIDE,
        blades_in(bytes@) == blades@,
{
    let mut records: Vec<[u8; 16]> = Vec::new();
    let mut i: usize = 0;
    while i < blades.len()
        invariant
            i <= blades.len(),
            records@.len() == i,
            forall|j: int| 0 <= j < i ==> (#[trigger] records@[j])@ == blade_bytes(blades@[j]),
        decreases blades.len() - i,
    {
        records.push(blade_record(blades[i]));
        i += 1;
    }
    let bytes = cast_records(&records);
    proof {
        lemma_joined_blades(records@, blades@);
        lemma_instance_bytes(blades@);
        lemma_blades_round_trip(blades@);
    }
    bytes
}

/// Writes the uniform block of a region: the main colour, then the bottom colour.
pub fn write_colors(main_color: Vec4, bottom_color: Vec4) -> (bytes: Vec<u8>)
    ensures
        bytes@ == uniform_bytes(main_color, bottom_color),
        bytes@.len() == UNIFORM_SIZE,
{
    let mut records: Vec<[u8; 16]> = Vec::new();
    records.push(color_record(main_color));
    records.push(color_record(bottom_color));
    let bytes = cast_records(&records);
    proof {
        reveal_with_fuel(joined, 3);
        assert(records@.drop_last().drop_last().len() == 0);
        assert(records@.drop_last().last() == records@[0]);
        assert(bytes@ =~= uniform_bytes(main_color, bottom_color));
    }
    bytes
}

/// Reads the component that starts at `at`.
pub fn read_word(bytes: &Vec<u8>, at: usize) -> (w: u32)
    requires
        at + 4 <= bytes.len(),
    ensures
        w == word_at(bytes@, at as int),
{
    let b0: u32 = bytes[at] as u32;
    let b1: u32 = bytes[at + 1] as u32;
    let b2: u32 = bytes[at + 2] as u32;
    let b3: u32 = bytes[at + 3] as u32;
    b0 + 256 * b1 + 65536 * b2 + 16777216 * b3
}

/// Reads the blades back from an instance buffer. A buffer that does not hold whole records
/// is refused.
pub fn read_blades(bytes: &Vec<u8>) -> (blades: Option<Vec<GrassBlade>>)
    ensures
        blades is Some <==> bytes.len() % BLADE_STRIDE == 0,
        blades is Some ==> blades.unwrap()@ == blades_in(bytes@),
{
    if bytes.len() % BLADE_STRIDE != 0 {
        return None;
    }
    let count: usize = bytes.len() / BLADE_STRIDE;
    let mut blades: Vec<GrassBlade> = Vec::new();
    let mut i: usize = 0;
    while i < count
        invariant
            i <= count,
            count * BLADE_STRIDE == bytes.len(),
            blades@.len() == i,
            forall|j: int| 0 <= j < i ==> blades@[j] == blade_at(bytes@, j),
        decreases count - i,
    {
        let start: usize = i * BLADE_STRIDE;
        let blade = GrassBlade {
            position: Vec3 {
                x: read_word(bytes, start + POSITION_OFFSET),
                y: read_word(bytes, start + POSITION_OFFSET + 4),
                z: read_word(bytes, start + POSITION_OFFSET + 8),
            },
            height: read_word(bytes, start + HEIGHT_OFFSET),
        };
        blades.push(blade);
        i += 1;
    }
    assert(blades@ =~= blades_in(bytes@));
    Some(blades)
}

} // verus!
