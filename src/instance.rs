//! The packed record that describes one instance of a bottom-level
//! structure inside a top-level structure, and its byte layout.
use vstd::prelude::*;

verus! {

/// Mask of the low 24 bits of a word: an instance id or a geometry offset
/// occupies them, the byte above holds a mask or flags.
pub const LOW_24_MASK: u32 = 0x00ff_ffff;

/// Size in bytes of one encoded instance record: 12 transform words, two
/// packed words and the 64-bit structure handle.
pub const INSTANCE_RECORD_SIZE: usize = 64;

/// Number of words in a 3x4 row-major affine transform.
pub const TRANSFORM_WORDS: usize = 12;

/// Instance flag that disables face culling for the instance's triangles.
pub const INSTANCE_TRIANGLE_CULL_DISABLE: u8 = 0x1;

/// The four little-endian bytes of a word.
pub open spec fn u32_le(x: u32) -> Seq<u8> {
    seq![
        (x & 0xff) as u8,
        ((x >> 8u32) & 0xff) as u8,
        ((x >> 16u32) & 0xff) as u8,
        ((x >> 24u32) & 0xff) as u8,
    ]
}

/// The eight little-endian bytes of a 64-bit word.
pub open spec fn u64_le(x: u64) -> Seq<u8> {
    u32_le((x & 0xffff_ffff) as u32) + u32_le((x >> 32u64) as u32)
}

/// The little-endian bytes of a sequence of words, one after another.
pub open spec fn words_le(ws: Seq<u32>) -> Seq<u8>
    decreases ws.len(),
{
    if ws.len() == 0 {
        seq![]
    } else {
        words_le(ws.drop_last()) + u32_le(ws.last())
    }
}

/// A 24-bit value packed with a byte above it, the value masked to its low
/// 24 bits.
pub open spec fn pack_spec(low: u32, high: u8) -> u32 {
    (low & 0x00ff_ffff) | ((high as u32) << 24u32)
}

/// One instance of a bottom-level structure. The transform holds the bit
/// patterns of twelve 32-bit floats, row by row.
#[derive(Clone, Copy, Debug)]
pub struct GeometryInstance {
    pub transform: [u32; 12],
    pub instance_id_and_mask: u32,
    pub instance_offset_and_flags: u32,
    pub acceleration_handle: u64,
}

/// The bytes of one record, in the order and layout that the device reads.
pub open spec fn record_bytes(inst: GeometryInstance) -> Seq<u8> {
    words_le(inst.transform@) + u32_le(inst.instance_id_and_mask) + u32_le(
        inst.instance_offset_and_flags,
    ) + u64_le(inst.acceleration_handle)
}

/// The bytes of a sequence of records, one after another.
pub open spec fn records_bytes(s: Seq<GeometryInstance>) -> Seq<u8>
    decreases s.len(),
{
    if s.len() == 0 {
        seq![]
    } else {
        records_bytes(s.drop_last()) + record_bytes(s.last())
    }
}

pub proof fn lemma_words_le_len(ws: Seq<u32>)
    ensures
        words_le(ws).len() == 4 * ws.len(),
    decreases ws.len(),
{
    if ws.len() > 0 {
        lemma_words_le_len(ws.drop_last());
    }
}

pub proof fn lemma_record_bytes_len(inst: GeometryInstance)
    ensures
        record_bytes(inst).len() == 64,
{
    lemma_words_le_len(inst.transform@);
}

pub proof fn lemma_records_bytes_len(s: Seq<GeometryInstance>)
    ensures
        records_bytes(s).len() == 64 * s.len(),
    decreases s.len(),
{
    if s.len() > 0 {
        lemma_records_bytes_len(s.drop_last());
        lemma_record_bytes_len(s.last());
    }
}

/// Record `i` of an encoded sequence stands at bytes `64 * i .. 64 * i + 64`.
pub proof fn lemma_records_bytes_index(s: Seq<GeometryInstance>, i: int)
    requires
        0 <= i < s.len(),
    ensures
        records_bytes(s).subrange(64 * i, 64 * i + 64) == record_bytes(s[i]),
    decreases s.len(),
{
    lemma_records_bytes_len(s.drop_last());
    lemma_record_bytes_len(s.last());
    let prefix = records_bytes(s.drop_last());
    if i < s.len() - 1 {
        lemma_records_bytes_index(s.drop_last(), i);
        assert(records_bytes(s).subrange(64 * i, 64 * i + 64) =~= prefix.subrange(
            64 * i,
            64 * i + 64,
        ));
    } else {
        assert(records_bytes(s).subrange(64 * i, 64 * i + 64) =~= record_bytes(s.last()));
    }
}

/// Distinct words have distinct byte encodings.
pub proof fn lemma_u32_le_injective(a: u32, b: u32)
    requires
        u32_le(a) == u32_le(b),
    ensures
        a == b,
{
    assert(u32_le(a)[0] == u32_le(b)[0]);
    assert(u32_le(a)[1] == u32_le(b)[1]);
    assert(u32_le(a)[2] == u32_le(b)[2]);
    assert(u32_le(a)[3] == u32_le(b)[3]);
    assert(a == b) by (bit_vector)
        requires
            (a & 0xff) as u8 == (b & 0xff) as u8,
            ((a >> 8u32) & 0xff) as u8 == ((b >> 8u32) & 0xff) as u8,
            ((a >> 16u32) & 0xff) as u8 == ((b >> 16u32) & 0xff) as u8,
            ((a >> 24u32) & 0xff) as u8 == ((b >> 24u32) & 0xff) as u8,
    ;
}

/// Word sequences of one length with the same bytes are equal.
pub proof fn lemma_words_le_injective(a: Seq<u32>, b: Seq<u32>)
    requires
        a.len() == b.len(),
        words_le(a) == words_le(b),
    ensures
        a == b,
    decreases a.len(),
{
    if a.len() > 0 {
        let n = a.len() as int;
        lemma_words_le_len(a.drop_last());
        lemma_words_le_len(b.drop_last());
        let pa = words_le(a.drop_last());
        let pb = words_le(b.drop_last());
        assert(pa =~= words_le(a).subrange(0, 4 * (n - 1)));
        assert(pb =~= words_le(b).subrange(0, 4 * (n - 1)));
        assert(u32_le(a.last()) =~= words_le(a).subrange(4 * (n - 1), 4 * n));
        assert(u32_le(b.last()) =~= words_le(b).subrange(4 * (n - 1), 4 * n));
        lemma_words_le_injective(a.drop_last(), b.drop_last());
        lemma_u32_le_injective(a.last(), b.last());
        assert(a =~= a.drop_last().push(a.last()));
        assert(b =~= b.drop_last().push(b.last()));
    }
}

/// Appends the four little-endian bytes of `x`.
fn push_u32_le(out: &mut Vec<u8>, x: u32)
    ensures
        final(out)@ == old(out)@ + u32_le(x),
{
    out.push((x & 0xff) as u8);
    out.push(((x >> 8u32) & 0xff) as u8);
    out.push(((x >> 16u32) & 0xff) as u8);
    out.push(((x >> 24u32) & 0xff) as u8);
    assert(final(out)@ =~= old(out)@ + u32_le(x));
}

/// The little-endian bytes of `words`, one word after another.
pub fn encode_words(words: &[u32]) -> (r: Vec<u8>)
    requires
        words@.len() * 4 <= usize::MAX,
    ensures
        r@ == words_le(words@),
        r@.len() == 4 * words@.len(),
{
    let mut out: Vec<u8> = Vec::new();
    let mut i: usize = 0;
    while i < words.len()
        invariant
            0 <= i <= words@.len(),
            out@ == words_le(words@.subrange(0, i as int)),
        decreases words@.len() - i,
    {
        push_u32_le(&mut out, words[i]);
        proof {
            let ws = words@.subrange(0, i + 1);
            assert(ws.drop_last() =~= words@.subrange(0, i as int));
        }
        i = i + 1;
    }
    proof {
        assert(words@.subrange(0, words@.len() as int) =~= words@);
        lemma_words_le_len(words@);
    }
    out
}

impl GeometryInstance {
    /// Id of the instance: the low 24 bits of its first packed word.
    pub open spec fn id_spec(self) -> u32 {
        self.instance_id_and_mask & 0x00ff_ffff
    }

    /// Visibility mask: the top byte of the first packed word.
    pub open spec fn mask_spec(self) -> u32 {
        self.instance_id_and_mask >> 24u32
    }

    /// Offset into the hit-group records: the low 24 bits of the second
    /// packed word.
    pub open spec fn offset_spec(self) -> u32 {
        self.instance_offset_and_flags & 0x00ff_ffff
    }

    /// Instance flags: the top byte of the second packed word.
    pub open spec fn flags_spec(self) -> u32 {
        self.instance_offset_and_flags >> 24u32
    }

    /// Builds an instance record. An id or offset above 24 bits keeps only
    /// its low 24 bits.
    pub fn new(
        transform: [u32; 12],
        id: u32,
        mask: u8,
        offset: u32,
        flags: u8,
        acceleration_handle: u64,
    ) -> (r: GeometryInstance)
        ensures
            r.transform@ == transform@,
            r.instance_id_and_mask == pack_spec(id, mask),
            r.instance_offset_and_flags == pack_spec(offset, flags),
            r.acceleration_handle == acceleration_handle,
            r.id_spec() == id & 0x00ff_ffff,
            r.mask_spec() == mask as u32,
            r.offset_spec() == offset & 0x00ff_ffff,
            r.flags_spec() == flags as u32,
    {
        let mut instance = GeometryInstance {
            transform,
            instance_id_and_mask: 0,
            instance_offset_and_flags: 0,
            acceleration_handle,
        };
        instance.set_id(id);
        instance.set_mask(mask);
        instance.set_offset(offset);
        instance.set_flags(flags);
        proof {
            lemma_pack_fields(id, mask);
            lemma_pack_fields(offset, flags);
            assert((0u32 | (id & 0x00ff_ffff)) | ((mask as u32) << 24u32) == pack_spec(id, mask))
                by (bit_vector);
            assert((0u32 | (offset & 0x00ff_ffff)) | ((flags as u32) << 24u32) == pack_spec(
                offset,
                flags,
            )) by (bit_vector);
        }
        instance
    }

    /// Merges the low 24 bits of `id` into the first packed word.
    pub fn set_id(&mut self, id: u32)
        ensures
            final(self).instance_id_and_mask == old(self).instance_id_and_mask | (id
                & 0x00ff_ffff),
            final(self).transform == old(self).transform,
            final(self).instance_offset_and_flags == old(self).instance_offset_and_flags,
            final(self).acceleration_handle == old(self).acceleration_handle,
    {
        let id = id & LOW_24_MASK;
        self.instance_id_and_mask = self.instance_id_and_mask | id;
    }

    /// Merges `mask` into the top byte of the first packed word.
    pub fn set_mask(&mut self, mask: u8)
        ensures
            final(self).instance_id_and_mask == old(self).instance_id_and_mask | ((mask as u32)
                << 24u32),
            final(self).transform == old(self).transform,
            final(self).instance_offset_and_flags == old(self).instance_offset_and_flags,
            final(self).acceleration_handle == old(self).acceleration_handle,
    {
        let mask = mask as u32;
        self.instance_id_and_mask = self.instance_id_and_mask | (mask << 24u32);
    }

    /// Merges the low 24 bits of `offset` into the second packed word.
    pub fn set_offset(&mut self, offset: u32)
        ensures
            final(self).instance_offset_and_flags == old(self).instance_offset_and_flags | (offset
                & 0x00ff_ffff),
            final(self).transform == old(self).transform,
            final(self).instance_id_and_mask == old(self).instance_id_and_mask,
            final(self).acceleration_handle == old(self).acceleration_handle,
    {
        let offset = offset & LOW_24_MASK;
        self.instance_offset_and_flags = self.instance_offset_and_flags | offset;
    }

    /// Merges `flags` into the top byte of the second packed word.
    pub fn set_flags(&mut self, flags: u8)
        ensures
            final(self).instance_offset_and_flags == old(self).instance_offset_and_flags | ((
            flags as u32) << 24u32),
            final(self).transform == old(self).transform,
            final(self).instance_id_and_mask == old(self).instance_id_and_mask,
            final(self).acceleration_handle == old(self).acceleration_handle,
    {
        let flags = flags as u32;
        self.instance_offset_and_flags = self.instance_offset_and_flags | (flags << 24u32);
    }

    /// The instance id stored in the record.
    pub fn instance_id(&self) -> (r: u32)
        ensures
            r == self.id_spec(),
    {
        self.instance_id_and_mask & LOW_24_MASK
    }

    /// The visibility mask stored in the record.
    pub fn mask(&self) -> (r: u8)
        ensures
            r as u32 == self.mask_spec(),
    {
        let w = self.instance_id_and_mask;
        assert(w >> 24u32 <= 0xff) by (bit_vector);
        (w >> 24u32) as u8
    }

    /// The geometry offset stored in the record.
    pub fn instance_offset(&self) -> (r: u32)
        ensures
            r == self.offset_spec(),
    {
        self.instance_offset_and_flags & LOW_24_MASK
    }

    /// The instance flags stored in the record.
    pub fn flags(&self) -> (r: u8)
        ensures
            r as u32 == self.flags_spec(),
    {
        let w = self.instance_offset_and_flags;
        assert(w >> 24u32 <= 0xff) by (bit_vector);
        (w >> 24u32) as u8
    }

    /// Appends the record's bytes, in the device's layout, to `out`.
    pub fn write_bytes(&self, out: &mut Vec<u8>)
        ensures
            final(out)@ == old(out)@ + record_bytes(*self),
    {
        let ghost start = out@;
        let mut i: usize = 0;
        while i < TRANSFORM_WORDS
            invariant
                0 <= i <= 12,
                out@ == start + words_le(self.transform@.subrange(0, i as int)),
            decreases 12 - i,
        {
            push_u32_le(out, self.transform[i]);
            proof {
                let ws = self.transform@.subrange(0, i + 1);
                assert(ws.drop_last() =~= self.transform@.subrange(0, i as int));
            }
            i = i + 1;
        }
        assert(self.transform@.subrange(0, 12) =~= self.transform@);
        push_u32_le(out, self.instance_id_and_mask);
        push_u32_le(out, self.instance_offset_and_flags);
        let h = self.acceleration_handle;
        push_u32_le(out, (h & 0xffff_ffff) as u32);
        push_u32_le(out, (h >> 32u64) as u32);
        assert(out@ =~= start + record_bytes(*self));
    }

    /// The record's bytes, in the device's layout.
    pub fn to_bytes(&self) -> (r: Vec<u8>)
        ensures
            r@ == record_bytes(*self),
            r@.len() == INSTANCE_RECORD_SIZE,
    {
        let mut out: Vec<u8> = Vec::new();
        self.write_bytes(&mut out);
        proof {
            lemma_record_bytes_len(*self);
            assert(out@ =~= record_bytes(*self));
        }
        out
    }
}

/// The packed word keeps the low 24 bits of the value and the whole byte.
pub proof fn lemma_pack_fields(low: u32, high: u8)
    ensures
        pack_spec(low, high) & 0x00ff_ffff == low & 0x00ff_ffff,
        pack_spec(low, high) >> 24u32 == high as u32,
{
    let h = high as u32;
    assert(h <= 0xff);
    assert(((low & 0x00ff_ffff) | (h << 24u32)) & 0x00ff_ffff == low & 0x00ff_ffff) by (
    bit_vector);
    assert(h <= 0xff ==> ((low & 0x00ff_ffff) | (h << 24u32)) >> 24u32 == h) by (bit_vector);
}

/// Packs the low 24 bits of `low` with `high` in the top byte.
pub fn pack_24_8(low: u32, high: u8) -> (r: u32)
    ensures
        r == pack_spec(low, high),
        r & 0x00ff_ffff == low & 0x00ff_ffff,
        r >> 24u32 == high as u32,
{
    proof {
        lemma_pack_fields(low, high);
    }
    (low & LOW_24_MASK) | ((high as u32) << 24u32)
}

/// Encodes records one after another, each in the device's layout: the
/// contents of an instance buffer.
pub fn encode_instances(instances: &Vec<GeometryInstance>) -> (r: Vec<u8>)
    requires
        instances@.len() * 64 <= usize::MAX,
    ensures
        r@ == records_bytes(instances@),
        r@.len() == instances@.len() * INSTANCE_RECORD_SIZE,
{
    let mut out: Vec<u8> = Vec::new();
    let mut i: usize = 0;
    while i < instances.len()
        invariant
            0 <= i <= instances@.len(),
            out@ == records_bytes(instances@.subrange(0, i as int)),
        decreases instances@.len() - i,
    {
        instances[i].write_bytes(&mut out);
        proof {
            let s = instances@.subrange(0, i + 1);
            assert(s.drop_last() =~= instances@.subrange(0, i as int));
        }
        i = i + 1;
    }
    proof {
        assert(instances@.subrange(0, instances@.len() as int) =~= instances@);
        lemma_records_bytes_len(instances@);
    }
    out
}

/// The packed word of a value keeps its low 24 bits only: a value and its
/// low 24 bits pack to the same word, for ids and offsets alike.
pub proof fn lemma_pack_keeps_low_24(value: u32, high: u8)
    ensures
        pack_spec(value, high) == pack_spec(value & 0x00ff_ffff, high),
        pack_spec(value, high) & 0x00ff_ffff == value & 0x00ff_ffff,
{
    lemma_pack_fields(value, high);
    assert((value & 0x00ff_ffff) == ((value & 0x00ff_ffff) & 0x00ff_ffff)) by (bit_vector);
}

} // verus!
