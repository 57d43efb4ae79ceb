//! Buffer metadata: typed records stored in the memory that a buffer's metadata points to.
use vstd::prelude::*;
use vstd::bytes::{u32_to_le_bytes, u64_to_le_bytes};
use vstd::slice::slice_subrange;

use crate::spa::pod::restricted::{
    lemma_le_u32, lemma_le_u64, overwrite_at, read_u32, read_u64, spec_le_u32, spec_le_u64,
    spec_read_u32, spec_read_u64,
};
use crate::spa::pod::{spec_pod_from_bytes, PodError, PodRef, PodResult};
use crate::spa::type_::{PointRef, RectangleRef, RegionRef};

verus! {

/// Metadata types.
pub struct MetaType;

impl MetaType {
    pub const INVALID: u32 = 0;
    pub const HEADER: u32 = 1;
    pub const VIDEO_CROP: u32 = 2;
    pub const VIDEO_DAMAGE: u32 = 3;
    pub const BITMAP: u32 = 4;
    pub const CURSOR: u32 = 5;
    pub const CONTROL: u32 = 6;
    pub const BUSY: u32 = 7;
    pub const LAST: u32 = 8;
}

/// Flags of the buffer header metadata.
pub struct HeaderFlags;

impl HeaderFlags {
    /// Data is not continuous with the previous buffer.
    pub const DISCONT: u32 = 1;
    /// Data might be corrupted.
    pub const CORRUPTED: u32 = 2;
    /// Media specific marker.
    pub const MARKER: u32 = 4;
    /// Data contains a codec specific header.
    pub const HEADER: u32 = 8;
    /// Data contains media neutral data.
    pub const GAP: u32 = 16;
    /// Cannot be decoded independently.
    pub const DELTA_UNIT: u32 = 32;
}

/// A metadata element of a buffer: its type, its size and the memory holding it.
pub struct MetaRef {
    type_: u32,
    size: u32,
    data: Vec<u8>,
}

impl View for MetaRef {
    type V = Seq<u8>;

    /// The memory holding the metadata.
    closed spec fn view(&self) -> Seq<u8> {
        self.data@
    }
}

/// The typed records of a metadata element: the memory holding as many whole records of the
/// type as its size allows.
#[allow(non_camel_case_types)]
pub enum MetaData<'a> {
    INVALID,
    /// Records of [MetaHeaderRef].
    HEADER(&'a mut [u8]),
    /// Records of [MetaRegionRef].
    VIDEO_CROP(&'a mut [u8]),
    /// Records of [MetaRegionRef].
    VIDEO_DAMAGE(&'a mut [u8]),
    /// Records of [MetaBitmapRef].
    BITMAP(&'a mut [u8]),
    /// Records of [MetaCursorRef].
    CURSOR(&'a mut [u8]),
    /// Records of [MetaControlRef].
    CONTROL(&'a mut [u8]),
    /// Records of [MetaBusyRef].
    BUSY(&'a mut [u8]),
}

/// Size of one record of the metadata type `t`; zero for unknown types.
pub open spec fn spec_meta_record_size(t: u32) -> nat {
    if t == MetaType::HEADER {
        META_HEADER_SIZE as nat
    } else if t == MetaType::VIDEO_CROP || t == MetaType::VIDEO_DAMAGE {
        META_REGION_SIZE as nat
    } else if t == MetaType::BITMAP {
        META_BITMAP_SIZE as nat
    } else if t == MetaType::CURSOR {
        META_CURSOR_SIZE as nat
    } else if t == MetaType::CONTROL {
        META_CONTROL_SIZE as nat
    } else if t == MetaType::BUSY {
        META_BUSY_SIZE as nat
    } else {
        0
    }
}

impl<'a> MetaData<'a> {
    /// The records region, none for an invalid type.
    pub open spec fn spec_records(&self) -> Option<Seq<u8>> {
        match *self {
            MetaData::INVALID => None,
            MetaData::HEADER(b) => Some(b@),
            MetaData::VIDEO_CROP(b) => Some(b@),
            MetaData::VIDEO_DAMAGE(b) => Some(b@),
            MetaData::BITMAP(b) => Some(b@),
            MetaData::CURSOR(b) => Some(b@),
            MetaData::CONTROL(b) => Some(b@),
            MetaData::BUSY(b) => Some(b@),
        }
    }

    /// The metadata type of the variant.
    pub open spec fn spec_type(&self) -> u32 {
        match *self {
            MetaData::INVALID => MetaType::INVALID,
            MetaData::HEADER(_) => MetaType::HEADER,
            MetaData::VIDEO_CROP(_) => MetaType::VIDEO_CROP,
            MetaData::VIDEO_DAMAGE(_) => MetaType::VIDEO_DAMAGE,
            MetaData::BITMAP(_) => MetaType::BITMAP,
            MetaData::CURSOR(_) => MetaType::CURSOR,
            MetaData::CONTROL(_) => MetaType::CONTROL,
            MetaData::BUSY(_) => MetaType::BUSY,
        }
    }
}

impl MetaRef {
    /// A metadata element of type `type_` and size `size`, held by `data`.
    pub fn new(type_: u32, size: u32, data: Vec<u8>) -> (meta: Self)
        ensures
            meta.spec_type() == type_,
            meta.spec_size() == size,
            meta@ == data@,
    {
        MetaRef { type_, size, data }
    }

    /// Type of the metadata, see [MetaType].
    pub closed spec fn spec_type(&self) -> u32 {
        self.type_
    }

    /// Recorded size of the metadata.
    pub closed spec fn spec_size(&self) -> u32 {
        self.size
    }

    /// Type of the metadata, see [MetaType].
    pub fn type_(&self) -> (t: u32)
        ensures
            t == self.spec_type(),
    {
        self.type_
    }

    /// Set the type of the metadata.
    pub fn set_type(&mut self, type_: u32)
        ensures
            final(self).spec_type() == type_,
            final(self).spec_size() == old(self).spec_size(),
            final(self)@ == old(self)@,
    {
        self.type_ = type_;
    }

    /// Recorded size of the metadata.
    pub fn size(&self) -> (size: u32)
        ensures
            size == self.spec_size(),
    {
        self.size
    }

    /// Set the recorded size of the metadata.
    pub fn set_size(&mut self, size: u32)
        ensures
            final(self).spec_size() == size,
            final(self).spec_type() == old(self).spec_type(),
            final(self)@ == old(self)@,
    {
        self.size = size;
    }

    /// The records of the metadata, typed by its type: as many whole records as the
    /// recorded size allows. The memory must hold the recorded size.
    pub fn data(&mut self) -> (r: MetaData<'_>)
        requires
            old(self).spec_size() <= old(self)@.len(),
        ensures
            spec_meta_record_size(old(self).spec_type()) == 0 ==> r is INVALID,
            spec_meta_record_size(old(self).spec_type()) > 0 ==> r.spec_type() == old(
                self,
            ).spec_type() && r.spec_records() == Some(
                old(self)@.subrange(
                    0,
                    (old(self).spec_size() / spec_meta_record_size(old(self).spec_type()) as u32
                        * spec_meta_record_size(old(self).spec_type()) as u32) as int,
                ),
            ),
    {
        let t = self.type_;
        let record_size: usize = if t == MetaType::HEADER {
            META_HEADER_SIZE
        } else if t == MetaType::VIDEO_CROP || t == MetaType::VIDEO_DAMAGE {
            META_REGION_SIZE
        } else if t == MetaType::BITMAP {
            META_BITMAP_SIZE
        } else if t == MetaType::CURSOR {
            META_CURSOR_SIZE
        } else if t == MetaType::CONTROL {
            META_CONTROL_SIZE
        } else if t == MetaType::BUSY {
            META_BUSY_SIZE
        } else {
            return MetaData::INVALID;
        };
        let count = self.size / record_size as u32;
        assert(count * record_size as u32 <= self.size) by (nonlinear_arith)
            requires
                count == self.size / record_size as u32,
                record_size > 0,
        ;
        let len = (count * record_size as u32) as usize;
        let (bytes, _) = self.data.as_mut_slice().split_at_mut(len);
        if t == MetaType::HEADER {
            MetaData::HEADER(bytes)
        } else if t == MetaType::VIDEO_CROP {
            MetaData::VIDEO_CROP(bytes)
        } else if t == MetaType::VIDEO_DAMAGE {
            MetaData::VIDEO_DAMAGE(bytes)
        } else if t == MetaType::BITMAP {
            MetaData::BITMAP(bytes)
        } else if t == MetaType::CURSOR {
            MetaData::CURSOR(bytes)
        } else if t == MetaType::CONTROL {
            MetaData::CONTROL(bytes)
        } else {
            MetaData::BUSY(bytes)
        }
    }
}

/// `s` with the 32-bit word at `at` replaced by the encoding of `v`.
pub open spec fn spec_with_u32(s: Seq<u8>, at: int, v: u32) -> Seq<u8> {
    s.subrange(0, at) + spec_le_u32(v) + s.subrange(at + 4, s.len() as int)
}

/// `s` with the 64-bit word at `at` replaced by the encoding of `v`.
pub open spec fn spec_with_u64(s: Seq<u8>, at: int, v: u64) -> Seq<u8> {
    s.subrange(0, at) + spec_le_u64(v) + s.subrange(at + 8, s.len() as int)
}

/// Size of [MetaHeaderRef] in memory.
pub const META_HEADER_SIZE: usize = 32;

/// Buffer header metadata: flags, offset, timestamps and sequence number.
#[derive(Debug)]
pub struct MetaHeaderRef<'a> {
    data: &'a mut [u8],
}

impl<'a> View for MetaHeaderRef<'a> {
    type V = Seq<u8>;

    /// The bytes of the structure and of what follows it in the same memory.
    closed spec fn view(&self) -> Seq<u8> {
        self.data@
    }
}

impl<'a> MetaHeaderRef<'a> {
    #[verifier::type_invariant]
    closed spec fn wf(&self) -> bool {
        self.data@.len() >= META_HEADER_SIZE
    }

    /// The structure stored at the start of `bytes`, which must hold it.
    pub fn from_bytes(bytes: &'a mut [u8]) -> (r: Self)
        requires
            old(bytes)@.len() >= META_HEADER_SIZE,
        ensures
            r@ == old(bytes)@,
    {
        MetaHeaderRef { data: bytes }
    }

    /// Overwrite the 32-bit word at `at`.
    fn write_u32(&mut self, at: usize, value: u32)
        requires
            at + 4 <= META_HEADER_SIZE,
        ensures
            final(self)@ == spec_with_u32(old(self)@, at as int, value),
    {
        proof {
            use_type_invariant(&*self);
            lemma_le_u32(value);
        }
        let word = u32_to_le_bytes(value);
        overwrite_at(self.data, at, word.as_slice(), 4);
    }

    /// Overwrite the 64-bit word at `at`.
    fn write_u64(&mut self, at: usize, value: u64)
        requires
            at + 8 <= META_HEADER_SIZE,
        ensures
            final(self)@ == spec_with_u64(old(self)@, at as int, value),
    {
        proof {
            use_type_invariant(&*self);
            lemma_le_u64(value);
        }
        let word = u64_to_le_bytes(value);
        overwrite_at(self.data, at, word.as_slice(), 8);
    }

    /// Header flags, see [HeaderFlags].
    pub fn flags(&self) -> (v: u32)
        ensures
            v == spec_read_u32(self@, 0),
    {
        proof {
            use_type_invariant(self);
        }
        read_u32(self.data, 0)
    }

    /// Set the header flags.
    pub fn set_flags(&mut self, flags: u32)
        ensures
            final(self)@ == spec_with_u32(old(self)@, 0, flags),
    {
        self.write_u32(0, flags);
    }

    /// Offset in the current cycle.
    pub fn offset(&self) -> (v: u32)
        ensures
            v == spec_read_u32(self@, 4),
    {
        proof {
            use_type_invariant(self);
        }
        read_u32(self.data, 4)
    }

    /// Set the offset in the current cycle.
    pub fn set_offset(&mut self, offset: u32)
        ensures
            final(self)@ == spec_with_u32(old(self)@, 4, offset),
    {
        self.write_u32(4, offset);
    }

    /// Presentation timestamp in nanoseconds.
    pub fn pts(&self) -> (v: i64)
        ensures
            v == spec_read_u64(self@, 8) as i64,
    {
        proof {
            use_type_invariant(self);
        }
        read_u64(self.data, 8) as i64
    }

    /// Set the presentation timestamp.
    pub fn set_pts(&mut self, pts: i64)
        ensures
            final(self)@ == spec_with_u64(old(self)@, 8, pts as u64),
    {
        self.write_u64(8, pts as u64);
    }

    /// Decoding timestamp as a difference with the presentation timestamp.
    pub fn dts_offset(&self) -> (v: i64)
        ensures
            v == spec_read_u64(self@, 16) as i64,
    {
        proof {
            use_type_invariant(self);
        }
        read_u64(self.data, 16) as i64
    }

    /// Set the decoding timestamp offset.
    pub fn set_dts_offset(&mut self, dts_offset: i64)
        ensures
            final(self)@ == spec_with_u64(old(self)@, 16, dts_offset as u64),
    {
        self.write_u64(16, dts_offset as u64);
    }

    /// Sequence number, increments with a media specific frequency.
    pub fn seq(&self) -> (v: u64)
        ensures
            v == spec_read_u64(self@, 24),
    {
        proof {
            use_type_invariant(self);
        }
        read_u64(self.data, 24)
    }

    /// Set the sequence number.
    pub fn set_seq(&mut self, seq: u64)
        ensures
            final(self)@ == spec_with_u64(old(self)@, 24, seq),
    {
        self.write_u64(24, seq);
    }
}

/// Size of [MetaRegionRef] in memory.
pub const META_REGION_SIZE: usize = 16;

/// Region metadata, such as a crop region or a damaged region.
#[derive(Debug)]
pub struct MetaRegionRef<'a> {
    data: &'a mut [u8],
}

impl<'a> View for MetaRegionRef<'a> {
    type V = Seq<u8>;

    /// The bytes of the structure and of what follows it in the same memory.
    closed spec fn view(&self) -> Seq<u8> {
        self.data@
    }
}

impl<'a> MetaRegionRef<'a> {
    #[verifier::type_invariant]
    closed spec fn wf(&self) -> bool {
        self.data@.len() >= META_REGION_SIZE
    }

    /// The structure stored at the start of `bytes`, which must hold it.
    pub fn from_bytes(bytes: &'a mut [u8]) -> (r: Self)
        requires
            old(bytes)@.len() >= META_REGION_SIZE,
        ensures
            r@ == old(bytes)@,
    {
        MetaRegionRef { data: bytes }
    }

    /// Overwrite the 32-bit word at `at`.
    fn write_u32(&mut self, at: usize, value: u32)
        requires
            at + 4 <= META_REGION_SIZE,
        ensures
            final(self)@ == spec_with_u32(old(self)@, at as int, value),
    {
        proof {
            use_type_invariant(&*self);
            lemma_le_u32(value);
        }
        let word = u32_to_le_bytes(value);
        overwrite_at(self.data, at, word.as_slice(), 4);
    }

    /// The region: position and size.
    pub fn region(&self) -> (r: RegionRef)
        ensures
            r.position.x == spec_read_u32(self@, 0) as i32,
            r.position.y == spec_read_u32(self@, 4) as i32,
            r.size.width == spec_read_u32(self@, 8),
            r.size.height == spec_read_u32(self@, 12),
    {
        proof {
            use_type_invariant(self);
        }
        RegionRef::new(
            PointRef::new(read_u32(self.data, 0) as i32, read_u32(self.data, 4) as i32),
            RectangleRef::new(read_u32(self.data, 8), read_u32(self.data, 12)),
        )
    }

    /// Set the region.
    pub fn set_region(&mut self, region: RegionRef)
        ensures
            final(self)@ == spec_with_u32(
                spec_with_u32(
                    spec_with_u32(
                        spec_with_u32(old(self)@, 0, region.position.x as u32),
                        4,
                        region.position.y as u32,
                    ),
                    8,
                    region.size.width,
                ),
                12,
                region.size.height,
            ),
    {
        self.write_u32(0, region.position.x as u32);
        self.write_u32(4, region.position.y as u32);
        self.write_u32(8, region.size.width);
        self.write_u32(12, region.size.height);
    }

    /// Whether the region has a width and a height.
    pub fn is_valid(&self) -> (r: bool)
        ensures
            r == (spec_read_u32(self@, 8) != 0 && spec_read_u32(self@, 12) != 0),
    {
        proof {
            use_type_invariant(self);
        }
        read_u32(self.data, 8) != 0 && read_u32(self.data, 12) != 0
    }
}

/// Size of [MetaBitmapRef] in memory.
pub const META_BITMAP_SIZE: usize = 20;

/// Bitmap metadata: an image in the given format and size, stored inline after the structure.
#[derive(Debug)]
pub struct MetaBitmapRef<'a> {
    data: &'a mut [u8],
}

impl<'a> View for MetaBitmapRef<'a> {
    type V = Seq<u8>;

    /// The bytes of the structure and of what follows it in the same memory.
    closed spec fn view(&self) -> Seq<u8> {
        self.data@
    }
}

impl<'a> MetaBitmapRef<'a> {
    #[verifier::type_invariant]
    closed spec fn wf(&self) -> bool {
        self.data@.len() >= META_BITMAP_SIZE
    }

    /// The structure stored at the start of `bytes`, which must hold it.
    pub fn from_bytes(bytes: &'a mut [u8]) -> (r: Self)
        requires
            old(bytes)@.len() >= META_BITMAP_SIZE,
        ensures
            r@ == old(bytes)@,
    {
        MetaBitmapRef { data: bytes }
    }

    /// Overwrite the 32-bit word at `at`.
    fn write_u32(&mut self, at: usize, value: u32)
        requires
            at + 4 <= META_BITMAP_SIZE,
        ensures
            final(self)@ == spec_with_u32(old(self)@, at as int, value),
    {
        proof {
            use_type_invariant(&*self);
            lemma_le_u32(value);
        }
        let word = u32_to_le_bytes(value);
        overwrite_at(self.data, at, word.as_slice(), 4);
    }

    /// Video format of the bitmap; zero means no new bitmap information.
    pub fn format(&self) -> (v: u32)
        ensures
            v == spec_read_u32(self@, 0),
    {
        proof {
            use_type_invariant(self);
        }
        read_u32(self.data, 0)
    }

    /// Set the video format of the bitmap.
    pub fn set_format(&mut self, format: u32)
        ensures
            final(self)@ == spec_with_u32(old(self)@, 0, format),
    {
        self.write_u32(0, format);
    }

    /// Stride of the bitmap data.
    pub fn stride(&self) -> (v: i32)
        ensures
            v == spec_read_u32(self@, 12) as i32,
    {
        proof {
            use_type_invariant(self);
        }
        read_u32(self.data, 12) as i32
    }

    /// Set the stride of the bitmap data.
    pub fn set_stride(&mut self, stride: i32)
        ensures
            final(self)@ == spec_with_u32(old(self)@, 12, stride as u32),
    {
        self.write_u32(12, stride as u32);
    }

    /// Offset of the bitmap data from the start of this structure; zero means no image data.
    pub fn offset(&self) -> (v: u32)
        ensures
            v == spec_read_u32(self@, 16),
    {
        proof {
            use_type_invariant(self);
        }
        read_u32(self.data, 16)
    }

    /// Set the offset of the bitmap data.
    pub fn set_offset(&mut self, offset: u32)
        ensures
            final(self)@ == spec_with_u32(old(self)@, 16, offset),
    {
        self.write_u32(16, offset);
    }

    /// Width and height of the bitmap.
    pub fn size(&self) -> (r: RectangleRef)
        ensures
            r.width == spec_read_u32(self@, 4),
            r.height == spec_read_u32(self@, 8),
    {
        proof {
            use_type_invariant(self);
        }
        RectangleRef::new(read_u32(self.data, 4), read_u32(self.data, 8))
    }

    /// Set the width and height of the bitmap.
    pub fn set_size(&mut self, size: RectangleRef)
        ensures
            final(self)@ == spec_with_u32(spec_with_u32(old(self)@, 4, size.width), 8, size.height),
    {
        self.write_u32(4, size.width);
        self.write_u32(8, size.height);
    }

    /// The bitmap data: `stride` times `height` bytes at the offset, or none when the offset
    /// does not point past this structure. The memory must hold the data, and its size must
    /// fit 32 bits.
    pub fn bitmap(&self) -> (r: Option<&[u8]>)
        requires
            spec_read_u32(self@, 16) >= META_BITMAP_SIZE ==> (spec_read_u32(self@, 12) as u32)
                * spec_read_u32(self@, 8) <= u32::MAX && spec_read_u32(self@, 16) + (spec_read_u32(
                self@,
                12,
            ) as u32) * spec_read_u32(self@, 8) <= self@.len(),
        ensures
            spec_read_u32(self@, 16) < META_BITMAP_SIZE ==> r is None,
            spec_read_u32(self@, 16) >= META_BITMAP_SIZE ==> (r matches Some(b) && b@
                == self@.subrange(
                spec_read_u32(self@, 16) as int,
                spec_read_u32(self@, 16) + (spec_read_u32(self@, 12) as u32) * spec_read_u32(
                    self@,
                    8,
                ),
            )),
    {
        proof {
            use_type_invariant(self);
        }
        let offset = read_u32(self.data, 16);
        if offset >= META_BITMAP_SIZE as u32 {
            let len = read_u32(self.data, 12) as u32 * read_u32(self.data, 8);
            let total = self.data.len();
            assert(offset + len <= total);
            Some(slice_subrange(self.data, offset as usize, offset as usize + len as usize))
        } else {
            None
        }
    }

    /// Whether the bitmap has a known video format.
    pub fn is_valid(&self) -> (r: bool)
        ensures
            r == (spec_read_u32(self@, 0) != 0),
    {
        self.format() != 0
    }
}

/// Size of [MetaCursorRef] in memory.
pub const META_CURSOR_SIZE: usize = 28;

/// Cursor metadata: position and appearance of a pointing device.
#[derive(Debug)]
pub struct MetaCursorRef<'a> {
    data: &'a mut [u8],
}

impl<'a> View for MetaCursorRef<'a> {
    type V = Seq<u8>;

    /// The bytes of the structure and of what follows it in the same memory.
    closed spec fn view(&self) -> Seq<u8> {
        self.data@
    }
}

impl<'a> MetaCursorRef<'a> {
    #[verifier::type_invariant]
    closed spec fn wf(&self) -> bool {
        self.data@.len() >= META_CURSOR_SIZE
    }

    /// The structure stored at the start of `bytes`, which must hold it.
    pub fn from_bytes(bytes: &'a mut [u8]) -> (r: Self)
        requires
            old(bytes)@.len() >= META_CURSOR_SIZE,
        ensures
            r@ == old(bytes)@,
    {
        MetaCursorRef { data: bytes }
    }

    /// Overwrite the 32-bit word at `at`.
    fn write_u32(&mut self, at: usize, value: u32)
        requires
            at + 4 <= META_CURSOR_SIZE,
        ensures
            final(self)@ == spec_with_u32(old(self)@, at as int, value),
    {
        proof {
            use_type_invariant(&*self);
            lemma_le_u32(value);
        }
        let word = u32_to_le_bytes(value);
        overwrite_at(self.data, at, word.as_slice(), 4);
    }

    /// Cursor id; zero means there is no new cursor data.
    pub fn id(&self) -> (v: u32)
        ensures
            v == spec_read_u32(self@, 0),
    {
        proof {
            use_type_invariant(self);
        }
        read_u32(self.data, 0)
    }

    /// Set the cursor id.
    pub fn set_id(&mut self, id: u32)
        ensures
            final(self)@ == spec_with_u32(old(self)@, 0, id),
    {
        self.write_u32(0, id);
    }

    /// Cursor flags.
    pub fn flags(&self) -> (v: u32)
        ensures
            v == spec_read_u32(self@, 4),
    {
        proof {
            use_type_invariant(self);
        }
        read_u32(self.data, 4)
    }

    /// Set the cursor flags.
    pub fn set_flags(&mut self, flags: u32)
        ensures
            final(self)@ == spec_with_u32(old(self)@, 4, flags),
    {
        self.write_u32(4, flags);
    }

    /// Offset of the bitmap metadata from the start of this structure; zero means no new bitmap.
    pub fn bitmap_offset(&self) -> (v: u32)
        ensures
            v == spec_read_u32(self@, 24),
    {
        proof {
            use_type_invariant(self);
        }
        read_u32(self.data, 24)
    }

    /// Set the offset of the bitmap metadata.
    pub fn set_bitmap_offset(&mut self, bitmap_offset: u32)
        ensures
            final(self)@ == spec_with_u32(old(self)@, 24, bitmap_offset),
    {
        self.write_u32(24, bitmap_offset);
    }

    /// Position of the cursor on screen.
    pub fn position(&self) -> (p: PointRef)
        ensures
            p.x == spec_read_u32(self@, 8) as i32,
            p.y == spec_read_u32(self@, 12) as i32,
    {
        proof {
            use_type_invariant(self);
        }
        PointRef::new(read_u32(self.data, 8) as i32, read_u32(self.data, 12) as i32)
    }

    /// Set the position of the cursor on screen.
    pub fn set_position(&mut self, position: PointRef)
        ensures
            final(self)@ == spec_with_u32(
                spec_with_u32(old(self)@, 8, position.x as u32),
                12,
                position.y as u32,
            ),
    {
        self.write_u32(8, position.x as u32);
        self.write_u32(12, position.y as u32);
    }

    /// Offsets of the hotspot in the bitmap.
    pub fn hotspot(&self) -> (p: PointRef)
        ensures
            p.x == spec_read_u32(self@, 16) as i32,
            p.y == spec_read_u32(self@, 20) as i32,
    {
        proof {
            use_type_invariant(self);
        }
        PointRef::new(read_u32(self.data, 16) as i32, read_u32(self.data, 20) as i32)
    }

    /// Set the offsets of the hotspot in the bitmap.
    pub fn set_hotspot(&mut self, hotspot: PointRef)
        ensures
            final(self)@ == spec_with_u32(
                spec_with_u32(old(self)@, 16, hotspot.x as u32),
                20,
                hotspot.y as u32,
            ),
    {
        self.write_u32(16, hotspot.x as u32);
        self.write_u32(20, hotspot.y as u32);
    }

    /// The bitmap metadata at the bitmap offset, or none when the offset does not point
    /// past this structure. The memory must hold the bitmap metadata.
    pub fn bitmap(self) -> (r: Option<MetaBitmapRef<'a>>)
        requires
            spec_read_u32(self@, 24) >= META_CURSOR_SIZE ==> spec_read_u32(self@, 24)
                + META_BITMAP_SIZE <= self@.len(),
        ensures
            spec_read_u32(self@, 24) < META_CURSOR_SIZE ==> r is None,
            spec_read_u32(self@, 24) >= META_CURSOR_SIZE ==> (r matches Some(b) && b@
                == self@.subrange(spec_read_u32(self@, 24) as int, self@.len() as int)),
    {
        proof {
            use_type_invariant(&self);
        }
        let offset = self.bitmap_offset();
        if offset >= META_CURSOR_SIZE as u32 {
            let MetaCursorRef { data } = self;
            let (_, rest) = data.split_at_mut(offset as usize);
            Some(MetaBitmapRef::from_bytes(rest))
        } else {
            None
        }
    }

    /// Whether the cursor id is valid.
    pub fn is_valid(&self) -> (r: bool)
        ensures
            r == (spec_read_u32(self@, 0) != 0),
    {
        self.id() != 0
    }
}

/// Size of [MetaControlRef] in memory.
pub const META_CONTROL_SIZE: usize = 16;

/// Control metadata: a timed set of events, as a sequence pod.
#[derive(Debug)]
pub struct MetaControlRef<'a> {
    data: &'a mut [u8],
}

impl<'a> View for MetaControlRef<'a> {
    type V = Seq<u8>;

    /// The bytes of the structure and of what follows it in the same memory.
    closed spec fn view(&self) -> Seq<u8> {
        self.data@
    }
}

impl<'a> MetaControlRef<'a> {
    #[verifier::type_invariant]
    closed spec fn wf(&self) -> bool {
        self.data@.len() >= META_CONTROL_SIZE
    }

    /// The structure stored at the start of `bytes`, which must hold it.
    pub fn from_bytes(bytes: &'a mut [u8]) -> (r: Self)
        requires
            old(bytes)@.len() >= META_CONTROL_SIZE,
        ensures
            r@ == old(bytes)@,
    {
        MetaControlRef { data: bytes }
    }

    /// The sequence pod of the control metadata.
    pub fn sequence(&self) -> (r: PodResult<PodRef<'_>>)
        ensures
            spec_pod_from_bytes(self@) matches Ok(p) ==> r matches Ok(pod) && pod@ == p,
            spec_pod_from_bytes(self@) matches Err(e) ==> r == Err::<PodRef<'_>, PodError>(e),
    {
        PodRef::from_bytes(self.data)
    }
}

/// Size of [MetaBusyRef] in memory.
pub const META_BUSY_SIZE: usize = 8;

/// Busy metadata: a counter of the users of the buffer.
#[derive(Debug)]
pub struct MetaBusyRef<'a> {
    data: &'a mut [u8],
}

impl<'a> View for MetaBusyRef<'a> {
    type V = Seq<u8>;

    /// The bytes of the structure and of what follows it in the same memory.
    closed spec fn view(&self) -> Seq<u8> {
        self.data@
    }
}

impl<'a> MetaBusyRef<'a> {
    #[verifier::type_invariant]
    closed spec fn wf(&self) -> bool {
        self.data@.len() >= META_BUSY_SIZE
    }

    /// The structure stored at the start of `bytes`, which must hold it.
    pub fn from_bytes(bytes: &'a mut [u8]) -> (r: Self)
        requires
            old(bytes)@.len() >= META_BUSY_SIZE,
        ensures
            r@ == old(bytes)@,
    {
        MetaBusyRef { data: bytes }
    }

    /// Busy flags.
    pub fn flags(&self) -> (v: u32)
        ensures
            v == spec_read_u32(self@, 0),
    {
        proof {
            use_type_invariant(self);
        }
        read_u32(self.data, 0)
    }

    /// Number of users of the buffer.
    pub fn count(&self) -> (v: u32)
        ensures
            v == spec_read_u32(self@, 4),
    {
        proof {
            use_type_invariant(self);
        }
        read_u32(self.data, 4)
    }
}

/// A field set in a metadata record is read back as set, and every field that does not
/// overlap it keeps its value.
pub proof fn lemma_set_then_get(s: Seq<u8>, at: int, v: u32, other: int)
    requires
        0 <= at,
        at + 4 <= s.len(),
        0 <= other,
        other + 4 <= s.len(),
        other + 4 <= at || at + 4 <= other,
    ensures
        spec_read_u32(spec_with_u32(s, at, v), at) == v,
        spec_read_u32(spec_with_u32(s, at, v), other) == spec_read_u32(s, other),
        spec_with_u32(s, at, v).len() == s.len(),
{
    lemma_le_u32(v);
    let t = spec_with_u32(s, at, v);
    assert(t.subrange(at, at + 4) =~= spec_le_u32(v));
    assert(t.subrange(other, other + 4) =~= s.subrange(other, other + 4));
}

/// A 64-bit field set in a metadata record is read back as set, and every field that does
/// not overlap it keeps its value.
pub proof fn lemma_set_then_get_u64(s: Seq<u8>, at: int, v: u64, other: int, other_len: int)
    requires
        0 <= at,
        at + 8 <= s.len(),
        0 <= other,
        other_len == 4 || other_len == 8,
        other + other_len <= s.len(),
        other + other_len <= at || at + 8 <= other,
    ensures
        spec_read_u64(spec_with_u64(s, at, v), at) == v,
        other_len == 4 ==> spec_read_u32(spec_with_u64(s, at, v), other) == spec_read_u32(s, other),
        other_len == 8 ==> spec_read_u64(spec_with_u64(s, at, v), other) == spec_read_u64(s, other),
        spec_with_u64(s, at, v).len() == s.len(),
{
    lemma_le_u64(v);
    let t = spec_with_u64(s, at, v);
    assert(t.subrange(at, at + 8) =~= spec_le_u64(v));
    assert(t.subrange(other, other + other_len) =~= s.subrange(other, other + other_len));
}

/// A signed field is stored as the bits of its value: reading them back as signed gives the
/// value set.
pub proof fn lemma_signed_bits(a: i32, b: i64)
    ensures
        (a as u32) as i32 == a,
        (b as u64) as i64 == b,
{
    assert((a as u32) as i32 == a) by (bit_vector);
    assert((b as u64) as i64 == b) by (bit_vector);
}

} // verus!
