use pipewire_wrapper::error::Error;
use pipewire_wrapper::listeners::Listeners;
use pipewire_wrapper::spa::buffers::meta::{
    HeaderFlags, MetaBitmapRef, MetaBusyRef, MetaCursorRef, MetaData, MetaHeaderRef, MetaRef, MetaRegionRef,
    MetaType,
};
use pipewire_wrapper::spa::dict::{DictItemRef, DictRef};
use pipewire_wrapper::spa::interface::InterfaceRef;
use pipewire_wrapper::spa::io::{IOPositionRef, IOSegmentRef};
use pipewire_wrapper::spa::param::{Flags, ParamInfo, ParamInfoRef, ParamType};
use pipewire_wrapper::spa::pod::restricted::write_count_size;
use pipewire_wrapper::spa::type_::{RectangleRef, RegionRef, TimespecRef, PointRef};

#[test]
fn listener_ids_are_not_reused() {
    let mut listeners: Listeners<&str> = Listeners::default();
    let a = listeners.add("a");
    assert_eq!(listeners.remove(a), Some("a"));
    let b = listeners.add("b");
    assert_ne!(a, b);
    assert!(!listeners.contains(a));
    assert!(listeners.contains(b));
}

#[test]
fn param_info_keeps_id_and_flags() {
    let info = ParamInfo::from_ref(&ParamInfoRef { id: ParamType::FORMAT, flags: Flags::READWRITE, user: 0, seq: 0 });
    assert_eq!(info.id(), ParamType::FORMAT);
    assert_eq!(info.flags().bits(), 6);
    assert!(info.flags().contains(Flags::from_bits_retain(Flags::READ)));
    assert!(!Flags::from_bits_retain(Flags::SERIAL).contains(Flags::from_bits_retain(Flags::WRITE)));
}

#[test]
fn dict_gives_the_last_value_of_a_key() {
    let dict = DictRef::from_items(
        vec![
            DictItemRef::from_tuple((b"k".to_vec(), b"1".to_vec())),
            DictItemRef::from_tuple((b"j".to_vec(), b"2".to_vec())),
            DictItemRef::from_tuple((b"k".to_vec(), b"3".to_vec())),
        ],
        0,
    );
    assert_eq!(dict.n_items(), 3);
    let keys: Vec<&[u8]> = dict.iter().map(|item| item.key()).collect();
    assert_eq!(keys, vec![&b"k"[..], &b"j"[..], &b"k"[..]]);
    assert_eq!(dict.get(b"k"), Some(&b"3"[..]));
    assert_eq!(dict.get(b"j"), Some(&b"2"[..]));
    assert_eq!(dict.get(b"x"), None);
    assert_eq!(dict.items()[1].key(), b"j");
}

#[test]
fn meta_bitmaps_are_found_at_their_offsets() {
    // a cursor with its bitmap right after it, a 2x2 bitmap with a stride of 2
    let mut memory: Vec<u8> = vec![0; 28 + 20 + 4];
    memory[0] = 1; // id
    memory[24] = 28; // bitmap offset
    memory[28] = 5; // bitmap format
    memory[32] = 2; // width
    memory[36] = 2; // height
    memory[40] = 2; // stride
    memory[44] = 20; // data offset
    memory[48..52].copy_from_slice(&[1, 2, 3, 4]);
    let cursor = MetaCursorRef::from_bytes(&mut memory);
    assert!(cursor.is_valid());
    let bitmap = cursor.bitmap().unwrap();
    assert!(bitmap.is_valid());
    assert_eq!(bitmap.size(), RectangleRef::new(2, 2));
    assert_eq!(bitmap.bitmap().unwrap(), &[1, 2, 3, 4]);

    let mut empty = [0u8; 20];
    assert!(MetaBitmapRef::from_bytes(&mut empty).bitmap().is_none());

    let mut meta = MetaRef::new(MetaType::BUSY, 20, vec![0; 20]);
    match meta.data() {
        MetaData::BUSY(records) => {
            assert_eq!(records.len(), 16);
            records[12] = 3;
            assert_eq!(MetaBusyRef::from_bytes(&mut records[8..]).count(), 3);
        }
        _ => panic!(),
    }
    assert!(matches!(MetaRef::new(99, 0, vec![]).data(), MetaData::INVALID));
}

#[test]
fn positions_have_at_most_eight_segments() {
    let segment = IOSegmentRef {
        version: 0,
        flags: 0,
        start: 0,
        duration: 0,
        rate: 1.0f64.to_bits(),
        position: 0,
        bar: pipewire_wrapper::spa::io::IOSegmentBarRef { flags: 0, offset: 0, signature_num: 0, signature_denom: 0, bpm: 0, beat: 0 },
        video: pipewire_wrapper::spa::io::IOSegmentVideoRef { flags: 0, offset: 0, framerate: pipewire_wrapper::spa::type_::FractionRef::new(0, 1), hours: 0, minutes: 0, seconds: 0, frames: 0, field_count: 0 },
    };
    let clock = pipewire_wrapper::spa::io::IOClockRef {
        flags: 0, id: 1, name: b"clock".to_vec(), nsec: 0,
        rate: pipewire_wrapper::spa::type_::FractionRef::new(1, 48000), position: 0, duration: 1024,
        delay: 0, rate_diff: 1.0f64.to_bits(), next_nsec: 0,
    };
    let video = pipewire_wrapper::spa::io::IOVideoSizeRef {
        flags: 0, stride: 0, size: RectangleRef::new(0, 0), framerate: pipewire_wrapper::spa::type_::FractionRef::new(0, 1),
    };
    let mut position = IOPositionRef { clock, video, offset: 0, state: 2, n_segments: 12, segments: vec![segment; 8] };
    assert_eq!(position.segments().len(), 8);
    position.n_segments = 3;
    assert_eq!(position.segments().len(), 3);
    assert_eq!(position.clock().name(), b"clock");
}

#[test]
fn interfaces_compare_versions() {
    let interface = InterfaceRef::new(Some(b"Spa:Pointer:Interface:Loop".to_vec()), 3);
    assert!(interface.version_min(0));
    assert!(interface.version_min(3));
    assert!(!interface.version_min(4));
    assert_eq!(interface.type_(), Some(&b"Spa:Pointer:Interface:Loop"[..]));
}

#[test]
fn times_must_fit_the_format() {
    assert_eq!(TimespecRef::from_secs_and_nanos(3, 5).unwrap(), TimespecRef { tv_sec: 3, tv_nsec: 5 });
    assert!(matches!(TimespecRef::from_secs_and_nanos(u64::MAX, 0), Err(Error::WrongTimeFormat)));
}

#[test]
fn regions_are_edited_in_place() {
    let mut region: RegionRef = (PointRef::new(1, 2), RectangleRef::new(3, 4)).into();
    region.position_mut().set_x(10);
    region.size_mut().set_height(40);
    assert_eq!(region.position().x(), 10);
    assert_eq!(region.size().height(), 40);
    assert_eq!(region.size().width(), 3);
}

#[test]
fn written_sizes_are_counted() {
    let mut buffer: Vec<u8> = vec![0; 8];
    let n = write_count_size(&mut buffer, |b: &mut Vec<u8>| {
        b.extend_from_slice(&[1, 2, 3]);
        Ok(())
    })
    .unwrap();
    assert_eq!(n, 3);
}

#[test]
fn meta_header_fields_are_set_in_place() {
    let mut memory: Vec<u8> = vec![0; 32];
    {
        let mut header = MetaHeaderRef::from_bytes(&mut memory);
        header.set_flags(HeaderFlags::DISCONT | HeaderFlags::GAP);
        header.set_offset(7);
        header.set_pts(-5);
        header.set_dts_offset(3);
        header.set_seq(0x0102_0304_0506_0708);
        assert_eq!(header.flags(), 17);
        assert_eq!(header.offset(), 7);
        assert_eq!(header.pts(), -5);
        assert_eq!(header.dts_offset(), 3);
        assert_eq!(header.seq(), 0x0102_0304_0506_0708);
    }
    assert_eq!(&memory[0..8], &[17, 0, 0, 0, 7, 0, 0, 0]);
    assert_eq!(&memory[8..16], &(-5i64).to_le_bytes());
    assert_eq!(&memory[24..32], &[8, 7, 6, 5, 4, 3, 2, 1]);
}

#[test]
fn meta_region_and_cursor_are_set_in_place() {
    let mut memory: Vec<u8> = vec![0; 16];
    let mut region = MetaRegionRef::from_bytes(&mut memory);
    assert!(!region.is_valid());
    let r = RegionRef::new(PointRef::new(-1, 2), RectangleRef::new(640, 480));
    region.set_region(r);
    assert!(region.is_valid());
    assert_eq!(region.region(), r);

    let mut memory: Vec<u8> = vec![0; 28 + 20];
    let mut cursor = MetaCursorRef::from_bytes(&mut memory);
    cursor.set_id(9);
    cursor.set_flags(1);
    cursor.set_position(PointRef::new(10, -20));
    cursor.set_hotspot(PointRef::new(1, 1));
    cursor.set_bitmap_offset(28);
    assert_eq!(cursor.id(), 9);
    assert_eq!(cursor.flags(), 1);
    assert_eq!(cursor.position(), PointRef::new(10, -20));
    assert_eq!(cursor.hotspot(), PointRef::new(1, 1));
    let mut bitmap = cursor.bitmap().unwrap();
    bitmap.set_format(3);
    bitmap.set_size(RectangleRef::new(4, 2));
    bitmap.set_stride(-8);
    bitmap.set_offset(0);
    assert_eq!(bitmap.format(), 3);
    assert_eq!(bitmap.size(), RectangleRef::new(4, 2));
    assert_eq!(bitmap.stride(), -8);
    assert!(bitmap.bitmap().is_none());
    assert_eq!(memory[28], 3);
}
