use pipewire_wrapper::spa::param::ParamType;
use pipewire_wrapper::spa::pod::array::PodArrayRef;
use pipewire_wrapper::spa::pod::bytes::PodBytesRef;
use pipewire_wrapper::spa::pod::id::{PodIdRef, PodIdType};
use pipewire_wrapper::spa::pod::iterator::{AllocatedPodValueIterator, PodIteratorBuilder};
use pipewire_wrapper::spa::pod::object::format::{MediaSubType, MediaType, ObjectFormatType};
use pipewire_wrapper::spa::pod::object::prop_core::ObjectPropsIterator;
use pipewire_wrapper::spa::pod::object::{ObjectType, PodObjectRef};
use pipewire_wrapper::spa::pod::pod_buf::PodBuf;
use pipewire_wrapper::spa::pod::string::PodStringRef;
use pipewire_wrapper::spa::pod::{
    primitive_value, FromValue, PodBoolRef, PodIntRef, POD_ALIGN,
};
use pipewire_wrapper::spa::type_::Type;

#[test]
fn test_array() {
    let allocated_iter = AllocatedPodValueIterator::<PodIntRef>::new(vec![1, 2, 3]);
    let allocated_array = PodArrayRef::<PodIntRef>::from_value(&allocated_iter.iter()).unwrap();
    let array = allocated_array.as_pod();

    let mut array_value = PodArrayRef::<PodIntRef>::value(&array).unwrap();
    assert_eq!(array.type_(), Type::ARRAY);
    assert_eq!(array.size(), 20);
    assert_eq!(array_value.next(), Some(1i32));
    assert_eq!(array_value.next(), Some(2i32));
    assert_eq!(array_value.next(), Some(3i32));
    assert_eq!(array_value.next(), None);

    assert_eq!(PodArrayRef::<PodIntRef>::elements(&array), 3);

    let allocated_iter = AllocatedPodValueIterator::<PodBoolRef>::new(vec![]);
    let allocated_array = PodArrayRef::<PodBoolRef>::from_value(&allocated_iter.iter()).unwrap();
    let array = allocated_array.as_pod();

    let mut array_value = PodArrayRef::<PodBoolRef>::value(&array).unwrap();
    assert_eq!(array.type_(), Type::ARRAY);
    assert_eq!(array.size(), 8);
    assert_eq!(array_value.next(), None);

    assert_eq!(PodArrayRef::<PodBoolRef>::elements(&array), 0);
}

#[test]
fn bytes_test_from_value() {
    let bytes = vec![1u8, 2u8, 3u8];
    let bytes_wrong = [1u8, 1u8, 1u8];
    let allocated_pod = PodBuf::<PodBytesRef>::from_value(&bytes).unwrap().into_pod();
    let pod = allocated_pod.as_pod();
    assert_eq!(pod.as_bytes().as_ptr().align_offset(POD_ALIGN), 0);
    assert_eq!(pod.pod_size(), 11);
    assert_eq!(pod.size(), 3);
    assert_eq!(pod.type_(), Type::BYTES);
    assert_eq!(PodBytesRef::value(&pod).unwrap(), &bytes[..]);
    assert_ne!(PodBytesRef::value(&pod).unwrap(), &bytes_wrong[..]);
}

#[test]
fn id_test_from_value() {
    let allocated_pod = PodBuf::<PodIdRef>::from_value(&Type::POINTER).unwrap().into_pod();
    let pod = allocated_pod.as_pod();
    assert_eq!(pod.as_bytes().as_ptr().align_offset(POD_ALIGN), 0);
    assert_eq!(pod.pod_size(), 12);
    assert_eq!(pod.size(), 4);
    assert_eq!(pod.type_(), Type::ID);
    assert_eq!(primitive_value::<PodIdRef>(&pod).unwrap(), Type::POINTER);
}

#[test]
fn string_test_from_value() {
    let string = b"Test string".to_vec();
    let string_wrong = b"Test string wrong".to_vec();
    let allocated_pod = PodStringRef::from_value(&string).unwrap();
    let pod = allocated_pod.as_pod();
    assert_eq!(pod.as_bytes().as_ptr().align_offset(POD_ALIGN), 0);
    assert_eq!(pod.pod_size(), 20);
    assert_eq!(pod.size(), 12);
    assert_eq!(pod.type_(), Type::STRING);
    assert_eq!(PodStringRef::value(&pod).unwrap(), &string[..]);
    assert_ne!(PodStringRef::value(&pod).unwrap(), &string_wrong[..]);
}

#[test]
fn test_from_values() {
    let builder: PodIteratorBuilder<PodIntRef> = PodIteratorBuilder::new()
        .push_value(&123)
        .unwrap()
        .push_value(&1)
        .unwrap()
        .push_value(&2)
        .unwrap()
        .push_value(&3)
        .unwrap()
        .push_value(&4)
        .unwrap();
    let allocated_iter = builder.into_pod_iter();

    let mut iter = allocated_iter.iter();
    let mut v: Vec<i32> = Vec::new();
    while let Some(pod) = iter.next() {
        v.push(primitive_value::<PodIntRef>(&pod).unwrap());
    }
    assert_eq!(v, vec![123, 1, 2, 3, 4]);

    let builder: PodIteratorBuilder<PodIntRef> =
        PodIteratorBuilder::from_values(&vec![123, 1, 2, 3, 4]).unwrap();
    let allocated_iter = builder.into_pod_iter();

    let mut iter = allocated_iter.iter();
    let mut v: Vec<i32> = Vec::new();
    while let Some(pod) = iter.next() {
        v.push(primitive_value::<PodIntRef>(&pod).unwrap());
    }
    assert_eq!(v, vec![123, 1, 2, 3, 4]);
}

#[test]
fn test_from_pods() {
    let mut builder: PodIteratorBuilder<PodStringRef> = PodIteratorBuilder::new();

    let allocated_pod = PodBuf::<PodStringRef>::from_value(&b"asd".to_vec())
        .unwrap()
        .into_pod();
    builder = builder.push_pod(&allocated_pod.as_pod()).unwrap();

    let allocated_pod = PodBuf::<PodStringRef>::from_value(&b"def".to_vec())
        .unwrap()
        .into_pod();
    builder = builder.push_pod(&allocated_pod.as_pod()).unwrap();

    let allocated_iter = builder.into_pod_iter();

    let mut iter = allocated_iter.iter();
    let mut v: Vec<&[u8]> = Vec::new();
    while let Some(pod) = iter.next() {
        v.push(PodStringRef::value(&pod).unwrap());
    }
    assert_eq!(v.get(0).unwrap(), &&b"asd"[..]);
    assert_eq!(v.get(1).unwrap(), &&b"def"[..]);
}

#[test]
fn from_value() {
    let media_type = PodIdRef::from_value(&MediaType::AUDIO).unwrap();
    let media_subtype = PodIdRef::from_value(&MediaSubType::DSP).unwrap();
    let props = ObjectPropsIterator::<ObjectFormatType>::build()
        .push_value(&ObjectFormatType::MEDIA_TYPE(media_type.as_pod()))
        .unwrap()
        .push_value(&ObjectFormatType::MEDIA_SUBTYPE(media_subtype.as_pod()))
        .unwrap()
        .into_pod_iter();
    let mut allocated = PodObjectRef::from_value(&ObjectType::OBJECT_FORMAT(props.iter())).unwrap();
    allocated.set_body_id(123);

    assert_eq!(PodObjectRef::body_id(&allocated.as_pod()), 123);

    let pod = allocated.as_pod();
    if let ObjectType::OBJECT_FORMAT(mut props) =
        PodObjectRef::param_value(&pod, ParamType::FORMAT).unwrap()
    {
        if let ObjectFormatType::MEDIA_TYPE(v) = props.next().unwrap().value().unwrap() {
            assert_eq!(primitive_value::<PodIdRef>(&v).unwrap(), MediaType::AUDIO);
        } else {
            panic!()
        }
        if let ObjectFormatType::MEDIA_SUBTYPE(v) = props.next().unwrap().value().unwrap() {
            assert_eq!(primitive_value::<PodIdRef>(&v).unwrap(), MediaSubType::DSP);
        } else {
            panic!()
        }
        assert!(props.next().is_none())
    } else {
        panic!()
    }
}

#[test]
fn id_as_alloc_pod() {
    let allocated_pod = Type::POINTER.as_alloc_pod();
    let pod = allocated_pod.as_pod();
    assert_eq!(pod.pod_size(), 12);
    assert_eq!(pod.type_(), Type::ID);
    assert_eq!(primitive_value::<PodIdRef>(&pod).unwrap(), Type::POINTER);
}
