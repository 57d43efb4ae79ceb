use pipewire_wrapper::spa::pod::choice::enum_::{PodEnumRef, PodEnumValue};
use pipewire_wrapper::spa::pod::choice::none::PodNoneRef;
use pipewire_wrapper::spa::pod::choice::range::PodRangeRef;
use pipewire_wrapper::spa::pod::choice::{
    choice_value, choice_value_readable, ChoiceType, PodChoiceRef,
};
use pipewire_wrapper::spa::pod::control::PodControlRef;
use pipewire_wrapper::spa::pod::object::PodObjectRef;
use pipewire_wrapper::spa::pod::restricted::{check_align, write_align_padding, WritePod};
use pipewire_wrapper::spa::pod::string::PodStringRef;
use pipewire_wrapper::spa::pod::{FromPrimitiveValue, FromValue, PodError, PodIntRef, PodRef};
use pipewire_wrapper::spa::type_::Type;

#[test]
fn short_data_is_refused() {
    assert_eq!(PodRef::from_bytes(&[1, 2, 3]).err(), Some(PodError::DataIsTooShort(8, 3)));
    let bytes = [8u8, 0, 0, 0, 4, 0, 0, 0, 1, 0, 0, 0];
    assert_eq!(PodRef::from_bytes(&bytes).err(), Some(PodError::DataIsTooShort(16, 12)));
}

#[test]
fn unknown_types_are_not_downcast() {
    let bytes = [0u8, 0, 0, 0, 99, 0, 0, 0];
    let pod = PodRef::from_bytes(&bytes).unwrap();
    assert_eq!(pod.downcast().err(), Some(PodError::UnknownPodTypeToDowncast));
    assert_eq!(pod.value().err(), Some(PodError::UnknownPodTypeToDowncast));
}

#[test]
fn casts_check_the_type() {
    let int = PodIntRef::from_primitive(1).unwrap();
    let pod = int.as_pod();
    assert_eq!(pod.cast(Type::STRING).err(), Some(PodError::WrongPodTypeToCast(Type::STRING, Type::INT)));
    assert!(pod.cast(Type::POD).is_ok());
    assert!(pod.cast(Type::CHOICE).is_ok());
    assert!(pod.cast(Type::INT).is_ok());
}

#[test]
fn strings_must_end_with_nul() {
    let bytes = [2u8, 0, 0, 0, 8, 0, 0, 0, b'a', b'b'];
    let pod = PodRef::from_bytes(&bytes).unwrap();
    assert_eq!(PodStringRef::value(&pod).err(), Some(PodError::StringIsNotNullTerminated));
    let bytes = [3u8, 0, 0, 0, 8, 0, 0, 0, b'a', 0, 0];
    let pod = PodRef::from_bytes(&bytes).unwrap();
    assert_eq!(PodStringRef::value(&pod).unwrap(), b"a");
}

#[test]
fn choices_check_their_type_and_elements() {
    let allocated = PodEnumRef::<PodIntRef>::from_value(&PodEnumValue::new(1, vec![2])).unwrap();
    let pod = allocated.as_pod();
    assert_eq!(
        PodRangeRef::<PodIntRef>::value(&pod).err(),
        Some(PodError::UnexpectedChoiceType(ChoiceType::RANGE, ChoiceType::ENUM))
    );
    let mut none_bytes = allocated.as_bytes().to_vec();
    none_bytes[8] = 0;
    let none = PodRef::from_bytes(&none_bytes).unwrap();
    assert_eq!(PodNoneRef::<PodIntRef>::value(&none).err(), Some(PodError::UnexpectedChoiceElement));

    let string = PodStringRef::from_value(&b"x".to_vec()).unwrap();
    assert_eq!(choice_value(&string.as_pod()).err(), Some(PodError::UnsupportedChoiceElementType));
}

#[test]
fn controls_and_objects_check_their_type() {
    let bytes = [9u8, 0, 0, 0, 9, 0, 0, 0, 0, 0, 0, 0, 9, 0, 0, 0];
    let control = PodControlRef::from_slice(&bytes);
    assert_eq!(control.value().err(), Some(PodError::UnexpectedControlType(9)));

    let bytes = [8u8, 0, 0, 0, 15, 0, 0, 0, 7, 0, 0, 0, 0, 0, 0, 0];
    let pod = PodRef::from_bytes(&bytes).unwrap();
    assert_eq!(PodObjectRef::value(&pod).err(), Some(PodError::UnexpectedObjectType(7)));
}

#[test]
fn writes_need_an_aligned_buffer() {
    let mut buffer: Vec<u8> = vec![0, 0, 0];
    assert_eq!(PodIntRef::write_pod(&mut buffer, &5).err(), Some(PodError::PodIsNotAligned));
    assert_eq!(buffer, vec![0, 0, 0]);
    assert_eq!(check_align(&buffer).err(), Some(PodError::PodIsNotAligned));
    write_align_padding(&mut buffer).unwrap();
    assert_eq!(buffer.len(), 8);
    assert!(check_align(&buffer).is_ok());
    assert!(PodIntRef::write_pod(&mut buffer, &5).is_ok());
    assert_eq!(buffer.len(), 24);
}

#[test]
fn pod_error_messages() {
    assert_eq!(
        PodError::DataIsTooShort(16, 4).message(),
        "POD data size is too small for that type, expected 16 > actual 4"
    );
    assert_eq!(PodError::WrongPodTypeToCast(4, 8).message(), "Cannot cast Pod with type 8 to type 4");
    assert_eq!(PodError::UnexpectedObjectType(0).message(), "Unexpected object type 0");
    assert_eq!(
        PodError::UnexpectedChoiceType(3, 1234567890).message(),
        "Unexpected choice type, expected 3 actual 1234567890"
    );
    assert_eq!(PodError::PodIsNotAligned.message(), "Pod is not aligned!");
}

#[test]
fn incomplete_choices_are_detected() {
    let data = PodEnumValue::new(5, vec![1, 2]).to_alloc_pod::<PodIntRef>().unwrap();
    let mut bytes = data.as_pod().as_bytes().to_vec();
    assert!(PodChoiceRef::<PodIntRef>::readable(&PodRef::from_bytes(&bytes).unwrap()));
    assert!(choice_value_readable(&PodRef::from_bytes(&bytes).unwrap()));
    // the same three elements recorded as a step choice, which needs four
    bytes[8] = ChoiceType::STEP as u8;
    let step = PodRef::from_bytes(&bytes).unwrap();
    assert!(!PodChoiceRef::<PodIntRef>::readable(&step));
    assert!(!choice_value_readable(&step));
    // as a range choice, three elements are enough
    bytes[8] = ChoiceType::RANGE as u8;
    assert!(PodChoiceRef::<PodIntRef>::readable(&PodRef::from_bytes(&bytes).unwrap()));
}
