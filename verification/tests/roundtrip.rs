use pipewire_wrapper::spa::param::ParamType;
use pipewire_wrapper::spa::pod::array::PodArrayRef;
use pipewire_wrapper::spa::pod::basic::BasicTypeValue;
use pipewire_wrapper::spa::pod::bytes::PodBytesRef;
use pipewire_wrapper::spa::pod::control::{ControlType, PodControlIterator};
use pipewire_wrapper::spa::pod::id::PodIdRef;
use pipewire_wrapper::spa::pod::iterator::{AllocatedPodValueIterator, PodIteratorBuilder};
use pipewire_wrapper::spa::pod::object::format::{Format, MediaType};
use pipewire_wrapper::spa::pod::object::enum_format::ObjectEnumFormatType;
use pipewire_wrapper::spa::pod::object::prop::{ObjectPropType, Prop};
use pipewire_wrapper::spa::pod::object::prop_core::{ObjectPropsIterator, PodPropKeyType};
use pipewire_wrapper::spa::pod::object::{ObjectType, PodObjectRef};
use pipewire_wrapper::spa::pod::sequence::PodSequenceRef;
use pipewire_wrapper::spa::pod::string::PodStringRef;
use pipewire_wrapper::spa::pod::struct_::PodStructRef;
use pipewire_wrapper::spa::pod::{
    primitive_value, BasicType, FromPrimitiveValue, FromValue, PodBoolRef, PodDoubleRef,
    PodFdRef, PodFractionRef, PodIntRef, PodLongRef, PodRectangleRef, PodRef,
};
use pipewire_wrapper::spa::type_::{FractionRef, RectangleRef, Type};

#[test]
fn primitive_pods_give_their_values_back() {
    let pod = PodIntRef::from_primitive(-42).unwrap();
    assert_eq!(primitive_value::<PodIntRef>(&pod.as_pod()).unwrap(), -42);
    assert_eq!(pod.as_bytes(), &[4, 0, 0, 0, 4, 0, 0, 0, 0xd6, 0xff, 0xff, 0xff, 0, 0, 0, 0]);

    let pod = PodLongRef::from_primitive(-5).unwrap();
    assert_eq!(primitive_value::<PodLongRef>(&pod.as_pod()).unwrap(), -5);
    assert_eq!(pod.size(), 16);

    let pod = PodBoolRef::from_primitive(true).unwrap();
    assert_eq!(primitive_value::<PodBoolRef>(&pod.as_pod()).unwrap(), true);

    let pod = PodDoubleRef::from_primitive(1.5f64.to_bits()).unwrap();
    assert_eq!(f64::from_bits(primitive_value::<PodDoubleRef>(&pod.as_pod()).unwrap()), 1.5);

    let pod = PodRectangleRef::from_primitive(RectangleRef::new(640, 480)).unwrap();
    assert_eq!(primitive_value::<PodRectangleRef>(&pod.as_pod()).unwrap(), RectangleRef::new(640, 480));

    let pod = PodFractionRef::from_primitive(FractionRef::new(30, 1)).unwrap();
    assert_eq!(primitive_value::<PodFractionRef>(&pod.as_pod()).unwrap(), FractionRef::new(30, 1));

    let pod = PodFdRef::from_primitive(7).unwrap();
    assert_eq!(primitive_value::<PodFdRef>(&pod.as_pod()).unwrap(), 7);
    assert_eq!(pod.as_pod().size(), 8);
}

#[test]
fn strings_and_bytes_give_their_values_back() {
    let pod = PodStringRef::from_value(&b"".to_vec()).unwrap();
    assert_eq!(pod.as_pod().size(), 1);
    assert_eq!(PodStringRef::value(&pod.as_pod()).unwrap(), b"");

    let pod = PodBytesRef::from_value(&vec![]).unwrap();
    assert_eq!(pod.as_pod().size(), 0);
    assert_eq!(pod.size(), 8);
    assert_eq!(PodBytesRef::value(&pod.as_pod()).unwrap(), b"");
}

#[test]
fn arrays_give_their_elements_back() {
    let elements = AllocatedPodValueIterator::<PodLongRef>::new(vec![7, -7]);
    let array = PodArrayRef::<PodLongRef>::from_value(&elements.iter()).unwrap();
    let pod = array.as_pod();
    assert_eq!(pod.size(), 24);
    assert_eq!(PodArrayRef::<PodLongRef>::body(&pod).child_size, 8);
    assert_eq!(PodArrayRef::<PodLongRef>::body(&pod).child_type, Type::LONG);
    let mut values = PodArrayRef::<PodLongRef>::value(&pod).unwrap();
    assert_eq!(values.collect_values(), vec![7, -7]);
}

#[test]
fn structs_give_their_fields_back() {
    let fields = PodIteratorBuilder::<PodIntRef>::from_values(&vec![1, 2]).unwrap().into_pod_iter();
    let allocated = PodStructRef::from_value(&fields.iter()).unwrap();
    let pod = allocated.as_pod();
    assert_eq!(pod.type_(), Type::STRUCT);
    assert_eq!(pod.size(), 32);
    let mut iter = PodStructRef::value(&pod).unwrap();
    assert_eq!(primitive_value::<PodIntRef>(&iter.next().unwrap()).unwrap(), 1);
    assert_eq!(primitive_value::<PodIntRef>(&iter.next().unwrap()).unwrap(), 2);
    assert!(iter.next().is_none());
}

#[test]
fn objects_are_read_back_as_enumerated_formats_unless_read_as_the_format_parameter() {
    let media = PodIdRef::from_primitive(MediaType::VIDEO).unwrap();
    let props = ObjectPropsIterator::<ObjectEnumFormatType>::build()
        .push_value(&ObjectEnumFormatType::MEDIA_TYPE(media.as_pod()))
        .unwrap()
        .into_pod_iter();
    let allocated =
        PodObjectRef::from_value(&ObjectType::OBJECT_ENUM_FORMAT(props.iter())).unwrap();
    let pod = allocated.as_pod();
    assert_eq!(PodObjectRef::body_type(&pod), Type::OBJECT_FORMAT);
    assert_eq!(PodObjectRef::body_id(&pod), 0);
    match PodObjectRef::value(&pod).unwrap() {
        ObjectType::OBJECT_ENUM_FORMAT(mut props) => {
            let prop = props.next().unwrap();
            assert_eq!(prop.key(), Format::MEDIA_TYPE);
            assert_eq!(prop.flags().bits(), 0);
            match prop.value().unwrap() {
                ObjectEnumFormatType::MEDIA_TYPE(v) => {
                    assert_eq!(primitive_value::<PodIdRef>(&v).unwrap(), MediaType::VIDEO)
                }
                _ => panic!(),
            }
            assert!(props.next().is_none());
        }
        _ => panic!(),
    }
    assert!(matches!(
        PodObjectRef::param_value(&pod, ParamType::FORMAT).unwrap(),
        ObjectType::OBJECT_FORMAT(_)
    ));
    let with_id = PodObjectRef::from_id_and_value(
        ParamType::ENUM_FORMAT,
        &ObjectType::OBJECT_ENUM_FORMAT(props.iter()),
    )
    .unwrap();
    assert_eq!(PodObjectRef::body_id(&with_id.as_pod()), ParamType::ENUM_FORMAT);
}

#[test]
fn prop_values_check_the_type_that_their_key_names() {
    let volume = PodIntRef::from_primitive(3).unwrap();
    let props = ObjectPropsIterator::<ObjectPropType>::build()
        .push_value(&ObjectPropType::VOLUME(volume.as_pod()))
        .unwrap()
        .into_pod_iter();
    let mut iter = props.iter();
    let prop = iter.next().unwrap();
    assert_eq!(prop.key(), Prop::VOLUME);
    assert_eq!(
        prop.value().err(),
        Some(pipewire_wrapper::spa::pod::PodError::WrongPodTypeToCast(Type::FLOAT, Type::INT))
    );
    assert_eq!(ObjectPropType::key_type(Prop::VOLUME), Some(Type::FLOAT));
    assert_eq!(ObjectPropType::key_type(Prop::UNKNOWN), None);
}

#[test]
fn basic_values_are_read_and_written_by_type() {
    let pod = PodIntRef::from_primitive(9).unwrap();
    match pod.as_pod().value().unwrap() {
        BasicTypeValue::INT(v) => assert_eq!(v, 9),
        _ => panic!(),
    }
    let mut buffer: Vec<u8> = Vec::new();
    PodRef::write_pod(&mut buffer, &BasicTypeValue::INT(9)).unwrap();
    assert_eq!(buffer, pod.as_bytes().to_vec());

    let mut buffer: Vec<u8> = Vec::new();
    PodRef::write_pod(&mut buffer, &BasicTypeValue::NONE).unwrap();
    assert_eq!(buffer, vec![0, 0, 0, 0, 1, 0, 0, 0]);
    let none = PodRef::from_bytes(&buffer).unwrap();
    assert!(matches!(none.downcast().unwrap(), BasicType::NONE));
    assert!(matches!(none.value().unwrap(), BasicTypeValue::NONE));

    let mut buffer: Vec<u8> = Vec::new();
    PodRef::write_pod(&mut buffer, &BasicTypeValue::STRING(b"ab")).unwrap();
    match PodRef::from_bytes(&buffer).unwrap().value().unwrap() {
        BasicTypeValue::STRING(s) => assert_eq!(s, b"ab"),
        _ => panic!(),
    }
}

#[test]
fn sequences_give_their_controls_back() {
    // a sequence body: unit and padding, then one MIDI control of three bytes
    let mut bytes: Vec<u8> = vec![32, 0, 0, 0, 16, 0, 0, 0];
    bytes.extend_from_slice(&[0, 0, 0, 0, 0, 0, 0, 0]);
    bytes.extend_from_slice(&[5, 0, 0, 0, 2, 0, 0, 0]);
    bytes.extend_from_slice(&[3, 0, 0, 0, 9, 0, 0, 0, 0x90, 0x40, 0x7f, 0, 0, 0, 0, 0]);
    let pod = PodRef::from_bytes(&bytes).unwrap();
    let mut controls: PodControlIterator = PodSequenceRef::value(&pod).unwrap();
    let control = controls.next().unwrap();
    assert_eq!(control.offset(), 5);
    match control.value().unwrap() {
        ControlType::MIDI(midi) => assert_eq!(PodBytesRef::value(&midi).unwrap(), &[0x90, 0x40, 0x7f]),
        _ => panic!(),
    }
    assert!(controls.next().is_none());
}
