use pipewire_wrapper::spa::pod::choice::enum_::{PodEnumRef, PodEnumValue};
use pipewire_wrapper::spa::pod::choice::flags::PodFlagsValue;
use pipewire_wrapper::spa::pod::choice::none::PodNoneRef;
use pipewire_wrapper::spa::pod::choice::range::{PodRangeRef, PodRangeValue};
use pipewire_wrapper::spa::pod::choice::step::PodStepValue;
use pipewire_wrapper::spa::pod::choice::{
    choice_value, ChoiceStructType, ChoiceType, ChoiceValueType, PodChoiceRef,
};
use pipewire_wrapper::spa::pod::id::PodIdRef;
use pipewire_wrapper::spa::pod::object::format::AudioFormat;
use pipewire_wrapper::spa::pod::pod_buf::PodBuf;
use pipewire_wrapper::spa::pod::{
    primitive_value, BasicType, FromPrimitiveValue, FromValue, PodIntRef, PodRef, POD_ALIGN,
};
use pipewire_wrapper::spa::type_::Type;

#[test]
fn test_enum_choice() {
    let enum_choice = PodEnumValue::new(5, vec![1, 2, 3])
        .to_alloc_pod::<PodIntRef>()
        .unwrap();
    let enum_choice_pod = enum_choice.as_pod();

    assert_eq!(enum_choice_pod.pod_type(), Type::CHOICE);
    assert!(!PodChoiceRef::<PodIntRef>::value_choice(&enum_choice_pod));
    assert!(!PodChoiceRef::<PodIntRef>::fixated(&enum_choice_pod));
    if let ChoiceStructType::ENUM(val) = PodChoiceRef::<PodIntRef>::value(&enum_choice_pod).unwrap()
    {
        assert_eq!(val.default(), &5);
        assert_eq!(val.alternatives(), &vec![1, 2, 3]);
    } else {
        assert!(false)
    }
    if let BasicType::CHOICE(choice) = enum_choice_pod.downcast().unwrap() {
        if let ChoiceValueType::INT(ChoiceStructType::ENUM(val)) = choice_value(&choice).unwrap() {
            assert_eq!(val.default(), &5);
            assert_eq!(val.alternatives(), &vec![1, 2, 3]);
        } else {
            assert!(false)
        }
    } else {
        assert!(false)
    }
}

#[test]
fn test_flags_choice() {
    let flags_choice = PodFlagsValue::new(5, vec![1, 2, 3])
        .to_alloc_pod::<PodIntRef>()
        .unwrap();
    let flags_choice_pod = flags_choice.as_pod();

    assert_eq!(flags_choice_pod.pod_type(), Type::CHOICE);
    assert!(!PodChoiceRef::<PodIntRef>::value_choice(&flags_choice_pod));
    assert!(!PodChoiceRef::<PodIntRef>::fixated(&flags_choice_pod));
    if let ChoiceStructType::FLAGS(val) =
        PodChoiceRef::<PodIntRef>::value(&flags_choice_pod).unwrap()
    {
        assert_eq!(val.default(), &5);
        assert_eq!(val.alternatives(), &vec![1, 2, 3]);
    } else {
        assert!(false)
    }
    if let BasicType::CHOICE(choice) = flags_choice_pod.downcast().unwrap() {
        if let ChoiceValueType::INT(ChoiceStructType::FLAGS(val)) = choice_value(&choice).unwrap()
        {
            assert_eq!(val.default(), &5);
            assert_eq!(val.alternatives(), &vec![1, 2, 3]);
        } else {
            assert!(false)
        }
    } else {
        assert!(false)
    }
}

#[test]
fn test_range_choice() {
    let range_choice = PodRangeRef::<PodIntRef>::from_value(&PodRangeValue::new(5, 1, 10)).unwrap();
    let range_choice_pod = range_choice.as_pod();

    assert_eq!(range_choice_pod.pod_type(), Type::CHOICE);
    assert!(!PodChoiceRef::<PodIntRef>::value_choice(&range_choice_pod));
    assert!(!PodChoiceRef::<PodIntRef>::fixated(&range_choice_pod));
    if let ChoiceStructType::RANGE(val) =
        PodChoiceRef::<PodIntRef>::value(&range_choice_pod).unwrap()
    {
        assert_eq!(val.default(), &5);
        assert_eq!(val.min(), &1);
        assert_eq!(val.max(), &10);
    } else {
        assert!(false)
    }
    if let BasicType::CHOICE(choice) = range_choice_pod.downcast().unwrap() {
        if let ChoiceValueType::INT(ChoiceStructType::RANGE(val)) = choice_value(&choice).unwrap()
        {
            assert_eq!(val.default(), &5);
            assert_eq!(val.min(), &1);
            assert_eq!(val.max(), &10);
        } else {
            assert!(false)
        }
    } else {
        assert!(false)
    }
}

#[test]
fn test_step_choice() {
    let step_choice = PodStepValue::new(5, 1, 10, 2)
        .to_alloc_pod::<PodIntRef>()
        .unwrap();
    let step_choice_pod = step_choice.as_pod();

    assert_eq!(step_choice_pod.pod_type(), Type::CHOICE);
    assert!(!PodChoiceRef::<PodIntRef>::value_choice(&step_choice_pod));
    assert!(!PodChoiceRef::<PodIntRef>::fixated(&step_choice_pod));
    if let ChoiceStructType::STEP(val) = PodChoiceRef::<PodIntRef>::value(&step_choice_pod).unwrap()
    {
        assert_eq!(val.default(), &5);
        assert_eq!(val.min(), &1);
        assert_eq!(val.max(), &10);
        assert_eq!(val.step(), &2);
    } else {
        assert!(false)
    }
    if let BasicType::CHOICE(choice) = step_choice_pod.downcast().unwrap() {
        if let ChoiceValueType::INT(ChoiceStructType::STEP(val)) = choice_value(&choice).unwrap() {
            assert_eq!(val.default(), &5);
            assert_eq!(val.min(), &1);
            assert_eq!(val.max(), &10);
            assert_eq!(val.step(), &2);
        } else {
            assert!(false)
        }
    } else {
        assert!(false)
    }
}

#[test]
fn test_none_choice() {
    let none_choice = PodNoneRef::<PodIntRef>::from_primitive(123).unwrap();
    let none_choice_pod = none_choice.as_pod();

    assert_eq!(none_choice_pod.pod_type(), Type::CHOICE);
    assert!(!PodChoiceRef::<PodIntRef>::value_choice(&none_choice_pod));
    assert!(PodChoiceRef::<PodIntRef>::fixated(&none_choice_pod));
    if let ChoiceStructType::NONE(val) = PodChoiceRef::<PodIntRef>::value(&none_choice_pod).unwrap()
    {
        assert_eq!(val, 123);
    } else {
        assert!(false)
    }
    if let BasicType::CHOICE(choice) = none_choice_pod.downcast().unwrap() {
        if let ChoiceValueType::INT(ChoiceStructType::NONE(val)) = choice_value(&choice).unwrap() {
            assert_eq!(val, 123);
        } else {
            assert!(false)
        }
    } else {
        assert!(false)
    }
}

#[test]
fn test_value_choice() {
    let pod = PodIdRef::from_primitive(AudioFormat::F32).unwrap();
    let choice = pod.as_pod();

    assert_eq!(choice.pod_type(), Type::ID);
    assert!(PodChoiceRef::<PodIdRef>::value_choice(&choice));
    assert!(!PodChoiceRef::<PodIdRef>::fixated(&choice));
    if let ChoiceStructType::VALUE(val) = PodChoiceRef::<PodIdRef>::value(&choice).unwrap() {
        assert_eq!(val, AudioFormat::F32);
    } else {
        assert!(false)
    }
    if let BasicType::ID(val) = choice.downcast().unwrap() {
        assert_eq!(primitive_value::<PodIdRef>(&val).unwrap(), AudioFormat::F32);
    } else {
        assert!(false)
    }
}

#[test]
fn enum__test_from_value() {
    let v1 = PodEnumValue::new(123, vec![123, 234, 345, 456]);
    let v2 = PodEnumValue::new(123, vec![]);
    let allocated_pod = PodBuf::<PodEnumRef<PodIntRef>>::from_value(&v1)
        .unwrap()
        .into_pod();
    let pod = allocated_pod.as_pod();
    assert_eq!(pod.as_bytes().as_ptr().align_offset(POD_ALIGN), 0);
    assert_eq!(pod.pod_size(), 44);
    assert_eq!(pod.size(), 36);
    assert_eq!(pod.type_(), Type::CHOICE);
    assert_eq!(PodChoiceRef::<PodIntRef>::body(&pod).type_(), ChoiceType::ENUM);
    assert_eq!(PodChoiceRef::<PodIntRef>::body(&pod).flags(), 0);
    assert_eq!(PodChoiceRef::<PodIntRef>::body(&pod).child_type, Type::INT);
    assert_eq!(PodChoiceRef::<PodIntRef>::body(&pod).child_size, 4);
    assert_eq!(PodEnumRef::<PodIntRef>::value(&pod).unwrap(), v1);
    assert_ne!(PodEnumRef::<PodIntRef>::value(&pod).unwrap(), v2);

    let allocated_pod = PodBuf::<PodEnumRef<PodIntRef>>::from_value(&v2)
        .unwrap()
        .into_pod();
    let pod = allocated_pod.as_pod();
    assert_eq!(pod.as_bytes().as_ptr().align_offset(POD_ALIGN), 0);
    assert_eq!(pod.pod_size(), 28);
    assert_eq!(pod.size(), 20);
    assert_eq!(pod.type_(), Type::CHOICE);
    assert_eq!(PodChoiceRef::<PodIntRef>::body(&pod).type_(), ChoiceType::ENUM);
    assert_eq!(PodChoiceRef::<PodIntRef>::body(&pod).flags(), 0);
    assert_eq!(PodChoiceRef::<PodIntRef>::body(&pod).child_type, Type::INT);
    assert_eq!(PodChoiceRef::<PodIntRef>::body(&pod).child_size, 4);
    assert_eq!(PodEnumRef::<PodIntRef>::value(&pod).unwrap(), v2);
    assert_ne!(PodEnumRef::<PodIntRef>::value(&pod).unwrap(), v1);
}

#[test]
fn generic_pod_elements_read_any_choice() {
    let enum_choice = PodEnumValue::new(5, vec![1, 2, 3])
        .to_alloc_pod::<PodIntRef>()
        .unwrap();
    let pod = enum_choice.as_pod();
    let value = PodEnumRef::<PodRef>::value(&pod).unwrap();
    assert_eq!(value.alternatives().len(), 3);
    match PodChoiceRef::<PodRef>::value(&pod).unwrap() {
        ChoiceStructType::ENUM(v) => assert_eq!(v.alternatives().len(), 3),
        _ => panic!(),
    }
    let range = PodRangeRef::<PodIntRef>::from_value(&PodRangeValue::new(2, 1, 3)).unwrap();
    assert!(PodRangeRef::<PodRef>::value(&range.as_pod()).is_ok());
    assert_eq!(
        PodRangeRef::<PodIdRef>::value(&range.as_pod()).err(),
        Some(pipewire_wrapper::spa::pod::PodError::WrongPodTypeToCast(Type::ID, Type::INT))
    );
}

#[test]
fn zero_size_generic_elements_never_run_out() {
    let range = PodRangeRef::<PodIntRef>::from_value(&PodRangeValue::new(2, 1, 3)).unwrap();
    let mut bytes = range.as_pod().as_bytes().to_vec();
    bytes[16..20].copy_from_slice(&0u32.to_le_bytes());
    let pod = pipewire_wrapper::spa::pod::PodRef::from_bytes(&bytes).unwrap();
    // a range takes its three elements and finds a fourth
    assert!(PodChoiceRef::<PodRef>::readable(&pod));
    assert_eq!(
        PodRangeRef::<PodRef>::value(&pod).err(),
        Some(pipewire_wrapper::spa::pod::PodError::UnexpectedChoiceElement)
    );
    // an enum would gather elements without end
    bytes[8..12].copy_from_slice(&ChoiceType::ENUM.to_le_bytes());
    let pod = pipewire_wrapper::spa::pod::PodRef::from_bytes(&bytes).unwrap();
    assert!(!PodChoiceRef::<PodRef>::readable(&pod));
    // ints of size zero are no elements at all
    assert!(PodChoiceRef::<PodIntRef>::readable(&pod));
    assert_eq!(
        PodEnumRef::<PodIntRef>::value(&pod).err(),
        Some(pipewire_wrapper::spa::pod::PodError::DataIsTooShort(0, 12))
    );
}
