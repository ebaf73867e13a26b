use smart_ptr::{Origin, Pointer};

#[test]
fn null_pointer_is_null() {
    let ptr = Pointer::<u8>::null();
    assert!(ptr.is_null());
    assert_eq!(ptr.address(), 0);
    assert_eq!(ptr.origin(), Origin::Address);
}

#[test]
fn bare_address_is_kept() {
    let ptr = Pointer::<u8>::from_address(0x1234);
    assert!(!ptr.is_null());
    assert_eq!(ptr.address(), 0x1234);
    assert_eq!(ptr.origin(), Origin::Address);
    assert!(Pointer::<u8>::from_address(0).is_null());
}

#[test]
fn borrowed_pointer_has_the_address_of_the_place() {
    let mut value = [1u8, 2, 3];
    let expected = core::ptr::from_mut(&mut value).addr();
    let ptr = Pointer::from_mut(&mut value);
    assert!(!ptr.is_null());
    assert_eq!(ptr.address(), expected);
    assert_eq!(ptr.origin(), Origin::Borrow);
    assert_eq!(ptr.as_ref(), &[1, 2, 3]);
}

#[test]
fn borrowed_pointer_writes_to_the_place() {
    let mut value = 10u32;
    {
        let mut ptr = Pointer::from_mut(&mut value);
        *ptr.as_mut() = 11;
        assert_eq!(*ptr.as_ref(), 11);
    }
    assert_eq!(value, 11);
}

#[test]
fn heap_pointer_has_the_address_of_the_box() {
    let place = Box::new(77u64);
    let expected = core::ptr::from_ref(&*place).addr();
    let mut ptr = Pointer::from_box(place);
    assert_eq!(ptr.address(), expected);
    assert_eq!(ptr.origin(), Origin::Heap);
    assert_eq!(*ptr.as_ref(), 77);
    *ptr.as_mut() = 78;
    assert_eq!(ptr.address(), expected);
    let back = ptr.into_box();
    assert_eq!(*back, 78);
    assert_eq!(core::ptr::from_ref(&*back).addr(), expected);
}

#[test]
fn unsized_payloads_are_reached() {
    let mut ptr = Pointer::from_box(String::from("abc").into_boxed_str());
    assert_eq!(ptr.as_ref(), "abc");
    ptr.as_mut().make_ascii_uppercase();
    assert_eq!(&*ptr.into_box(), "ABC");

    let mut values = [3u8, 1, 2];
    let mut slice = Pointer::<[u8]>::from_mut(&mut values[..]);
    slice.as_mut().sort();
    assert_eq!(values, [1, 2, 3]);
}

#[test]
fn origin_is_a_plain_value() {
    assert_eq!(Origin::Heap, Origin::Heap.clone());
    assert_ne!(Origin::Heap, Origin::Borrow);
    assert_ne!(Origin::Borrow, Origin::Address);
    assert_eq!(format!("{:?}", Origin::Address), "Address");
}

#[test]
fn borrowed_at_pairs_an_address_with_a_place() {
    let mut value = 1u8;
    {
        let mut ptr = Pointer::borrowed_at(0x2000, &mut value);
        assert_eq!(ptr.address(), 0x2000);
        assert_eq!(ptr.origin(), Origin::Borrow);
        assert!(!ptr.is_null());
        *ptr.as_mut() = 2;
    }
    assert_eq!(value, 2);
}

#[test]
fn boxed_at_pairs_an_address_with_a_box() {
    let ptr = Pointer::boxed_at(0x3000, Box::new([7u8; 3]));
    assert_eq!(ptr.address(), 0x3000);
    assert_eq!(ptr.origin(), Origin::Heap);
    assert_eq!(ptr.as_ref(), &[7, 7, 7]);
    assert_eq!(*ptr.into_box(), [7, 7, 7]);
}
