use smart_ptr::{unique, Pointer, Unique};

use core::sync::atomic::{AtomicBool, Ordering};

#[test]
fn should_drop_without_dealloc() {
    let mut is_drop = false;

    struct PanicOnDrop<'a>(&'a mut bool);

    impl<'a> Drop for PanicOnDrop<'a> {
        fn drop(&mut self) {
            *(self.0) = true;
        }
    }

    {
        let mut value = PanicOnDrop(&mut is_drop);
        let _ptr = unique::Unique::<_, ()>::new(Pointer::from_mut(&mut value), ());
    }

    assert!(is_drop);
}

#[test]
fn should_dealloc() {
    static IS_DEALLOC: AtomicBool = AtomicBool::new(false);
    pub struct MyDeleter;

    impl smart_ptr::Deleter for MyDeleter {
        fn delete<T: ?Sized>(&mut self, _: Pointer<'_, T>) {
            IS_DEALLOC.store(true, Ordering::SeqCst);
        }
    }

    {
        let mut value = false;
        let ptr = Unique::<bool, MyDeleter>::new(Pointer::from_mut(&mut value), MyDeleter);
        ptr.dispose();
    }

    assert!(IS_DEALLOC.load(Ordering::SeqCst));
}

#[test]
fn should_fail_on_null() {
    assert!(unique::Unique::<bool, ()>::from_ptr(Pointer::null(), ()).is_none());
}

#[test]
fn should_handle_mut_ref() {
    let mut test = false;
    let mut ptr: Unique<bool, ()> = (&mut test).into();
    *ptr.as_mut() = true;
    drop(ptr);
    assert!(test);
}

#[test]
fn should_handle_global_alloc_string() {
    let text = Box::new(format!("test"));
    let ptr: unique::Global<_> = text.into();
    let clone = ptr.clone();
    assert_eq!(ptr.as_ref(), "test");
    assert_eq!(clone.as_ref(), "test");
    drop(ptr);
}

#[test]
fn should_handle_global_alloc_boxed_str() {
    let text = format!("test").into_boxed_str();
    let ptr: unique::Global<_> = text.into();
    assert_eq!(ptr.as_ref(), "test");
    drop(ptr);
}
