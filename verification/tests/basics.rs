use carrier::pointer::{ConstPtr, MutPtr};
use carrier::{Completion, IntoCompletion};

#[test]
fn test_result_okay() {
    fn foo() -> Result<i32, ()> {
        Ok(42)
    }
    fn bar() -> Result<String, ()> {
        Ok(match IntoCompletion::into_completion(foo()) {
            Completion::Value(x) => x,
            Completion::Abrupt(x) => { return x; }
        }.to_string())
    }
    assert_eq!(bar(), Ok("42".to_string()));
}

#[test]
fn test_result_fail() {
    #[derive(Debug, PartialEq)]
    struct MyError;

    impl From<()> for MyError {
        fn from(_err: ()) -> MyError { MyError }
    }

    fn foo() -> Result<i32, ()> {
        Err(())
    }
    fn bar() -> Result<String, MyError> {
        Ok(match IntoCompletion::into_completion(foo()) {
            Completion::Value(x) => x,
            Completion::Abrupt(x) => { return x; }
        }.to_string())
    }
    assert_eq!(bar(), Err(MyError));
}

#[test]
fn test_option_some() {
    fn foo() -> Option<i32> {
        Some(21)
    }
    fn bar() -> Option<i32> {
        Some(match IntoCompletion::into_completion(foo()) {
            Completion::Value(x) => x,
            Completion::Abrupt(x) => { return x; }
        } * 2)
    }
    assert_eq!(bar(), Some(42));
}

#[test]
fn test_option_none() {
    fn foo() -> Option<i32> {
        None
    }
    fn bar() -> Option<i32> {
        Some(match IntoCompletion::into_completion(foo()) {
            Completion::Value(x) => x,
            Completion::Abrupt(x) => { return x; }
        } * 2)
    }
    assert_eq!(bar(), None);
}

#[test]
fn test_option_none_type() {
    fn foo() -> Option<i32> {
        None
    }
    fn bar() -> Option<String> {
        Some(match IntoCompletion::into_completion(foo()) {
            Completion::Value(x) => x,
            Completion::Abrupt(x) => { return x; }
        }.to_string())
    }
    assert_eq!(bar(), None);
}

#[test]
fn test_result_okay_in_iterator_method() {
    #[derive(Debug, PartialEq)]
    struct MyError;

    impl From<()> for MyError {
        fn from(_err: ()) -> MyError { MyError }
    }

    fn foo() -> Result<i32, ()> {
        Ok(42)
    }
    fn bar() -> Result<String, MyError> {
        Ok(match IntoCompletion::into_completion(foo()) {
            Completion::Value(x) => x,
            Completion::Abrupt(x) => { return x; }
        }.to_string())
    }
    fn next() -> Option<Result<String, MyError>> {
        let val = match IntoCompletion::into_completion(bar()) {
            Completion::Value(x) => x,
            Completion::Abrupt(x) => { return x; }
        };
        Some(Ok(format!("[{}]", val)))
    }
    assert_eq!(next(), Some(Ok("[42]".to_string())));
}

#[test]
fn test_result_fail_in_iterator_method() {
    #[derive(Debug, PartialEq)]
    struct MyError;

    impl From<()> for MyError {
        fn from(_err: ()) -> MyError { MyError }
    }

    fn foo() -> Result<i32, ()> {
        Err(())
    }
    fn bar() -> Result<String, MyError> {
        Ok(match IntoCompletion::into_completion(foo()) {
            Completion::Value(x) => x,
            Completion::Abrupt(x) => { return x; }
        }.to_string())
    }
    fn next() -> Option<Result<String, MyError>> {
        match IntoCompletion::into_completion(bar()) {
            Completion::Value(x) => x,
            Completion::Abrupt(x) => { return x; }
        };
        None
    }
    assert_eq!(next(), Some(Err(MyError)));
}

#[test]
fn test_result_raw_ptr() {
    let num: i64 = 42;
    let target: &i64 = &num;
    let foo = || -> ConstPtr<i64> {
        ConstPtr::from_addr(std::ptr::from_ref(target).addr())
    };
    let bar = || -> Option<i64> {
        let x = match IntoCompletion::into_completion(foo()) {
            Completion::Value(x) => x,
            Completion::Abrupt(x) => { return x; }
        };
        // `x` holds the address of `num`, so reading through it is reading `num`.
        assert_eq!(x.addr(), std::ptr::from_ref(target).addr());
        Some(*target)
    };
    assert_eq!(bar(), Some(42));
}

#[test]
fn test_result_raw_ptr_mut() {
    fn foo() -> MutPtr<i64> {
        MutPtr::from_addr(0)
    }
    fn bar() -> Option<i64> {
        let x = match IntoCompletion::into_completion(foo()) {
            Completion::Value(x) => x,
            Completion::Abrupt(x) => { return x; }
        };
        panic!("read through the null pointer at address {}", x.addr())
    }
    assert_eq!(bar(), None);
}
