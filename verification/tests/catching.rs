use trycatch::{carrier_of, settle, CatchError, Erased, Exception, ExceptionDowncast};

#[derive(Debug)]
struct MyE {}

impl Exception for MyE {
    fn name(&self) -> &'static str {
        "MyE"
    }

    fn into_any(self: Box<Self>) -> Erased {
        Erased { boxed: self }
    }
}

#[derive(Debug)]
struct E;

impl Exception for E {
    fn name(&self) -> &'static str {
        "E"
    }

    fn into_any(self: Box<Self>) -> Erased {
        Erased { boxed: self }
    }
}

#[derive(Debug)]
struct A;

impl Exception for A {
    fn name(&self) -> &'static str {
        "A"
    }

    fn into_any(self: Box<Self>) -> Erased {
        Erased { boxed: self }
    }
}

#[derive(Debug)]
struct B;

impl Exception for B {
    fn name(&self) -> &'static str {
        "B"
    }

    fn into_any(self: Box<Self>) -> Erased {
        Erased { boxed: self }
    }
}

/// What a throw hands to the unwinder: the carrier of `e`, erased.
fn throw<X: Exception>(e: X) -> Result<(), Erased> {
    Err(Box::new(carrier_of(e)).into_any())
}

/// What an abort with a message hands to the unwinder.
fn abort_with(message: &'static str) -> Result<(), Erased> {
    Err(Erased { boxed: Box::new(message) })
}

/// Runs `expr`, whose `Err` stands for an unwind, and settles its outcome.
fn catch<T>(expr: impl FnOnce() -> Result<T, Erased>) -> Result<T, CatchError> {
    settle(expr())
}

#[test]
fn it() {
    fn a() -> Result<(), Erased> {
        fn b() -> Result<(), Erased> {
            fn c() -> Result<(), Erased> {
                throw(MyE {})?;
                Ok(())
            }
            c()?;
            Ok(())
        }
        b()?;
        Ok(())
    }

    let r = catch(a);

    if let Err(CatchError::Exception(e)) = r {
        assert!(matches!(e.downcast::<MyE>(), MyE {}));
    } else {
        panic!("test failed");
    }
}

#[test]
fn catch_panics() {
    assert!(matches!(
        catch(|| abort_with("this is an intended test panic")),
        Err(CatchError::Panic(_))
    ));
}

#[test]
fn simple() {
    let r = catch(|| throw(E));
    if let Err(CatchError::Exception(e)) = r {
        assert!(matches!(e.downcast::<E>(), E));
    } else {
        panic!("test failed");
    }
}

#[test]
fn multi_exception() {
    fn c() -> Result<(), Erased> {
        throw(B)?;
        throw(A)?;
        Ok(())
    }
    let r = catch(c);

    if let Err(CatchError::Exception(e)) = r {
        match e.name() {
            "A" => assert!(matches!(e.downcast::<A>(), A)),
            "B" => assert!(matches!(e.downcast::<B>(), B)),
            _ => unreachable!(),
        }
    } else {
        panic!("test failed");
    }
}

#[test]
fn simpler() {
    assert!(matches!(catch(|| throw(A)), Err(CatchError::Exception(_))))
}

#[test]
fn completion_returns_the_value() {
    let r = catch(|| Ok(41 + 1));
    assert!(matches!(r, Ok(42)));
}

#[test]
fn first_throw_wins() {
    fn c() -> Result<(), Erased> {
        throw(B)?;
        throw(A)?;
        Ok(())
    }
    if let Err(CatchError::Exception(e)) = catch(c) {
        assert_eq!(e.name(), "B");
        assert!(e.try_downcast::<B>().is_ok());
    } else {
        panic!("test failed");
    }
}

#[test]
fn each_type_round_trips_on_its_own() {
    let caught_a = catch(|| throw(A));
    let caught_b = catch(|| throw(B));
    match (caught_a, caught_b) {
        (Err(CatchError::Exception(a)), Err(CatchError::Exception(b))) => {
            assert_eq!(a.name(), "A");
            assert_eq!(b.name(), "B");
            assert!(matches!(a.try_downcast::<A>(), Ok(A)));
            assert!(matches!(b.try_downcast::<B>(), Ok(B)));
        }
        _ => panic!("test failed"),
    }
}

#[test]
fn panic_payload_arrives_unchanged() {
    let r = catch(|| abort_with("message"));
    if let Err(CatchError::Panic(payload)) = r {
        let message = payload.boxed.downcast::<&'static str>();
        assert_eq!(*message.unwrap(), "message");
    } else {
        panic!("test failed");
    }
}

#[test]
fn bare_exception_is_no_carrier() {
    // An exception that reaches the catching side outside a carrier is not recognised.
    let r = catch(|| -> Result<(), Erased> { Err(Erased { boxed: Box::new(A) }) });
    assert!(matches!(r, Err(CatchError::Panic(_))));
}
