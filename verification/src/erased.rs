//! The type-erasure boundary of the registry.
//!
//! One store holds behaviors of every input/output shape, so a behavior is
//! kept behind a `dyn` function type whose input and output pass through
//! `Box<dyn Any>`, and the concrete types are restored by a runtime-checked
//! downcast. Verus does not read `dyn` types: the two carriers below are
//! opaque, and the five small functions that touch them are trusted. None of
//! them states anything about the values carried; every caller treats what
//! comes back as undetermined and checks it.

use vstd::prelude::*;

verus! {

/// An owned value whose concrete type has been erased. It can be recovered
/// only by a downcast to the exact type that went in.
///
/// Relies on `core::any::Any`: the payload sits in a `Box<dyn Any>`, which
/// Verus cannot read, so the contents are not modeled.
#[verifier::external_body]
pub(crate) struct AnyBox {
    inner: Box<dyn core::any::Any>,
}

/// A stored behavior with its input and output types erased. It may refuse
/// to run (a single-use behavior that was already spent), and what it hands
/// back is whatever the underlying behavior computed; neither is modeled.
///
/// Relies on `dyn FnMut`, which Verus cannot read, so the struct is opaque.
#[verifier::external_body]
pub struct ErasedMock {
    run: Box<dyn FnMut(AnyBox) -> Option<AnyBox>>,
}

/// Marks the output of an erased behavior that was handed an input of a type
/// other than the one it was registered for. The marker is private, so a
/// downcast to any caller-visible output type fails on it.
struct MismatchToken;

/// Boxes a value, erasing its type.
///
/// Relies on `Box::new` and the coercion to `Box<dyn Any>`. The contents of
/// an `AnyBox` are not modeled, so nothing is stated of the result.
#[verifier::external_body]
pub(crate) fn any_new<T: 'static>(value: T) -> AnyBox {
    AnyBox { inner: Box::new(value) }
}

/// Recovers the value boxed by `any_new` when `T` is exactly the type that
/// was boxed, and returns `None` otherwise.
///
/// Relies on `Box::<dyn Any>::downcast`. The contents of an `AnyBox` are not
/// modeled, so nothing is stated of the result.
#[verifier::external_body]
pub(crate) fn any_downcast<T: 'static>(b: AnyBox) -> Option<T> {
    match b.inner.downcast::<T>() {
        Ok(v) => Some(*v),
        Err(_) => None,
    }
}

/// Stores an erased behavior that may run any number of times.
///
/// Relies on `Box::new` and the coercion to `dyn FnMut`. The stored call is
/// no longer checked by Verus, so the argument must accept every erased
/// input.
#[verifier::external_body]
fn erased_from_fn<G: Fn(AnyBox) -> AnyBox + 'static>(g: G) -> ErasedMock
    requires
        forall|a: AnyBox| call_requires(g, (a,)),
{
    ErasedMock { run: Box::new(move |a| Some(g(a))) }
}

/// Stores an erased behavior that may run at most once; from the second run
/// on, the result is `None`.
///
/// Relies on `Box::new` and the coercion to `dyn FnMut`. The stored call is
/// no longer checked by Verus, so the argument must accept every erased
/// input.
#[verifier::external_body]
fn erased_from_fn_once<G: FnOnce(AnyBox) -> AnyBox + 'static>(g: G) -> ErasedMock
    requires
        forall|a: AnyBox| call_requires(g, (a,)),
{
    let mut slot = Some(g);
    ErasedMock { run: Box::new(move |a| slot.take().map(|f| f(a))) }
}

/// Runs a stored behavior on one erased input. `None` means the behavior was
/// single-use and already spent; nothing is stated of the result.
///
/// Relies on calling through `dyn FnMut`, which Verus cannot read.
#[verifier::external_body]
pub(crate) fn erased_call(m: &mut ErasedMock, input: AnyBox) -> Option<AnyBox> {
    (m.run)(input)
}

/// Erases a repeatable behavior: the stored function runs `mock` on inputs
/// of type `I`, and answers an input of any other type with a private marker
/// that no caller-visible downcast accepts.
pub(crate) fn erase_fn<I: 'static, O: 'static, F: Fn(I) -> O + 'static>(mock: F) -> ErasedMock
    requires
        forall|i: I| call_requires(mock, (i,)),
{
    let g = move |a: AnyBox| -> AnyBox
        {
            match any_downcast::<I>(a) {
                Some(i) => any_new::<O>(mock(i)),
                None => any_new::<MismatchToken>(MismatchToken),
            }
        };
    erased_from_fn(g)
}

/// Erases a single-use behavior, in the same way as `erase_fn`.
pub(crate) fn erase_fn_once<I: 'static, O: 'static, F: FnOnce(I) -> O + 'static>(mock: F) -> ErasedMock
    requires
        forall|i: I| call_requires(mock, (i,)),
{
    let g = move |a: AnyBox| -> AnyBox
        {
            match any_downcast::<I>(a) {
                Some(i) => any_new::<O>(mock(i)),
                None => any_new::<MismatchToken>(MismatchToken),
            }
        };
    erased_from_fn_once(g)
}

} // verus!
