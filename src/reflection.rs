//! Handlers whose parameters borrow from the context instead of copying
//! out of it. The borrow ties each built value to the context's lifetime.

use vstd::prelude::*;

verus! {

/// Everything a handler may ask for.
pub struct Context {
    pub param: String,
    pub id: u32,
}

/// A value that can be built from a context that lives for `'a`.
pub trait FromContext<'a> {
    /// The value built from `ctx`.
    spec fn built(ctx: &'a Context) -> Self where Self: Sized;

    fn from_context(ctx: &'a Context) -> (r: Self) where Self: Sized
        ensures
            r == Self::built(ctx),
    ;
}

/// The context's text, borrowed.
pub struct Param<'a>(pub &'a String);

impl<'a> FromContext<'a> for Param<'a> {
    open spec fn built(ctx: &'a Context) -> Param<'a> {
        Param(&ctx.param)
    }

    fn from_context(ctx: &'a Context) -> (r: Param<'a>) {
        Param(&ctx.param)
    }
}

/// The context's number, copied.
pub struct Id(pub u32);

impl FromContext<'_> for Id {
    open spec fn built(ctx: &Context) -> Id {
        Id(ctx.id)
    }

    fn from_context(ctx: &Context) -> (r: Id) {
        Id(ctx.id)
    }
}

/// A function that can be called with values built from a context that
/// lives for `'a`; `T` lists the types of its parameters.
pub trait Handler<'a, T> {
    /// The handler accepts the arguments built from `ctx`.
    spec fn accepts(&self, ctx: &'a Context) -> bool;

    /// The handler ran to its end on the arguments built from `ctx`, in the
    /// order of its parameters.
    spec fn ran_on(&self, ctx: &'a Context) -> bool;

    fn call(self, ctx: &'a Context)
        requires
            self.accepts(ctx),
        ensures
            self.ran_on(ctx),
    ;
}

impl<'a, F, T> Handler<'a, T> for F where F: Fn(T), T: FromContext<'a> {
    open spec fn accepts(&self, ctx: &'a Context) -> bool {
        self.requires((T::built(ctx),))
    }

    open spec fn ran_on(&self, ctx: &'a Context) -> bool {
        self.ensures((T::built(ctx),), ())
    }

    fn call(self, ctx: &'a Context) {
        let arg = T::from_context(ctx);
        (self)(arg);
    }
}

impl<'a, T1, T2, F> Handler<'a, (T1, T2)> for F where
    F: Fn(T1, T2),
    T1: FromContext<'a>,
    T2: FromContext<'a>,
 {
    open spec fn accepts(&self, ctx: &'a Context) -> bool {
        self.requires((T1::built(ctx), T2::built(ctx)))
    }

    open spec fn ran_on(&self, ctx: &'a Context) -> bool {
        self.ensures((T1::built(ctx), T2::built(ctx)), ())
    }

    fn call(self, ctx: &'a Context) {
        let arg1 = T1::from_context(ctx);
        let arg2 = T2::from_context(ctx);
        (self)(arg1, arg2);
    }
}

/// Calls `handler` with arguments built from `ctx`.
pub fn trigger<'a, T>(ctx: &'a Context, handler: impl Handler<'a, T>)
    requires
        handler.accepts(ctx),
    ensures
        handler.ran_on(ctx),
{
    handler.call(ctx);
}

} // verus!
