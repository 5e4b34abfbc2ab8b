//! Inversion of control: a handler names the values it needs by the types
//! of its parameters, and `trigger` builds each of them from a shared
//! context before it calls the handler.

use vstd::prelude::*;

verus! {

/// Everything a handler may ask for.
pub struct Context {
    pub id: u32,
    pub param: String,
}

/// A value that can be built from a context. Users implement it for the
/// parameter types of their handlers.
pub trait FromContext: Sized {
    /// The value built from `ctx`.
    spec fn built(ctx: &Context) -> Self;

    fn from_context(ctx: &Context) -> (r: Self)
        ensures
            r == Self::built(ctx),
    ;
}

/// A function that can be called with values built from a context; `T`
/// lists the types of its parameters.
pub trait Handler<T> {
    /// The handler accepts the arguments built from `ctx`.
    spec fn accepts(&self, ctx: &Context) -> bool;

    /// The handler ran to its end on the arguments built from `ctx`, in the
    /// order of its parameters.
    spec fn ran_on(&self, ctx: &Context) -> bool;

    fn call(self, ctx: &Context)
        requires
            self.accepts(ctx),
        ensures
            self.ran_on(ctx),
    ;
}

impl<T: FromContext, F: Fn(T)> Handler<T> for F {
    open spec fn accepts(&self, ctx: &Context) -> bool {
        self.requires((T::built(ctx),))
    }

    open spec fn ran_on(&self, ctx: &Context) -> bool {
        self.ensures((T::built(ctx),), ())
    }

    fn call(self, ctx: &Context) {
        let arg = T::from_context(ctx);
        self(arg);
    }
}

impl<T1: FromContext, T2: FromContext, F: Fn(T1, T2)> Handler<(T1, T2)> for F {
    open spec fn accepts(&self, ctx: &Context) -> bool {
        self.requires((T1::built(ctx), T2::built(ctx)))
    }

    open spec fn ran_on(&self, ctx: &Context) -> bool {
        self.ensures((T1::built(ctx), T2::built(ctx)), ())
    }

    fn call(self, ctx: &Context) {
        let arg1 = T1::from_context(ctx);
        let arg2 = T2::from_context(ctx);
        self(arg1, arg2);
    }
}

/// Calls `handler` with arguments built from `ctx`.
pub fn trigger<T>(ctx: &Context, handler: impl Handler<T>)
    requires
        handler.accepts(ctx),
    ensures
        handler.ran_on(ctx),
{
    handler.call(ctx);
}

} // verus!
