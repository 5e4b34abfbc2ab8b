use rust_course::inversion::{Context, FromContext};

pub struct Id(pub u32);

impl FromContext for Id {
    fn built(ctx: &Context) -> Self {
        Id(ctx.id)
    }

    fn from_context(ctx: &Context) -> Self {
        Id(ctx.id)
    }
}

fn print_id(Id(id): Id) {
    println!("id is {}", id);
}

pub struct Param(pub String);

impl FromContext for Param {
    fn built(ctx: &Context) -> Self {
        Param(ctx.param.clone())
    }

    fn from_context(ctx: &Context) -> Self {
        Param(ctx.param.clone())
    }
}

fn print_param_id(Param(param): Param, Id(id): Id) {
    println!("param is {}, id is {}", param, id);
}

#[test]
fn inversion_test() {
    let ctx = Context {
        param: "asd".into(),
        id: 123,
    };

    rust_course::inversion::trigger(&ctx, print_id);
    rust_course::inversion::trigger(&ctx, print_param_id);
}

#[test]
fn trigger_builds_arguments_from_the_context() {
    let ctx = Context {
        param: "asd".into(),
        id: 123,
    };
    let seen = std::cell::RefCell::new(Vec::new());
    rust_course::inversion::trigger(&ctx, |Param(p): Param, Id(id): Id| {
        seen.borrow_mut().push(format!("{p}:{id}"));
    });
    rust_course::inversion::trigger(&ctx, |Id(id): Id| {
        seen.borrow_mut().push(format!("{id}"));
    });
    assert_eq!(*seen.borrow(), vec!["asd:123".to_string(), "123".to_string()]);
}
