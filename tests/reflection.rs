use rust_course::reflection::{Context, FromContext, Id, Param};

fn print_id(Id(id): Id) {
    println!("id is {}", id);
}

fn print_param_id(Param(param): Param, Id(id): Id) {
    println!("param is {}, id is {}", param, id);
}

#[test]
fn reflection_test() {
    let ctx = Context {
        param: "asd".into(),
        id: 123,
    };
    rust_course::reflection::trigger(&ctx, print_id);
    rust_course::reflection::trigger(&ctx, print_param_id);
}

#[test]
fn params_borrow_and_ids_copy() {
    let ctx = Context {
        param: "asd".into(),
        id: 123,
    };
    let Param(p) = Param::from_context(&ctx);
    assert!(std::ptr::eq(p, &ctx.param));
    let Id(id) = Id::from_context(&ctx);
    assert_eq!(id, 123);
}

#[test]
fn trigger_hands_borrowed_values() {
    let ctx = Context {
        param: "asd".into(),
        id: 7,
    };
    let seen = std::cell::RefCell::new(String::new());
    rust_course::reflection::trigger(&ctx, |Param(p): Param, Id(id): Id| {
        seen.borrow_mut().push_str(&format!("{p}/{id}"));
    });
    assert_eq!(*seen.borrow(), "asd/7");
}
