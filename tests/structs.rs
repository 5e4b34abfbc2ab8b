use rust_course::structs::Aser;

#[test]
fn test_test() {
    let a = Aser {
        name: "aaa".to_string(),
        age: 1,
    };
    assert_eq!("aaa", a.name);
    assert_eq!(1, a.age);

    let b = Aser { age: 2, ..a };
    assert_eq!("aaa_2", b.get_tag());

    let Aser { age, .. } = b;
    assert_eq!(2, age);
}

#[test]
fn tag_of_zero_age() {
    let a = Aser {
        name: "bob".to_string(),
        age: 0,
    };
    assert_eq!("bob_0", a.get_tag());
}

#[test]
fn tag_of_several_digits() {
    let a = Aser {
        name: "x".to_string(),
        age: 1090,
    };
    assert_eq!("x_1090", a.get_tag());
}

#[test]
fn tag_of_negative_age() {
    let a = Aser {
        name: "n".to_string(),
        age: -305,
    };
    assert_eq!("n_-305", a.get_tag());
}

#[test]
fn tag_of_extreme_ages() {
    let lo = Aser {
        name: String::new(),
        age: i32::MIN,
    };
    assert_eq!("_-2147483648", lo.get_tag());
    let hi = Aser {
        name: "max".to_string(),
        age: i32::MAX,
    };
    assert_eq!("max_2147483647", hi.get_tag());
}
