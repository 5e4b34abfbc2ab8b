use rust_course::multiple_realization::{Citizen, Person, Profession};

fn print_person_info(person: &Person) {
    println!("person: name is {}, age is {}", person.name, person.age)
}

fn print_profession_describe(p: &Box<dyn Profession>) {
    println!("profession: describe is {}", p.describe());
}

struct Teacher();

impl Profession for Teacher {
    fn describe(&self) -> String {
        "this is a teacher".into()
    }
}

#[test]
fn multiple_realization_test() {
    let alice = Citizen {
        person: Person {
            age: 56,
            name: "Alice".into(),
        },
        profession: Box::new(Teacher()),
    };

    print_person_info(alice.as_ref());
    print_profession_describe(alice.as_ref());
}

#[test]
fn as_ref_lends_each_part() {
    let alice = Citizen {
        person: Person {
            age: 56,
            name: "Alice".into(),
        },
        profession: Box::new(Teacher()),
    };
    let person: &Person = alice.as_ref();
    assert_eq!(person.age, 56);
    assert_eq!(person.name, "Alice");
    let job: &Box<dyn Profession> = alice.as_ref();
    assert_eq!(job.describe(), "this is a teacher");
}
