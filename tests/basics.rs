use rust_basics::arrays::{has_no_proper_divisor, primes, transpose};
use rust_basics::generic_min::{min, test_generic_min};
use rust_basics::generics::{
    add_42, duplicate, pair_of, pick, test_generic_types, Point as GenericPoint,
};
use rust_basics::logger_exercise::{test_logger, Logger, VerbosityFilter};
use rust_basics::memory_management::test_copy_strings;
use rust_basics::methods::Race;
use rust_basics::package_builder::{Language, PackageBuilder};
use rust_basics::pattern_matching::{
    classify_key, classify_key_given, divide_in_two, exploring_if_let, match_foo, ok_value,
    Division, Foo, FooShape, KeyAction,
};
use rust_basics::standard_lib::{
    is_divisible_by, the_clean_way, the_dirty_way_result, FileReplace,
};
use rust_basics::text::decimal_string;
use rust_basics::traits::{create_dog, Animal, Cat, Companion, Meters, Multiply, Pet};
use rust_basics::user_types::{
    add_points, car_arrived, car_door_closed, car_door_opened, car_floor_button_pressed,
    create_player_move, get_task_cadence, lobby_call_button_pressed, Direction, Directional,
    Event, PlayerMove, Point, TaskCadenceMs, CADENCE_MS,
};
use std::cell::RefCell;

#[test]
fn test_new() {
    let mut my_race = Race::new("Shayan");
    my_race.add_lap(43);
    my_race.add_lap(42);
    my_race.add_lap(45);
    assert_eq!(my_race.name, "Shayan");
    assert_eq!(my_race.laps, vec![43, 42, 45]);
}

#[test]
fn transpose_swaps_rows_and_columns() {
    let matrix = [[1, 2, 3], [4, 5, 6], [7, 8, 9]];
    assert_eq!(transpose(matrix), [[1, 4, 7], [2, 5, 8], [3, 6, 9]]);
    assert_eq!(transpose(transpose(matrix)), matrix);
}

#[test]
fn listed_primes_have_no_proper_divisor() {
    let list = primes();
    assert_eq!(list, [2, 3, 5, 7, 11, 13, 17, 19, 23, 29]);
    for p in list {
        assert!(has_no_proper_divisor(p));
    }
    assert!(!has_no_proper_divisor(9));
    assert!(!has_no_proper_divisor(91));
    assert!(has_no_proper_divisor(1));
    assert!(has_no_proper_divisor(-4));
}

#[test]
fn min_of_integers_chars_and_strings() {
    test_generic_min();
    assert_eq!(min(0, 10), 0);
    assert_eq!(min(500, 123), 123);
    assert_eq!(min('a', 'z'), 'a');
    assert_eq!(min('7', '1'), '1');
    assert_eq!(min("hello", "goodbye"), "goodbye");
    assert_eq!(min("bat", "armadillo"), "armadillo");
}

#[test]
fn pick_by_parity() {
    assert_eq!(pick(43, 202, 101), 101);
    assert_eq!(pick(66, "evenString", "OddString"), "evenString");
    assert_eq!(pick(-3, 1, 2), 2);
    assert_eq!(pick(-4, 1, 2), 1);
    assert_eq!(pick(0, 1, 2), 1);
}

#[test]
fn generic_points() {
    test_generic_types();
    let mut p = GenericPoint { x: 100, y: 20 };
    p.set_x(33);
    assert_eq!(p.coords(), (&33, &20));
    let mut q = GenericPoint { x: 25u32, y: 41u32 };
    q.set_coords(11, 15);
    assert_eq!(q.coords_u32(), (&11, &15));
}

#[test]
fn small_generic_helpers() {
    let foo = String::from("something");
    assert_eq!(duplicate(&foo), (foo.clone(), foo.clone()));
    assert_eq!(add_42(75), 117);
    assert_eq!(pair_of(10), (11, 9));
}

struct Recorder(RefCell<Vec<(u8, String)>>);

impl Logger for Recorder {
    fn log(&self, verbosity: u8, message: &str) {
        self.0.borrow_mut().push((verbosity, message.to_string()));
    }
}

#[test]
fn verbosity_filter_drops_verbose_messages() {
    let filter = VerbosityFilter { max_verbosity: 3, inner: Recorder(RefCell::new(Vec::new())) };
    assert!(filter.admits(3));
    assert!(!filter.admits(4));
    filter.log(5, "FYI");
    filter.log(2, "Uhoh");
    filter.log(3, "edge");
    assert_eq!(
        filter.inner.0.borrow().clone(),
        vec![(2, "Uhoh".to_string()), (3, "edge".to_string())]
    );
    test_logger(Recorder(RefCell::new(Vec::new())));
}

#[test]
fn copied_string_keeps_its_text() {
    assert_eq!(test_copy_strings(), "Hello!");
}

#[test]
fn package_builder_chain() {
    let base64 = PackageBuilder::new("base64").version("0.13").build();
    assert_eq!(base64.name, "base64");
    assert_eq!(base64.version, "0.13");
    assert!(base64.language.is_none());
    let log = PackageBuilder::new("log").version("0.4").language(Language::Rust).build();
    assert_eq!(log.language, Some(Language::Rust));
    let serde = PackageBuilder::new("serde")
        .authors(vec!["djmitche".into()])
        .version(&String::from("4.0"))
        .dependency(base64.as_dependency())
        .dependency(log.as_dependency())
        .build();
    assert_eq!(serde.version, "4.0");
    assert_eq!(serde.authors, vec!["djmitche".to_string()]);
    assert_eq!(serde.dependencies.len(), 2);
    assert_eq!(serde.dependencies[0].name, "base64");
    assert_eq!(serde.dependencies[0].version_expression, "0.13");
    assert_eq!(serde.dependencies[1].name, "log");
    assert_eq!(serde.dependencies[1].version_expression, "0.4");
    let fresh = PackageBuilder::new("fresh").build();
    assert_eq!(fresh.version, "0.1");
    assert!(fresh.authors.is_empty() && fresh.dependencies.is_empty());
    let two = PackageBuilder::new("x")
        .authors(vec!["a".into()])
        .authors(vec!["b".into(), "c".into()])
        .build();
    assert_eq!(two.authors, vec!["a".to_string(), "b".to_string(), "c".to_string()]);
}

#[test]
fn key_classification() {
    assert_eq!(classify_key('q'), KeyAction::Quit);
    assert_eq!(classify_key('w'), KeyAction::Move);
    assert_eq!(classify_key('7'), KeyAction::Number);
    assert_eq!(classify_key('x'), KeyAction::Lowercase('x'));
    assert_eq!(classify_key('é'), KeyAction::Lowercase('é'));
    assert_eq!(classify_key('X'), KeyAction::Unknown);
    assert_eq!(classify_key('!'), KeyAction::Unknown);
    assert_eq!(classify_key_given('x', false), KeyAction::Unknown);
    assert_eq!(classify_key_given('Q', true), KeyAction::Lowercase('Q'));
}

#[test]
fn foo_patterns() {
    assert_eq!(match_foo(&Foo { x: (2, 2), y: 1 }), FooShape::Other { y: 1 });
    assert_eq!(match_foo(&Foo { x: (1, 5), y: 2 }), FooShape::FirstIsOne { b: 5, y: 2 });
    assert_eq!(match_foo(&Foo { x: (3, 4), y: 2 }), FooShape::YIsTwo { x: (3, 4) });
}

#[test]
fn halving() {
    assert!(matches!(divide_in_two(42), Division::Half(21)));
    assert!(matches!(divide_in_two(-8), Division::Half(-4)));
    match divide_in_two(101) {
        Division::Failed(m) => assert_eq!(m, "cannot divide 101 into two equal parts"),
        Division::Half(_) => panic!("odd number halved"),
    }
    match divide_in_two(-7) {
        Division::Failed(m) => assert_eq!(m, "cannot divide -7 into two equal parts"),
        Division::Half(_) => panic!("odd number halved"),
    }
    assert_eq!(ok_value(&Division::Half(3)), Some(3));
    assert_eq!(ok_value(&Division::Failed("no".to_string())), None);
    assert_eq!(exploring_if_let(), vec![42, 42]);
}

#[test]
fn file_writes_succeed() {
    assert!(is_divisible_by(10, 5));
    assert!(!is_divisible_by(10, 3));
    assert!(!is_divisible_by(10, 0));
    assert!(is_divisible_by(0, 7));
    assert_eq!(the_dirty_way_result(), Ok(()));
    assert_eq!(the_clean_way(), Ok(()));
    let file = FileReplace { name: "filename.txt".to_string() };
    assert_eq!(file.write_all("string".to_string()), Ok(()));
}

#[test]
fn pets_talk() {
    let fido = create_dog();
    assert_eq!(fido.name, "Fido");
    assert_eq!(fido.age, 11);
    assert_eq!(fido.talk(), "Woof woof, my name is Fido and I'm 11 years old");
    let bailey = Cat("Bailey".to_string());
    assert_eq!(bailey.number_legs(), 4);
    assert_eq!(Companion::talk(&bailey), "Meow! - my name is Bailey");
    assert_eq!(Meters(40).multiply(&Meters(100)).0, 4000);
}

#[test]
fn user_types_values() {
    let p3 = add_points(&Point(3, 5), &Point(4, 3));
    assert_eq!(p3, Point(7, 8));
    assert_eq!(get_task_cadence(), TaskCadenceMs(10));
    assert_eq!(create_player_move(), PlayerMove::Run(Directional::Left));
    assert_eq!(CADENCE_MS, 100);
    assert_eq!(car_arrived(3), Event::Arrived(3));
    assert_eq!(car_door_opened(), Event::DoorOpen);
    assert_eq!(car_door_closed(), Event::DoorClosed);
    assert_eq!(lobby_call_button_pressed(0, Direction::Up), Event::Call(0, Direction::Up));
    assert_eq!(car_floor_button_pressed(3), Event::FloorButton(3));
}

#[test]
fn decimal_text_of_integers() {
    assert_eq!(decimal_string(0), "0");
    assert_eq!(decimal_string(7), "7");
    assert_eq!(decimal_string(101), "101");
    assert_eq!(decimal_string(-7), "-7");
    assert_eq!(decimal_string(i32::MAX), "2147483647");
    assert_eq!(decimal_string(i32::MIN), "-2147483648");
}
