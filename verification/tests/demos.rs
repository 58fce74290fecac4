use lang_basics::arrays;
use lang_basics::associated_types::Graph;
use lang_basics::associated_types::MyGraph;
use lang_basics::associated_types::Node;
use lang_basics::closures;
use lang_basics::compound;
use lang_basics::compound::Character;
use lang_basics::conditionals;
use lang_basics::functions;
use lang_basics::iterators;
use lang_basics::looping;
use lang_basics::matching;
use lang_basics::matching::OptionalInt;
use lang_basics::ownership;
use lang_basics::patterns;
use lang_basics::patterns::Po;
use lang_basics::phrases;
use lang_basics::pointers;
use lang_basics::strings;
use std::cmp::Ordering;

#[test]
fn array_length_and_second_name() {
    let (len, second) = arrays::arrays();
    assert_eq!(len, 3);
    assert_eq!(second, "BR");
}

#[test]
fn vector_grows_on_push() {
    assert_eq!(arrays::vector(), vec![33, 2, 222]);
}

#[test]
fn slice_of_the_middle() {
    assert_eq!(arrays::slices(), vec![39, 10, 20]);
}

#[test]
fn graph_with_associated_types() {
    let graph = MyGraph;
    assert!(graph.has_edge(&Node, &Node));
    assert_eq!(graph.edges(&Node).len(), 0);
}

#[test]
fn closure_borrows_its_environment() {
    assert_eq!(closures::closures_and_their_environment(), 10);
}

#[test]
fn move_closure_works_on_its_own_copy() {
    assert_eq!(closures::move_closures(), (52, 5));
}

#[test]
fn closure_as_argument() {
    assert_eq!(closures::taking_closures_as_arguments(), 3);
}

#[test]
fn call_with_one_applies_at_one() {
    assert_eq!(closures::call_with_one(|x| x + 2), 3);
    assert_eq!(closures::call_with_one(|x| x * 10), 10);
}

#[test]
fn closure_out_of_a_factory() {
    assert_eq!(closures::returning_closures(), 8);
}

#[test]
fn factory_closure_adds_four() {
    let f = closures::factory();
    assert_eq!(f(4), 8);
    assert_eq!(f(0), 4);
}

#[test]
fn two_values_after_ninety_eight() {
    assert_eq!(compound::next_two(98), (99, 100));
}

#[test]
fn reversed_triples_differ() {
    assert!(!compound::triple_eq((1, 2, 3), (3, 2, 1)));
    assert!(compound::triple_eq((1, 2, 3), (1, 2, 3)));
}

#[test]
fn tuples_demo() {
    let (q, equal, next) = compound::tuples();
    assert_eq!(q, (2, 3));
    assert!(!equal);
    assert_eq!(next, (99, 100));
}

#[test]
fn structs_demo() {
    let (origin, origin2) = compound::structs();
    assert_eq!((origin.x, origin.y, origin.z), (29, 101, 2992));
    assert_eq!((origin2.x, origin2.y, origin2.z), (1, 2, 33));
}

#[test]
fn newtype_gives_its_value_back() {
    let (black, length) = compound::tuple_structs();
    assert_eq!((black.0, black.1, black.2), (1, 1, 1));
    assert_eq!(length, 10);
}

#[test]
fn enum_variants_with_and_without_data() {
    let (ten, other) = compound::enums();
    assert!(matches!(ten, Character::Digit(10)));
    assert!(matches!(other, Character::Other));
}

#[test]
fn three_way_comparison() {
    assert_eq!(compound::cmp(5, 10), Ordering::Less);
    assert_eq!(compound::cmp(10, 5), Ordering::Greater);
    assert_eq!(compound::cmp(7, 7), Ordering::Equal);
}

#[test]
fn five_is_less_than_ten() {
    assert_eq!(compound::ordering(), "less");
}

#[test]
fn if_as_an_expression() {
    assert_eq!(conditionals::shorthand_if(4), 202);
    assert_eq!(conditionals::shorthand_if(0), 22);
}

#[test]
fn empty_function_returns_nothing() {
    functions::empty_function();
}

#[test]
fn add_one_to_two() {
    assert_eq!(functions::add_one(2), 3);
}

#[test]
fn sum_of_two_numbers() {
    assert_eq!(functions::sum(22, 34), 56);
}

#[test]
fn collected_range_is_one_to_one_hundred() {
    let v = iterators::collect_range();
    assert_eq!(v.len(), 100);
    assert_eq!(v[0], 1);
    assert_eq!(v[99], 100);
}

#[test]
fn first_number_greater_than_the_threshold() {
    assert_eq!(iterators::find_first_greater(100, 42), Some(43));
    assert_eq!(iterators::find_first_greater(100, -7), Some(0));
    assert_eq!(iterators::find_first_greater(100, 200), None);
    assert_eq!(iterators::find_first_greater(0, 42), None);
}

#[test]
fn consumers_demo() {
    let (range, found) = iterators::consumers();
    assert_eq!(range.len(), 100);
    assert_eq!(found, Some(43));
}

#[test]
fn even_numbers_below_one_hundred() {
    let evens = iterators::iterator_adapters();
    assert_eq!(evens.len(), 49);
    assert_eq!(evens[0], 2);
    assert_eq!(evens[48], 98);
}

#[test]
fn first_five_past_both_filters() {
    assert_eq!(iterators::combo(), vec![6, 12, 18, 24, 30]);
}

#[test]
fn while_loop_stops_at_a_multiple_of_five() {
    assert_eq!(looping::while_loop(), -45);
}

#[test]
fn loop_breaks_at_one_thousand() {
    let (last, seen) = looping::infinite_loop();
    assert_eq!(last, 1000);
    assert_eq!(
        seen,
        vec![70, 140, 210, 280, 350, 420, 490, 560, 630, 700, 770, 840, 910, 980]
    );
}

#[test]
fn digits_by_name() {
    assert_eq!(matching::match_digit(1), "one");
    assert_eq!(matching::match_digit(5), "five");
    assert_eq!(matching::match_digit(11), "default");
}

#[test]
fn ordering_by_name() {
    assert_eq!(matching::describe_ordering(Ordering::Less), "less");
    assert_eq!(matching::describe_ordering(Ordering::Greater), "greater");
    assert_eq!(matching::describe_ordering(Ordering::Equal), "equal");
}

#[test]
fn five_against_eight() {
    assert_eq!(matching::match_ordering(), "less");
}

#[test]
fn value_out_of_an_optional_int() {
    assert_eq!(matching::value_of(&OptionalInt::Value(5)), Some(5));
    assert_eq!(matching::value_of(&OptionalInt::Missing), None);
}

#[test]
fn present_and_missing_values() {
    assert_eq!(matching::enum_match(), (Some(5), None));
}

#[test]
fn box_handed_over_and_back() {
    assert_eq!(*ownership::add_one(Box::new(5)), 6);
}

#[test]
fn borrow_instead_of_owning() {
    let mut x = 7;
    ownership::add_one2(&mut x);
    assert_eq!(x, 8);
}

#[test]
fn lifetimes_elided_and_written_out() {
    let mut a = 1;
    ownership::lifetime1(&mut a);
    assert_eq!(a, 2);
    ownership::lifetime2(&mut a);
    assert_eq!(a, 3);
}

#[test]
fn four_wheels_share_one_car() {
    let wheels = ownership::shared_ownership();
    assert_eq!(wheels.len(), 4);
    for wheel in &wheels {
        assert_eq!(wheel.size, 360);
        assert_eq!(wheel.owner.name, "MB");
    }
}

#[test]
fn numbers_sorted_into_bins() {
    assert_eq!(patterns::classify(1), "one or two");
    assert_eq!(patterns::classify(2), "one or two");
    assert_eq!(patterns::classify(8), "range from 3 to 10");
    assert_eq!(patterns::classify(99), "anything");
}

#[test]
fn guards_refine_a_pattern() {
    assert_eq!(
        patterns::classify_optional(&OptionalInt::Value(2922)),
        "Got an int bigger than five!"
    );
    assert_eq!(patterns::classify_optional(&OptionalInt::Value(3)), "Got an int!");
    assert_eq!(patterns::classify_optional(&OptionalInt::Missing), "No such luck");
}

#[test]
fn struct_destructured_in_a_pattern() {
    assert_eq!(patterns::first_coordinate(&Po { x: 2, y: 1 }), 2);
}

#[test]
fn greeting_and_farewells() {
    assert_eq!(phrases::hello(), "Hello !");
    assert_eq!(phrases::cya(), "Goodbye");
    assert_eq!(phrases::goodbye(), "Goodbye");
}

#[test]
fn successor_through_a_reference() {
    assert_eq!(pointers::succ(&2), 3);
}

#[test]
fn sum_through_two_references() {
    assert_eq!(pointers::add(&100, &100), 200);
}

#[test]
fn increment_through_a_mutable_reference() {
    let mut x = 0;
    pointers::increment(&mut x);
    pointers::increment(&mut x);
    assert_eq!(x, 2);
}

#[test]
fn reads_through_references() {
    assert_eq!(pointers::reference_pointer(), (14, 3));
}

#[test]
fn four_increments_into_a_box() {
    assert_eq!(pointers::boxes_pointer(), 6);
}

#[test]
fn boxed_list_of_three() {
    let list = pointers::best_practices();
    assert_eq!(list.length(), 3);
}

#[test]
fn peeking_into_an_optional_string() {
    let present = Some("held".to_string());
    assert_eq!(pointers::peek_contents(&present), Some(&"held".to_string()));
    let missing: Option<String> = None;
    assert_eq!(pointers::peek_contents(&missing), None);
}

#[test]
fn greeting_built_from_two_slices() {
    assert_eq!(strings::build_greeting(), "hello");
}

#[test]
fn string_lengths() {
    assert_eq!(strings::some_string_length("heel"), 4);
    assert_eq!(strings::some_string_length(&"awkjdjk2k2".to_string()), 10);
}
