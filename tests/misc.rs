use std::cmp::Ordering;

use mandelbrot::cities::{count_selected_cities, sort_cities, City};
use mandelbrot::copying::{copy_action, CopyAction, ReadOutcome};
use mandelbrot::grayscale::new_map;
use mandelbrot::ordering::{compare, find_extrema, min};
use mandelbrot::search::line_matches;
use mandelbrot::series::{padovan_terms, triangle};
use mandelbrot::time_unit::TimeUnit;

#[test]
fn compare_orders_integers() {
    assert_eq!(compare(1, 2), Ordering::Less);
    assert_eq!(compare(2, 1), Ordering::Greater);
    assert_eq!(compare(-5, -5), Ordering::Equal);
    assert_eq!(compare(i32::MIN, i32::MAX), Ordering::Less);
}

#[test]
fn min_picks_the_smaller() {
    assert_eq!(min(3, 7), 3);
    assert_eq!(min(7, 3), 3);
    assert_eq!(min("b", "a"), "a");
    assert_eq!(min(-1i64, -1i64), -1);
}

#[test]
fn extrema_of_a_slice() {
    let a = [0, -3, 0, 15, 48];
    let e = find_extrema(&a);
    assert_eq!(*e.least, -3);
    assert_eq!(*e.greatest, 48);

    let one = [7];
    let e = find_extrema(&one);
    assert_eq!(*e.least, 7);
    assert_eq!(*e.greatest, 7);
}

#[test]
fn time_unit_names() {
    assert_eq!(TimeUnit::Seconds.plural(), "seconds");
    assert_eq!(TimeUnit::Years.plural(), "years");
    assert_eq!(TimeUnit::Seconds.singular(), "second");
    assert_eq!(TimeUnit::Minutes.singular(), "minute");
    assert_eq!(TimeUnit::Hours.singular(), "hour");
    assert_eq!(TimeUnit::Days.singular(), "day");
    assert_eq!(TimeUnit::Months.singular(), "month");
    assert_eq!(TimeUnit::Years.singular(), "year");
}

#[test]
fn copy_decisions() {
    assert_eq!(copy_action(0, ReadOutcome::Filled(0)), CopyAction::Finish(0));
    assert_eq!(copy_action(42, ReadOutcome::Filled(0)), CopyAction::Finish(42));
    assert_eq!(
        copy_action(42, ReadOutcome::Filled(8)),
        CopyAction::Write { len: 8, total: 50 }
    );
    assert_eq!(copy_action(42, ReadOutcome::Interrupted), CopyAction::Retry);
    assert_eq!(copy_action(42, ReadOutcome::Failed), CopyAction::Fail);
}

#[test]
fn triangular_numbers() {
    assert_eq!(triangle(0), 0);
    assert_eq!(triangle(-4), 0);
    assert_eq!(triangle(1), 1);
    assert_eq!(triangle(10), 55);
    assert_eq!(triangle(65535), 2147450880);
}

#[test]
fn padovan_first_ten() {
    assert_eq!(padovan_terms(), vec![1, 1, 1, 2, 2, 3, 4, 5, 7, 9]);
}

fn city(name: &str, population: i64) -> City {
    City { name: name.to_string(), population, country: "Nowhere".to_string() }
}

#[test]
fn counting_selected_cities() {
    let cities = vec![city("A", 100), city("B", 5_000), city("C", 20_000)];
    assert_eq!(count_selected_cities(&cities, |c: &City| c.population > 1_000), 2);
    assert_eq!(count_selected_cities(&cities, |_c: &City| false), 0);
    assert_eq!(count_selected_cities(&cities, |c: &City| c.name == "A"), 1);
    assert_eq!(count_selected_cities(&Vec::new(), |_c: &City| true), 0);
}

#[test]
fn grayscale_map_keeps_its_pixels() {
    let m = new_map((4, 3), vec![7; 12]);
    assert_eq!(m.size, (4, 3));
    assert_eq!(m.pixels.len(), 12);
    assert_eq!(m.pixels[11], 7);
}

#[test]
fn search_matches_lines() {
    assert!(line_matches("the quick brown fox", "brown"));
    assert!(!line_matches("the quick brown fox", "browns"));
    assert!(line_matches("anything", ""));
    assert!(!line_matches("", "a"));
}

#[test]
fn cities_sorted_by_population() {
    let mut cities = vec![city("A", 100), city("B", 20_000), city("C", 5_000), city("D", 20_000)];
    sort_cities(&mut cities);
    let names: Vec<&str> = cities.iter().map(|c| c.name.as_str()).collect();
    assert_eq!(names, vec!["B", "D", "C", "A"]);
    let mut none: Vec<City> = Vec::new();
    sort_cities(&mut none);
    assert!(none.is_empty());
}
