use vstd::prelude::*;

verus! {

/// A city and the figures kept about it.
pub struct City {
    pub name: String,
    pub population: i64,
    pub country: String,
}

/// No city comes before one with a larger population.
pub open spec fn by_population_descending(cities: Seq<City>) -> bool {
    forall|i: int, j: int|
        0 <= i < j < cities.len() ==> #[trigger] cities[i].population
            >= #[trigger] cities[j].population
}

/// Relies on `slice::sort_by_key`, a stable sort by ascending key; the key
/// `Reverse(population)` orders the cities by descending population.
#[verifier::external_body]
fn sort_by_population(cities: &mut Vec<City>)
    ensures
        final(cities)@.to_multiset() == old(cities)@.to_multiset(),
        by_population_descending(final(cities)@),
{
    cities.sort_by_key(|city| std::cmp::Reverse(city.population));
}

/// Orders `cities` from the most to the least populous.
pub fn sort_cities(cities: &mut Vec<City>)
    ensures
        final(cities)@.to_multiset() == old(cities)@.to_multiset(),
        by_population_descending(final(cities)@),
{
    sort_by_population(cities);
}

/// The number of `true` entries in `flags`.
pub open spec fn count_true(flags: Seq<bool>) -> nat
    decreases flags.len(),
{
    if flags.len() == 0 {
        0
    } else {
        count_true(flags.drop_last()) + if flags.last() {
            1nat
        } else {
            0nat
        }
    }
}

/// The number of cities that `test_fn` selects.
///
/// `test_fn` is asked once about each city, in order; the result counts the
/// answers that were `true`.
pub fn count_selected_cities<F>(cities: &Vec<City>, test_fn: F) -> (r: usize)
    where
        F: Fn(&City) -> bool,
    requires
        forall|i: int| 0 <= i < cities@.len() ==> test_fn.requires((&cities@[i],)),
    ensures
        exists|answers: Seq<bool>|
            {
                &&& answers.len() == cities@.len()
                &&& forall|i: int|
                    0 <= i < cities@.len() ==> test_fn.ensures((&cities@[i],), #[trigger] answers[i])
                &&& r == count_true(answers)
            },
{
    let mut count: usize = 0;
    let mut i: usize = 0;
    let ghost mut answers: Seq<bool> = Seq::empty();
    while i < cities.len()
        invariant
            i <= cities@.len(),
            answers.len() == i,
            forall|j: int| 0 <= j < i ==> test_fn.ensures((&cities@[j],), #[trigger] answers[j]),
            forall|j: int| 0 <= j < cities@.len() ==> test_fn.requires((&cities@[j],)),
            count == count_true(answers),
            count <= i,
        decreases cities@.len() - i,
    {
        let city = &cities[i];
        let selected = test_fn(city);
        proof {
            let next = answers.push(selected);
            assert(next.drop_last() =~= answers);
            answers = next;
        }
        if selected {
            count = count + 1;
        }
        i = i + 1;
    }
    count
}

} // verus!
