use vstd::prelude::*;
use vstd::string::*;

verus! {

/// `i` is the position of the first occurrence of `c` in `s`.
pub open spec fn is_first_index(s: Seq<char>, c: char, i: int) -> bool {
    &&& 0 <= i < s.len()
    &&& s[i] == c
    &&& forall|j: int| 0 <= j < i ==> s[j] != c
}

/// The text before and the text after the first occurrence of `sep` in `s`,
/// or `None` when `sep` does not occur in `s`.
pub open spec fn split_spec(s: Seq<char>, sep: char) -> Option<(Seq<char>, Seq<char>)> {
    if s.contains(sep) {
        let i = choose|i: int| is_first_index(s, sep, i);
        Some((s.subrange(0, i), s.subrange(i + 1, s.len() as int)))
    } else {
        None
    }
}

/// Any occurrence of `c` has a first one, and there is only one first one.
pub proof fn lemma_first_index_unique(s: Seq<char>, c: char, i: int)
    requires
        0 <= i < s.len(),
        s[i] == c,
    ensures
        s.contains(c),
        exists|k: int| is_first_index(s, c, k),
        is_first_index(s, c, i) ==> (choose|k: int| is_first_index(s, c, k)) == i,
    decreases i,
{
    if exists|j: int| 0 <= j < i && s[j] == c {
        let j = choose|j: int| 0 <= j < i && s[j] == c;
        lemma_first_index_unique(s, c, j);
    } else {
        assert(is_first_index(s, c, i));
    }
    if is_first_index(s, c, i) {
        let k = choose|k: int| is_first_index(s, c, k);
        assert(!(k < i));
        assert(!(i < k));
    }
}

/// The position of the first occurrence of `c` in `s`, counted in characters.
pub fn find_char(s: &str, c: char) -> (r: Option<usize>)
    ensures
        match r {
            Some(i) => is_first_index(s@, c, i as int),
            None => !s@.contains(c),
        },
{
    let n = s.unicode_len();
    let mut i: usize = 0;
    while i < n
        invariant
            n == s@.len(),
            i <= n,
            forall|j: int| 0 <= j < i ==> s@[j] != c,
        decreases n - i,
    {
        if s.get_char(i) == c {
            return Some(i);
        }
        i = i + 1;
    }
    None
}

/// Splits `s` at the first occurrence of `separator`; the separator itself
/// belongs to neither part.
pub fn split_pair(s: &str, separator: char) -> (r: Option<(&str, &str)>)
    ensures
        match r {
            Some((left, right)) => split_spec(s@, separator) == Some((left@, right@)),
            None => split_spec(s@, separator) is None,
        },
{
    match find_char(s, separator) {
        None => None,
        Some(index) => {
            proof {
                lemma_first_index_unique(s@, separator, index as int);
            }
            let n = s.unicode_len();
            let left = s.substring_char(0, index);
            let right = s.substring_char(index + 1, n);
            Some((left, right))
        },
    }
}

/// Relies on `FromStr::from_str` of `T`: it reads the whole of `s` as a `T`
/// or fails.
#[verifier::external_body]
fn parse_whole<T: std::str::FromStr>(s: &str) -> Option<T> {
    T::from_str(s).ok()
}

/// Both values, when both parts parsed.
pub fn pair_of<T>(left: Option<T>, right: Option<T>) -> (r: Option<(T, T)>)
    ensures
        r == (match (left, right) {
            (Some(l), Some(r)) => Some((l, r)),
            _ => None,
        }),
{
    match (left, right) {
        (Some(l), Some(r)) => Some((l, r)),
        _ => None,
    }
}

/// Parses `s` as `<left><separator><right>`, each side read whole as a `T`.
///
/// There is no pair without a separator, and none when the text on either
/// side of the first separator is empty: an empty side is never handed to
/// the parser.
pub fn parse_pair<T: std::str::FromStr>(s: &str, separator: char) -> (r: Option<(T, T)>)
    ensures
        match split_spec(s@, separator) {
            None => r is None,
            Some((left, right)) => (left.len() == 0 || right.len() == 0) ==> r is None,
        },
        !s@.contains(separator) ==> r is None,
        s@.len() > 0 && s@[0] == separator ==> r is None,
        s@.len() > 0 && s@.last() == separator && !s@.drop_last().contains(separator)
            ==> r is None,
{
    proof {
        if s@.len() > 0 && s@[0] == separator {
            lemma_first_index_unique(s@, separator, 0);
        }
        if s@.len() > 0 && s@.last() == separator && !s@.drop_last().contains(separator) {
            let n = s@.len() as int;
            assert forall|j: int| 0 <= j < n - 1 implies s@[j] != separator by {
                assert(s@.drop_last()[j] == s@[j]);
            }
            assert(is_first_index(s@, separator, n - 1));
            lemma_first_index_unique(s@, separator, n - 1);
        }
    }
    match split_pair(s, separator) {
        None => None,
        Some((left, right)) => {
            if left.is_empty() || right.is_empty() {
                None
            } else {
                pair_of(parse_whole(left), parse_whole(right))
            }
        },
    }
}

} // verus!
