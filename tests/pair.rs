use mandelbrot::pair::{find_char, pair_of, parse_pair, split_pair};

#[test]
fn test_parse_pair() {
    assert_eq!(parse_pair::<i32>("", ','), None);
    assert_eq!(parse_pair::<i32>("10, ", ','), None);
    assert_eq!(parse_pair::<i32>(",10", ','), None);
    assert_eq!(parse_pair::<i32>("10,20", ','), Some((10, 20)));
    assert_eq!(parse_pair::<i32>("10,20xy", ','), None);
    assert_eq!(parse_pair::<f64>("0.5x", 'x'), None);
    assert_eq!(parse_pair::<f64>("0.5x1.5", 'x'), Some((0.5, 1.5)));
}

#[test]
fn parse_pair_without_separator_is_none() {
    assert_eq!(parse_pair::<i32>("1020", ','), None);
    assert_eq!(parse_pair::<String>("abc", ','), None);
    assert_eq!(parse_pair::<f64>("1.5", 'x'), None);
}

#[test]
fn parse_pair_with_separator_at_an_edge_is_none() {
    assert_eq!(parse_pair::<i32>(",", ','), None);
    assert_eq!(parse_pair::<i32>("10,", ','), None);
    assert_eq!(parse_pair::<String>(",abc", ','), None);
    assert_eq!(parse_pair::<String>("abc,", ','), None);
}

#[test]
fn parse_pair_splits_at_first_separator() {
    assert_eq!(parse_pair::<i32>("1,2,3", ','), None);
    assert_eq!(
        parse_pair::<String>("a,b,c", ','),
        Some(("a".to_string(), "b,c".to_string()))
    );
    assert_eq!(parse_pair::<usize>("400x600", 'x'), Some((400, 600)));
    assert_eq!(parse_pair::<i32>("-7,+8", ','), Some((-7, 8)));
}

#[test]
fn find_char_gives_first_position() {
    assert_eq!(find_char("a,b,c", ','), Some(1));
    assert_eq!(find_char("abc", ','), None);
    assert_eq!(find_char("", ','), None);
    assert_eq!(find_char("ééx", 'x'), Some(2));
}

#[test]
fn split_pair_leaves_out_the_separator() {
    assert_eq!(split_pair("10,20", ','), Some(("10", "20")));
    assert_eq!(split_pair(",x,", ','), Some(("", "x,")));
    assert_eq!(split_pair("é,ü", ','), Some(("é", "ü")));
    assert_eq!(split_pair("1020", ','), None);
}

#[test]
fn pair_of_needs_both_values() {
    assert_eq!(pair_of(Some(1), Some(2)), Some((1, 2)));
    assert_eq!(pair_of(Some(1), None), None);
    assert_eq!(pair_of::<i32>(None, Some(2)), None);
    assert_eq!(pair_of::<i32>(None, None), None);
}

#[test]
fn parse_pair_gives_the_same_result_twice() {
    assert_eq!(parse_pair::<i32>("3,4", ','), parse_pair::<i32>("3,4", ','));
    assert_eq!(parse_pair::<f64>("0.25,1", ','), parse_pair::<f64>("0.25,1", ','));
}

#[test]
fn parse_pair_reads_complex_components() {
    assert_eq!(parse_pair::<f64>("1.25,-0.0625", ','), Some((1.25, -0.0625)));
    assert_eq!(parse_pair::<f64>(",-0.0625", ','), None);
    assert_eq!(parse_pair::<f64>("-1.20,0.35", ','), Some((-1.2, 0.35)));
}
