use addr_resolver::tally::{select_most_frequent, select_with_count, FunctionMap};

#[test]
fn new_map_counts_nothing() {
    let map = FunctionMap::new();
    assert_eq!(map.count(0), 0);
    assert_eq!(map.count(0x2000), 0);
}

#[test]
fn record_counts_one_site_each_time() {
    let mut map = FunctionMap::new();
    map.record(0x2000);
    assert_eq!(map.count(0x2000), 1);
    map.record(0x2000);
    map.record(0x3000);
    assert_eq!(map.count(0x2000), 2);
    assert_eq!(map.count(0x3000), 1);
    assert_eq!(map.count(0x4000), 0);
}

#[test]
fn map_of_sites_holds_each_count() {
    let map = FunctionMap::of(&vec![5, 9, 5, 5, 1, 9]);
    assert_eq!(map.count(5), 3);
    assert_eq!(map.count(9), 2);
    assert_eq!(map.count(1), 1);
    assert_eq!(map.count(2), 0);
}

#[test]
fn map_of_no_sites_is_empty() {
    let map = FunctionMap::of(&Vec::new());
    assert_eq!(map.count(0), 0);
}

#[test]
fn count_two_selects_the_address_seen_twice() {
    assert_eq!(select_with_count(&vec![0x2000, 0x3000, 0x2000], 2), Some(0x2000));
    assert_eq!(select_with_count(&vec![0x3000, 0x2000, 0x2000], 2), Some(0x2000));
}

#[test]
fn count_two_is_exact() {
    assert_eq!(select_with_count(&vec![7, 7, 7], 2), None);
    assert_eq!(select_with_count(&vec![7], 2), None);
    assert_eq!(select_with_count(&Vec::new(), 2), None);
    assert_eq!(select_with_count(&vec![1, 2, 3], 2), None);
}

#[test]
fn count_tie_goes_to_the_lowest_address() {
    assert_eq!(select_with_count(&vec![9, 4, 9, 4], 2), Some(4));
    assert_eq!(select_with_count(&vec![4, 9, 4, 9], 2), Some(4));
    assert_eq!(select_with_count(&vec![9, 9, 4, 4, 6, 6], 2), Some(4));
}

#[test]
fn count_zero_selects_nothing() {
    assert_eq!(select_with_count(&vec![1, 2], 0), None);
    assert_eq!(select_with_count(&Vec::new(), 0), None);
}

#[test]
fn most_frequent_of_five_and_three() {
    let x: u64 = 0x5000;
    let y: u64 = 0x5100;
    assert_eq!(select_most_frequent(&vec![x, y, x, y, x, y, x, x]), Some(x));
    assert_eq!(select_most_frequent(&vec![y, y, y, x, x, x, x, x]), Some(x));
    let high: u64 = 0x9000;
    assert_eq!(select_most_frequent(&vec![y, high, high, y, high, y, high, high]), Some(high));
}

#[test]
fn most_frequent_tie_goes_to_the_lowest_address() {
    let x: u64 = 0x5000;
    let y: u64 = 0x5100;
    assert_eq!(select_most_frequent(&vec![x, y, x, y, x, y]), Some(x));
    assert_eq!(select_most_frequent(&vec![y, x, y, x, y, x]), Some(x));
    assert_eq!(select_most_frequent(&vec![y, y, y, x, x, x]), Some(x));
}

#[test]
fn most_frequent_is_the_same_on_every_run() {
    let sites: Vec<u64> = vec![30, 10, 20, 10, 30, 20, 30, 10, 20];
    let first = select_most_frequent(&sites);
    let mut run: u32 = 0;
    while run < 50 {
        assert_eq!(select_most_frequent(&sites), first);
        run += 1;
    }
    assert_eq!(first, Some(10));
}

#[test]
fn most_frequent_of_nothing_is_nothing() {
    assert_eq!(select_most_frequent(&Vec::new()), None);
}

#[test]
fn most_frequent_of_one_site() {
    assert_eq!(select_most_frequent(&vec![u64::MAX]), Some(u64::MAX));
    assert_eq!(select_most_frequent(&vec![0]), Some(0));
}
