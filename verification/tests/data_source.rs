use boast::biod;
use boast::data_src::QueuedDatasets;
use boast::{DataSource, Error};

#[test]
fn transformed_source_rewrites_a_copy_of_the_original() {
    let mut src = DataSource::transformed(vec![1u64, 2, 3], |d: &mut [u64], seed: u64| {
        for x in d.iter_mut() {
            *x += seed;
        }
    });
    assert_eq!(src.len(), 3);
    assert!(!src.is_empty());
    assert_eq!(src.get_data(10), Ok(vec![11, 12, 13]));
    // the original is untouched, so the next dataset starts from it again
    assert_eq!(src.get_data(1), Ok(vec![2, 3, 4]));
    assert_eq!(src.len(), 3);
}

#[test]
fn generated_source_starts_from_default_values() {
    let mut src = DataSource::generated(4, |d: &mut [u64], seed: u64| {
        for (i, x) in d.iter_mut().enumerate() {
            *x += seed * i as u64;
        }
    });
    assert_eq!(src.len(), 4);
    assert_eq!(src.get_data(2), Ok(vec![0, 2, 4, 6]));
    assert_eq!(src.get_data(0), Ok(vec![0, 0, 0, 0]));
}

#[test]
fn generated_source_of_length_zero_is_empty() {
    let src = DataSource::<u8>::generated(0, |_d: &mut [u8], _seed: u64| {});
    assert_eq!(src.len(), 0);
    assert!(src.is_empty());
}

#[test]
fn iterable_source_hands_out_in_order_then_is_exhausted() {
    let sets = vec![vec![1u8, 2], vec![3, 4]];
    let mut src = DataSource::iterable(2, sets.into_iter());
    assert_eq!(src.len(), 2);
    assert_eq!(src.get_data(0), Ok(vec![1, 2]));
    assert_eq!(src.get_data(0), Ok(vec![3, 4]));
    assert_eq!(src.get_data(0), Err(Error::DataSourceExhausted));
    assert_eq!(src.get_data(7), Err(Error::DataSourceExhausted));
    assert_eq!(src.len(), 2);
}

#[test]
fn iterable_source_reports_its_declared_length() {
    let src = DataSource::<u8>::iterable(0, std::iter::empty());
    assert!(src.is_empty());
    let src = DataSource::<u8>::iterable(5, std::iter::empty());
    assert_eq!(src.len(), 5);
}

#[test]
fn biod_transformed_source_derives_from_the_borrowed_original() {
    let original = [1i32, 2, 3];
    let mut src = biod::DataSource::transformed(&original, |d: &[i32], seed: u64| {
        d.iter().map(|x| x * seed as i32).collect()
    });
    assert_eq!(src.len(), 3);
    assert_eq!(src.get_data(2), Ok(vec![2, 4, 6]));
    assert_eq!(src.get_data(0), Ok(vec![0, 0, 0]));
}

#[test]
fn biod_generated_source_may_keep_state() {
    let mut calls = 0u64;
    let mut src = biod::DataSource::generated(2, move |len: usize, seed: u64| {
        calls += 1;
        vec![seed + calls; len]
    });
    assert_eq!(src.len(), 2);
    assert_eq!(src.get_data(10), Ok(vec![11, 11]));
    assert_eq!(src.get_data(10), Ok(vec![12, 12]));
}

#[test]
fn biod_iterable_source_is_exhausted_after_its_items() {
    let mut src = biod::DataSource::iterable(1, vec![vec!['a']].into_iter());
    assert_eq!(src.len(), 1);
    assert_eq!(src.get_data(3), Ok(vec!['a']));
    assert_eq!(src.get_data(3), Err(Error::DataSourceExhausted));
}

#[test]
fn error_messages_match_their_display_text() {
    assert_eq!(Error::TimedOut.message(), "Test timed out");
    assert_eq!(Error::DataSourceExhausted.message(), "Data source exhausted");
    assert_eq!(
        Error::Internal("boom".to_string()).message(),
        "Internal error: boom"
    );
}

#[test]
fn queued_datasets_are_handed_out_in_order_then_exhausted() {
    let queue = QueuedDatasets::new(vec![vec![1u8, 2], vec![3, 4], vec![5, 6]]);
    let mut src = DataSource::Iterable { length: 2, iter: Box::new(queue) };
    assert_eq!(src.get_data(9), Ok(vec![1, 2]));
    assert_eq!(src.get_data(0), Ok(vec![3, 4]));
    assert_eq!(src.get_data(4), Ok(vec![5, 6]));
    assert_eq!(src.get_data(0), Err(Error::DataSourceExhausted));
}

#[test]
fn a_source_from_datasets_hands_them_out_in_order_whatever_the_seeds() {
    let mut src = DataSource::from_datasets(2, vec![vec![1u8, 2], vec![3]]);
    assert_eq!(src.len(), 2);
    assert_eq!(src.get_data(0), Ok(vec![1, 2]));
    assert_eq!(src.get_data(5), Ok(vec![3]));
    assert_eq!(src.get_data(0), Err(Error::DataSourceExhausted));
}

#[test]
fn a_biod_source_from_datasets_is_exhausted_after_its_items() {
    let mut src = biod::DataSource::from_datasets(1, vec![vec![7u8], vec![8]]);
    assert_eq!(src.get_data(1), Ok(vec![7]));
    assert_eq!(src.get_data(2), Ok(vec![8]));
    assert_eq!(src.get_data(3), Err(Error::DataSourceExhausted));
}
