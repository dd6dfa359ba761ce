use subspace_node::dsn::{
    dsn_config, first_failed_announcement, first_piece_index, piece_index_count_fits,
    segment_piece_indexes,
};

#[test]
fn first_piece_of_segment() {
    assert_eq!(first_piece_index(0, 256), 0);
    assert_eq!(first_piece_index(3, 256), 768);
}

#[test]
fn pieces_of_a_segment_are_consecutive() {
    assert_eq!(segment_piece_indexes(2, 4, 3), vec![8, 9, 10]);
    assert_eq!(segment_piece_indexes(5, 4, 0), Vec::<u64>::new());
}

#[test]
fn next_segment_follows_the_previous_one() {
    let a = segment_piece_indexes(6, 4, 4);
    let b = segment_piece_indexes(7, 4, 4);
    assert_eq!(a.last().unwrap() + 1, b[0]);
    assert!(a.iter().all(|x| !b.contains(x)));
}

#[test]
fn pieces_up_to_the_largest_index() {
    assert_eq!(segment_piece_indexes(0, 0, 2), vec![0, 1]);
    let top = u64::MAX - 2;
    assert_eq!(segment_piece_indexes(top, 1, 2), vec![top, top + 1]);
}

#[test]
fn first_failure_is_reported() {
    let all_ok: Vec<Result<(), String>> = vec![Ok(()), Ok(())];
    assert_eq!(first_failed_announcement(&all_ok), None);
    let some_err: Vec<Result<(), String>> =
        vec![Ok(()), Err("a".to_string()), Err("b".to_string())];
    assert_eq!(first_failed_announcement(&some_err), Some(1));
    let none: Vec<Result<(), String>> = vec![];
    assert_eq!(first_failed_announcement(&none), None);
}

#[test]
fn dsn_configured_only_when_listening() {
    assert!(dsn_config(7u8, Vec::<String>::new(), vec!["boot".to_string()]).is_none());
    let c = dsn_config(7u8, vec!["/ip4/0.0.0.0/tcp/30433".to_string()], vec![]).unwrap();
    assert_eq!(c.keypair, 7);
    assert_eq!(c.dsn_listen_on, vec!["/ip4/0.0.0.0/tcp/30433".to_string()]);
    assert!(c.dsn_bootstrap_node.is_empty());
}

#[test]
fn piece_index_overflow_is_detected() {
    assert!(piece_index_count_fits(3, 256, 256));
    assert!(piece_index_count_fits(u64::MAX - 2, 1, 2));
    assert!(!piece_index_count_fits(u64::MAX - 2, 1, 3));
    assert!(!piece_index_count_fits(u64::MAX, 2, 0));
    assert!(piece_index_count_fits(u64::MAX, 1, 0));
}
