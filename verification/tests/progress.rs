use grz_check::progress::DualProgressReader;

#[test]
fn both_counters_move_by_the_bytes_read() {
    let mut progress = DualProgressReader::new(0, 100);
    let res: Result<usize, String> = progress.read(Ok(8));
    assert_eq!(res, Ok(8));
    assert_eq!(progress.specific_position(), 8);
    assert_eq!(progress.global_position(), 108);
    let res: Result<usize, String> = progress.read(Ok(5));
    assert_eq!(res, Ok(5));
    assert_eq!(progress.specific_position(), 13);
    assert_eq!(progress.global_position(), 113);
}

#[test]
fn a_failed_read_moves_no_counter() {
    let mut progress = DualProgressReader::new(3, 4);
    let res: Result<usize, String> = progress.read(Err("gone".to_string()));
    assert_eq!(res, Err("gone".to_string()));
    assert_eq!(progress.specific_position(), 3);
    assert_eq!(progress.global_position(), 4);
}

#[test]
fn the_end_of_the_stream_moves_no_counter() {
    let mut progress = DualProgressReader::new(3, 4);
    let res: Result<usize, String> = progress.read(Ok(0));
    assert_eq!(res, Ok(0));
    assert_eq!(progress.specific_position(), 3);
    assert_eq!(progress.global_position(), 4);
}

#[test]
fn a_counter_stops_at_its_largest_number() {
    let mut progress = DualProgressReader::new(1, u64::MAX - 2);
    let res: Result<usize, String> = progress.read(Ok(10));
    assert_eq!(res, Ok(10));
    assert_eq!(progress.specific_position(), 11);
    assert_eq!(progress.global_position(), u64::MAX);
}
