use xim_reader::reader::{ReadError, Reader};

#[test]
fn pad_after_three_bytes_skips_one() {
    let buf = [1u8, 2, 3, 0, 5, 6];
    let mut r = Reader::new(&buf);
    r.consume(3usize).unwrap();
    assert_eq!(r.pad_len(), 1);
    r.pad();
    assert_eq!(r.bytes_len(), 2);
    assert_eq!(r.pad_len(), 0);
    assert_eq!(r.u8().unwrap(), 5);
}

#[test]
fn pad_at_origin_skips_nothing() {
    let buf = [1u8, 2, 3, 4];
    let mut r = Reader::new(&buf);
    assert_eq!(r.pad_len(), 0);
    r.pad();
    assert_eq!(r.bytes_len(), 4);
    assert_eq!(r.u8().unwrap(), 1);
}

#[test]
fn pad_on_empty_buffer_at_origin() {
    let buf: [u8; 0] = [];
    let mut r = Reader::new(&buf);
    r.pad();
    assert_eq!(r.bytes_len(), 0);
    assert_eq!(r.pad_len(), 0);
}

#[test]
fn pad_len_for_each_count() {
    let buf = [0u8; 16];
    let expected: [usize; 10] = [0, 3, 2, 1, 0, 3, 2, 1, 0, 3];
    let mut r = Reader::new(&buf);
    let mut count: usize = 0;
    while count < expected.len() {
        assert_eq!(r.pad_len(), expected[count]);
        r.u8().unwrap();
        count += 1;
    }
}

#[test]
fn pad_skips_one_two_or_three_bytes() {
    let buf = [1u8, 2, 3, 4, 5, 6, 7, 8];
    let mut n: usize = 1;
    while n <= 3 {
        let mut r = Reader::new(&buf);
        r.consume(n).unwrap();
        r.pad();
        assert_eq!(r.bytes_len(), 4);
        assert_eq!(r.u8().unwrap(), 5);
        n += 1;
    }
}

#[test]
fn pad_twice_skips_nothing_the_second_time() {
    let buf = [1u8, 0, 0, 0, 5, 6, 7, 8];
    let mut r = Reader::new(&buf);
    r.u8().unwrap();
    r.pad();
    assert_eq!(r.bytes_len(), 4);
    r.pad();
    assert_eq!(r.bytes_len(), 4);
    assert_eq!(r.pad_len(), 0);
    assert_eq!(r.u8().unwrap(), 5);
}

#[test]
fn pad_after_whole_words_skips_nothing() {
    let buf = [1u8, 0, 2, 3, 4, 5, 6, 7, 8, 9];
    let mut r = Reader::new(&buf);
    r.u8().unwrap();
    r.u16().unwrap();
    r.u8().unwrap();
    assert_eq!(r.pad_len(), 0);
    r.pad();
    assert_eq!(r.bytes_len(), 6);
    r.consume(3usize).unwrap();
    r.consume(1u8).unwrap();
    r.pad();
    assert_eq!(r.bytes_len(), 2);
    assert_eq!(r.u8().unwrap(), 8);
}

#[test]
fn pad_after_eight_bytes_skips_nothing() {
    let buf = [0u8; 9];
    let mut r = Reader::new(&buf);
    r.consume(8usize).unwrap();
    r.pad();
    assert_eq!(r.bytes_len(), 1);
}

#[test]
fn clear_len_sets_a_new_origin() {
    let buf = [1u8, 2, 3, 4, 5, 6, 7, 8];
    let mut r = Reader::new(&buf);
    r.consume(3usize).unwrap();
    assert_eq!(r.pad_len(), 1);
    r.clear_len();
    assert_eq!(r.bytes_len(), 5);
    assert_eq!(r.pad_len(), 0);
    r.pad();
    assert_eq!(r.bytes_len(), 5);
    r.u8().unwrap();
    assert_eq!(r.pad_len(), 3);
    r.pad();
    assert_eq!(r.bytes_len(), 1);
    assert_eq!(r.u8().unwrap(), 8);
}

#[test]
fn padding_counts_from_the_last_origin() {
    let buf = [1u8, 2, 0, 0, 5, 0, 0, 0, 9];
    let mut r = Reader::new(&buf);
    r.u16().unwrap();
    r.pad();
    assert_eq!(r.bytes_len(), 5);
    assert_eq!(r.u8().unwrap(), 5);
    assert_eq!(r.pad_len(), 3);
    r.pad();
    assert_eq!(r.u8().unwrap(), 9);
    assert_eq!(r.bytes_len(), 0);
}

#[test]
fn missing_padding_shows_before_pad() {
    let buf = [1u8, 2, 3, 4, 5];
    let mut r = Reader::new(&buf);
    r.consume(5usize).unwrap();
    assert_eq!(r.pad_len(), 3);
    assert_eq!(r.bytes_len(), 0);
    assert!(r.pad_len() > r.bytes_len());
    assert!(matches!(r.u8(), Err(ReadError::EndOfStream)));
}

#[test]
fn pad_may_take_the_last_bytes() {
    let buf = [1u8, 0, 0, 0];
    let mut r = Reader::new(&buf);
    r.u8().unwrap();
    assert_eq!(r.pad_len(), r.bytes_len());
    r.pad();
    assert_eq!(r.bytes_len(), 0);
    assert_eq!(r.pad_len(), 0);
}
