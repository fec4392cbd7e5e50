use rhai_fs::error::FsError;
use rhai_fs::file::{
    convert_to_int, finish_offset, finish_read_blob, finish_read_string, finish_transfer,
    read_buffer, read_limit, seek_target, ReadLimit,
};

#[test]
fn no_ceiling_and_no_length_reads_to_the_end() {
    assert_eq!(read_limit(0, 0), ReadLimit::Unbounded);
    assert_eq!(read_buffer(ReadLimit::Unbounded), Vec::<u8>::new());
}

#[test]
fn no_ceiling_reads_the_requested_length() {
    assert_eq!(read_limit(0, 1), ReadLimit::AtMost(1));
    assert_eq!(read_limit(0, 15), ReadLimit::AtMost(15));
    assert_eq!(read_limit(0, 4096), ReadLimit::AtMost(4096));
}

#[test]
fn ceiling_alone_bounds_the_read() {
    assert_eq!(read_limit(4, 0), ReadLimit::AtMost(4));
    assert_eq!(read_limit(16, 0), ReadLimit::AtMost(16));
}

#[test]
fn ceiling_and_length_take_the_smaller() {
    assert_eq!(read_limit(4, 15), ReadLimit::AtMost(4));
    assert_eq!(read_limit(16, 15), ReadLimit::AtMost(15));
    assert_eq!(read_limit(8, 8), ReadLimit::AtMost(8));
    assert_eq!(read_limit(1, i64::MAX), ReadLimit::AtMost(1));
}

#[test]
fn negative_length_never_raises_the_bound() {
    assert_eq!(read_limit(0, -1), ReadLimit::AtMost(0));
    assert_eq!(read_limit(0, i64::MIN), ReadLimit::AtMost(0));
    assert_eq!(read_limit(4, -1), ReadLimit::AtMost(4));
    assert_eq!(read_limit(4, i64::MIN), ReadLimit::AtMost(4));
}

#[test]
fn ceiling_bounds_every_request() {
    let lengths: [i64; 9] = [i64::MIN, -7, -1, 0, 1, 3, 4, 5, i64::MAX];
    for ceiling in 1usize..6 {
        for len in lengths {
            match read_limit(ceiling, len) {
                ReadLimit::Unbounded => panic!("unbounded under a ceiling"),
                ReadLimit::AtMost(n) => {
                    assert!(n <= ceiling);
                    let buffer = read_buffer(ReadLimit::AtMost(n));
                    assert_eq!(buffer.len(), n);
                    for count in 0..n + 2 {
                        let text = finish_read_string(buffer.clone(), Ok(count)).unwrap();
                        assert!(text.len() <= ceiling);
                        let blob = finish_read_blob(buffer.clone(), Ok(count)).unwrap();
                        assert!(blob.len() <= ceiling);
                    }
                }
            }
        }
    }
}

#[test]
fn buffer_is_zero_filled_to_the_limit() {
    assert_eq!(read_buffer(ReadLimit::AtMost(0)), Vec::<u8>::new());
    assert_eq!(read_buffer(ReadLimit::AtMost(3)), vec![0u8, 0, 0]);
    assert_eq!(read_buffer(read_limit(4, 0)).len(), 4);
    assert_eq!(read_buffer(read_limit(16, 0)).len(), 16);
}

#[test]
fn text_is_the_bytes_obtained_and_no_more() {
    let mut buffer = b"This is a test!".to_vec();
    buffer.push(0);
    assert_eq!(finish_read_string(buffer.clone(), Ok(15)), Ok("This is a test!".to_string()));
    assert_eq!(finish_read_string(buffer.clone(), Ok(4)), Ok("This".to_string()));
    assert_eq!(finish_read_string(buffer.clone(), Ok(0)), Ok(String::new()));
    assert_eq!(finish_read_string(buffer.clone(), Ok(16)), Ok("This is a test!\0".to_string()));
    assert_eq!(finish_read_string(buffer, Ok(99)), Ok("This is a test!\0".to_string()));
}

#[test]
fn text_keeps_multibyte_characters() {
    let bytes = "naïve ✓".as_bytes().to_vec();
    assert_eq!(finish_read_string(bytes.clone(), Ok(bytes.len())), Ok("naïve ✓".to_string()));
    // Two bytes in, the second character is cut in half.
    assert!(matches!(finish_read_string(bytes, Ok(3)), Err(FsError::EncodingFailure(_))));
}

#[test]
fn malformed_text_is_an_encoding_failure() {
    let malformed = [
        vec![0xffu8],
        vec![0x61, 0x80],
        vec![0xc0, 0x80],
        vec![0xe0, 0x80, 0x80],
        vec![0xed, 0xa0, 0x80],
        vec![0xf4, 0x90, 0x80, 0x80],
        vec![0xe2, 0x9c],
        vec![0xf0, 0x9f, 0x92],
    ];
    for bytes in malformed {
        let count = bytes.len();
        assert!(matches!(
            finish_read_string(bytes.clone(), Ok(count)),
            Err(FsError::EncodingFailure(_))
        ));
        assert_eq!(finish_read_blob(bytes.clone(), Ok(count)), Ok(bytes));
    }
}

#[test]
fn read_failure_carries_the_message() {
    let failed: Result<usize, String> = Err("Bad file descriptor (os error 9)".to_string());
    assert_eq!(
        finish_read_string(vec![0; 4], failed.clone()),
        Err(FsError::IoFailure("Bad file descriptor (os error 9)".to_string()))
    );
    assert_eq!(
        finish_read_blob(vec![0; 4], failed.clone()),
        Err(FsError::IoFailure("Bad file descriptor (os error 9)".to_string()))
    );
    assert_eq!(
        finish_transfer(failed),
        Err(FsError::IoFailure("Bad file descriptor (os error 9)".to_string()))
    );
    assert_eq!(
        finish_offset(Err("Illegal seek (os error 29)".to_string())),
        Err(FsError::IoFailure("Illegal seek (os error 29)".to_string()))
    );
}

#[test]
fn blob_is_the_bytes_obtained_and_no_more() {
    let mut buffer = read_buffer(ReadLimit::AtMost(16));
    buffer[..9].copy_from_slice(&[1, 2, 3, 4, 5, 6, 7, 8, 9]);
    assert_eq!(finish_read_blob(buffer.clone(), Ok(9)), Ok(vec![1, 2, 3, 4, 5, 6, 7, 8, 9]));
    assert_eq!(finish_read_blob(buffer.clone(), Ok(4)), Ok(vec![1, 2, 3, 4]));
    assert_eq!(finish_read_blob(buffer.clone(), Ok(16)), Ok(buffer.clone()));
    assert_eq!(finish_read_blob(buffer.clone(), Ok(99)), Ok(buffer));
    assert_eq!(finish_read_blob(Vec::new(), Ok(0)), Ok(Vec::new()));
}

#[test]
fn nothing_obtained_is_an_empty_result_under_every_limit() {
    for limit in [ReadLimit::Unbounded, ReadLimit::AtMost(0), ReadLimit::AtMost(4)] {
        assert_eq!(finish_read_blob(read_buffer(limit), Ok(0)), Ok(Vec::new()));
        assert_eq!(finish_read_string(read_buffer(limit), Ok(0)), Ok(String::new()));
    }
}

#[test]
fn text_and_blob_of_one_read_hold_the_same_bytes() {
    let mut buffer = read_buffer(ReadLimit::AtMost(16));
    buffer[..15].copy_from_slice(b"This is a test!");
    for count in [0usize, 4, 15] {
        let text = finish_read_string(buffer.clone(), Ok(count)).unwrap();
        let blob = finish_read_blob(buffer.clone(), Ok(count)).unwrap();
        assert_eq!(text.as_bytes(), blob.as_slice());
        assert_eq!(blob.len(), count);
    }
}

#[test]
fn counts_and_offsets_convert_exactly() {
    assert_eq!(convert_to_int(0), Ok(0));
    assert_eq!(convert_to_int(15), Ok(15));
    assert_eq!(convert_to_int(i64::MAX as u64), Ok(i64::MAX));
    assert_eq!(finish_transfer(Ok(15)), Ok(15));
    assert_eq!(finish_transfer(Ok(0)), Ok(0));
    assert_eq!(finish_offset(Ok(1)), Ok(1));
    assert_eq!(finish_offset(Ok(i64::MAX as u64)), Ok(i64::MAX));
}

#[test]
fn values_beyond_the_script_integer_overflow() {
    assert_eq!(convert_to_int(i64::MAX as u64 + 1), Err(FsError::NumericOverflow));
    assert_eq!(convert_to_int(u64::MAX), Err(FsError::NumericOverflow));
    assert_eq!(finish_offset(Ok(u64::MAX)), Err(FsError::NumericOverflow));
    assert_eq!(finish_offset(Ok(1u64 << 63)), Err(FsError::NumericOverflow));
}

#[test]
fn seek_goes_to_a_position_from_the_start() {
    assert_eq!(seek_target(0), Ok(0));
    assert_eq!(seek_target(1), Ok(1));
    assert_eq!(seek_target(i64::MAX), Ok(i64::MAX as u64));
}

#[test]
fn negative_seek_is_an_io_failure() {
    for pos in [-1i64, -2, -4096, i64::MIN] {
        assert_eq!(
            seek_target(pos),
            Err(FsError::IoFailure("invalid seek to a negative position".to_string()))
        );
    }
}

#[test]
fn messages_read_as_they_were_given() {
    assert_eq!(FsError::IoFailure("No such file".to_string()).message(), "No such file");
    assert_eq!(FsError::EncodingFailure("invalid utf-8".to_string()).message(), "invalid utf-8");
    assert_eq!(
        FsError::NumericOverflow.message(),
        "number out of range of the script integer type"
    );
}
