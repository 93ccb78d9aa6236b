use scribe::failure::FailureReason;
use scribe::format::{StreamHeader, IMAGE_FILE, LABEL_FILE};
use scribe::header::{operation_is_valid, read_header, validate_header};
use scribe::stream::ByteStream;
use scribe::window::Window;

fn header_bytes(magic: u32, record_count: u32) -> Vec<u8> {
    let mut bytes = magic.to_be_bytes().to_vec();
    bytes.extend_from_slice(&record_count.to_be_bytes());
    bytes
}

#[test]
fn a_header_is_two_numbers() {
    let mut stream = ByteStream::new(header_bytes(2051, 60_000));
    assert_eq!(read_header(&mut stream), Ok(StreamHeader { magic: 2051, record_count: 60_000 }));
    assert_eq!(stream.position(), 8);
}

#[test]
fn a_header_is_read_at_the_cursor() {
    let mut bytes = vec![9, 9, 9];
    bytes.extend(header_bytes(2049, 7));
    let mut stream = ByteStream::new(bytes);
    stream.seek(3);
    assert_eq!(read_header(&mut stream), Ok(StreamHeader { magic: 2049, record_count: 7 }));
    assert_eq!(stream.position(), 11);
}

#[test]
fn a_header_cut_short_is_a_failure_and_moves_nothing() {
    for len in 0usize..8 {
        let mut bytes = header_bytes(2051, 10);
        bytes.truncate(len);
        let mut stream = ByteStream::new(bytes);
        assert_eq!(read_header(&mut stream), Err(FailureReason::FileIoFailure));
        assert_eq!(stream.position(), 0);
    }
}

#[test]
fn expected_magic_and_fitting_window_are_accepted() {
    let window = Window { start_from: 1, quantity: 10 };
    let mut images = ByteStream::new(header_bytes(2051, 10));
    assert_eq!(
        operation_is_valid(&mut images, IMAGE_FILE, &window),
        Ok(StreamHeader { magic: 2051, record_count: 10 })
    );
    assert_eq!(images.position(), 8);
    let mut labels = ByteStream::new(header_bytes(2049, 10));
    assert_eq!(
        operation_is_valid(&mut labels, LABEL_FILE, &window),
        Ok(StreamHeader { magic: 2049, record_count: 10 })
    );
}

#[test]
fn window_past_the_last_record_is_an_invalid_range() {
    let window = Window { start_from: 5, quantity: 10 };
    let mut stream = ByteStream::new(header_bytes(2051, 10));
    assert_eq!(
        operation_is_valid(&mut stream, IMAGE_FILE, &window),
        Err(FailureReason::InvalidRange)
    );
    let header = StreamHeader { magic: IMAGE_FILE, record_count: 10 };
    assert_eq!(validate_header(header, IMAGE_FILE, &window), Err(FailureReason::InvalidRange));
}

#[test]
fn empty_window_is_an_invalid_range_whatever_the_record_count() {
    for record_count in [0u32, 1, 10, 60_000, u32::MAX] {
        let window = Window { start_from: 1, quantity: 0 };
        let mut stream = ByteStream::new(header_bytes(2051, record_count));
        assert_eq!(
            operation_is_valid(&mut stream, IMAGE_FILE, &window),
            Err(FailureReason::InvalidRange)
        );
        let mut stream = ByteStream::new(header_bytes(2049, record_count));
        assert_eq!(
            operation_is_valid(&mut stream, LABEL_FILE, &window),
            Err(FailureReason::InvalidRange)
        );
    }
}

#[test]
fn window_from_record_zero_is_an_invalid_range() {
    let window = Window { start_from: 0, quantity: 1 };
    let mut stream = ByteStream::new(header_bytes(2051, 10));
    assert_eq!(
        operation_is_valid(&mut stream, IMAGE_FILE, &window),
        Err(FailureReason::InvalidRange)
    );
}

#[test]
fn magic_9999_is_a_type_mismatch() {
    let window = Window { start_from: 1, quantity: 10 };
    let mut stream = ByteStream::new(header_bytes(9999, 10));
    assert_eq!(
        operation_is_valid(&mut stream, IMAGE_FILE, &window),
        Err(FailureReason::FileTypeMismatch)
    );
}

#[test]
fn mismatched_magic_is_told_before_an_invalid_range() {
    for (start_from, quantity) in [(0u32, 0u32), (5, 10), (1, 0), (0, 3), (11, 1)] {
        let window = Window { start_from, quantity };
        let mut stream = ByteStream::new(header_bytes(2049, 10));
        assert_eq!(
            operation_is_valid(&mut stream, IMAGE_FILE, &window),
            Err(FailureReason::FileTypeMismatch)
        );
        let header = StreamHeader { magic: 2051, record_count: 10 };
        assert_eq!(
            validate_header(header, LABEL_FILE, &window),
            Err(FailureReason::FileTypeMismatch)
        );
    }
}

#[test]
fn labels_are_not_images_and_images_are_not_labels() {
    let window = Window { start_from: 1, quantity: 1 };
    let mut labels = ByteStream::new(header_bytes(LABEL_FILE, 10));
    assert_eq!(
        operation_is_valid(&mut labels, IMAGE_FILE, &window),
        Err(FailureReason::FileTypeMismatch)
    );
    let mut images = ByteStream::new(header_bytes(IMAGE_FILE, 10));
    assert_eq!(
        operation_is_valid(&mut images, LABEL_FILE, &window),
        Err(FailureReason::FileTypeMismatch)
    );
}

#[test]
fn a_header_cut_short_is_told_before_its_magic() {
    let window = Window { start_from: 0, quantity: 0 };
    let mut bytes = header_bytes(9999, 10);
    bytes.truncate(7);
    let mut stream = ByteStream::new(bytes);
    assert_eq!(
        operation_is_valid(&mut stream, IMAGE_FILE, &window),
        Err(FailureReason::FileIoFailure)
    );
    assert_eq!(stream.position(), 0);
}

#[test]
fn validation_succeeds_exactly_when_the_window_fits() {
    for start_from in 0u32..8 {
        for quantity in 0u32..8 {
            for record_count in 0u32..8 {
                let window = Window { start_from, quantity };
                let mut stream = ByteStream::new(header_bytes(2051, record_count));
                let fits = quantity >= 1 && start_from >= 1 && start_from + quantity - 1 <= record_count;
                let expected = if fits {
                    Ok(StreamHeader { magic: 2051, record_count })
                } else {
                    Err(FailureReason::InvalidRange)
                };
                assert_eq!(operation_is_valid(&mut stream, IMAGE_FILE, &window), expected);
            }
        }
    }
}
