use isal_node::operation::{all_operations, Codec, Direction, Mode, Operation, OPERATION_COUNT};

#[test]
fn exports_twelve_operations_under_their_names_in_order() {
    let names: Vec<String> = all_operations().iter().map(|op| op.export_name()).collect();
    assert_eq!(
        names,
        vec![
            "compressGzip",
            "decompressGzip",
            "compressDeflate",
            "decompressDeflate",
            "compressZlib",
            "decompressZlib",
            "compressGzipAsync",
            "decompressGzipAsync",
            "compressDeflateAsync",
            "decompressDeflateAsync",
            "compressZlibAsync",
            "decompressZlibAsync",
        ]
    );
}

#[test]
fn the_count_is_twelve() {
    assert_eq!(OPERATION_COUNT, 12);
    assert_eq!(all_operations().len(), 12);
}

#[test]
fn an_export_name_is_built_from_direction_codec_and_mode() {
    let op = Operation::new(Codec::Zlib, Direction::Decompress, Mode::NonBlocking);
    assert_eq!(op.export_name(), "decompressZlibAsync");
    let op = Operation::new(Codec::Deflate, Direction::Compress, Mode::Blocking);
    assert_eq!(op.export_name(), "compressDeflate");
}

#[test]
fn no_two_operations_share_a_name() {
    let operations = all_operations();
    for (i, a) in operations.iter().enumerate() {
        for (j, b) in operations.iter().enumerate() {
            assert_eq!(i == j, a.export_name() == b.export_name());
            assert_eq!(i == j, a == b);
        }
    }
}

#[test]
fn every_combination_is_exported_once() {
    let operations = all_operations();
    for codec in [Codec::Gzip, Codec::Deflate, Codec::Zlib] {
        for direction in [Direction::Compress, Direction::Decompress] {
            for mode in [Mode::Blocking, Mode::NonBlocking] {
                let op = Operation::new(codec, direction, mode);
                assert_eq!(operations.iter().filter(|other| **other == op).count(), 1);
            }
        }
    }
}

#[test]
fn at_slot_walks_the_export_order() {
    let operations = all_operations();
    for (i, op) in operations.iter().enumerate() {
        assert_eq!(Operation::at_slot(i), Some(*op));
    }
}

#[test]
fn there_is_no_thirteenth_slot() {
    assert_eq!(Operation::at_slot(12), None);
    assert_eq!(Operation::at_slot(usize::MAX), None);
}

#[test]
fn blocking_operations_come_before_the_others() {
    let operations = all_operations();
    assert_eq!(operations[0], Operation::new(Codec::Gzip, Direction::Compress, Mode::Blocking));
    assert_eq!(operations[5], Operation::new(Codec::Zlib, Direction::Decompress, Mode::Blocking));
    assert_eq!(operations[6], Operation::new(Codec::Gzip, Direction::Compress, Mode::NonBlocking));
    assert_eq!(
        operations[11],
        Operation::new(Codec::Zlib, Direction::Decompress, Mode::NonBlocking)
    );
}
