use chunked::artifact::{artifact_name, artifact_name_for_digest, chunk_file_name, ChunkError};
use chunked::chunks::{chunk_of, chunk_span};
use sha2::{Digest, Sha256};

#[test]
fn test_chunk_valid_file() {
    let file_contents = "Hello, World!";
    let chunk_size = 5;
    let chunk_index = 1;
    let result = chunk_of(file_contents.as_bytes(), chunk_size, chunk_index);

    assert_eq!(result, b", Wor");
}

#[test]
fn test_save_chunk() {
    let file_path = "/tmp/example.txt";
    let chunk_index = 0;
    let chunk_contents = vec![1u8, 2, 3, 4, 5];
    let result = chunk_file_name(file_path, chunk_index, &chunk_contents);

    assert!(result.is_ok());

    let file_stem = "example";
    let mut hasher = Sha256::new();
    hasher.update(&chunk_contents);
    let chunk_hash = hasher.finalize();
    let chunk_filename = format!("{}_{}_{:x}.chunk", file_stem, chunk_index, chunk_hash);

    assert_eq!(result.unwrap(), chunk_filename);
}

#[test]
fn chunks_of_hello_world_truncate_at_the_end() {
    let data = b"Hello, World!";
    assert_eq!(chunk_of(data, 5, 0), b"Hello");
    assert_eq!(chunk_of(data, 5, 1), b", Wor");
    assert_eq!(chunk_of(data, 5, 2), b"ld!");
    assert_eq!(chunk_of(data, 5, 3), b"");
}

#[test]
fn chunks_rejoin_to_the_data() {
    let data: Vec<u8> = (0u8..=200).collect();
    for size in 1u64..=23 {
        let count = (data.len() as u64 + size - 1) / size;
        let mut joined = Vec::new();
        for index in 0..count {
            joined.extend(chunk_of(&data, size, index));
        }
        assert_eq!(joined, data);
        assert!(chunk_of(&data, size, count).is_empty());
    }
}

#[test]
fn chunks_past_the_end_are_empty() {
    let data = b"Hello, World!";
    assert!(chunk_of(data, 13, 1).is_empty());
    assert!(chunk_of(data, 1, 13).is_empty());
    assert!(chunk_of(data, 7, 1000).is_empty());
    assert!(chunk_of(data, u64::MAX, u64::MAX).is_empty());
    assert!(chunk_of(b"", 4, 0).is_empty());
}

#[test]
fn chunk_size_zero_gives_empty_chunks() {
    assert!(chunk_of(b"abc", 0, 0).is_empty());
    assert!(chunk_of(b"abc", 0, 5).is_empty());
    assert_eq!(chunk_span(3, 0, 5), (0, 0));
}

#[test]
fn chunk_span_gives_offset_and_length() {
    assert_eq!(chunk_span(13, 5, 0), (0, 5));
    assert_eq!(chunk_span(13, 5, 2), (10, 3));
    assert_eq!(chunk_span(13, 5, 3), (13, 0));
    assert_eq!(chunk_span(100, u64::MAX, 2), (100, 0));
    assert_eq!(chunk_span(u64::MAX, u64::MAX, 1), (u64::MAX, 0));
    assert_eq!(chunk_span(u64::MAX, 1 << 32, 1), (1 << 32, 1 << 32));
}

#[test]
fn artifact_name_is_stem_index_and_digest() {
    let name = artifact_name("file", 0, &[1, 2, 3, 4, 5]);
    assert_eq!(
        name,
        "file_0_74f81fe167d99b4cb41d6d0ccda82278caee9f3e2f25d5e5a3936ff3dcec60d0.chunk"
    );
}

#[test]
fn artifact_name_changes_with_one_byte() {
    let name = artifact_name("file", 0, &[1, 2, 3, 4, 6]);
    assert_eq!(
        name,
        "file_0_4c1267348604afbcad674bafb7c984e5a4cf9d9ad0f35a47dc9fe1bfe4875482.chunk"
    );
    assert_ne!(name, artifact_name("file", 0, &[1, 2, 3, 4, 5]));
}

#[test]
fn artifact_name_is_deterministic() {
    let a = artifact_name("notes", 7, b"same bytes");
    let b = artifact_name("notes", 7, b"same bytes");
    assert_eq!(a, b);
    assert_eq!(
        chunk_file_name("dir/notes.md", 7, b"same bytes"),
        chunk_file_name("dir/notes.md", 7, b"same bytes")
    );
}

#[test]
fn artifact_name_differs_by_index() {
    let a = artifact_name("file", 1, &[9]);
    let b = artifact_name("file", 10, &[9]);
    assert_ne!(a, b);
    assert!(a.starts_with("file_1_"));
    assert!(b.starts_with("file_10_"));
}

#[test]
fn artifact_name_for_digest_formats_exactly() {
    let name = artifact_name_for_digest("a.b", 1234567890, &[0x00, 0x0f, 0xa0, 0xff]);
    assert_eq!(name, "a.b_1234567890_000fa0ff.chunk");
    let max = artifact_name_for_digest("x", u64::MAX, &[]);
    assert_eq!(max, "x_18446744073709551615_.chunk");
}

#[test]
fn chunk_file_name_takes_the_stem() {
    let name = chunk_file_name("some/dir/archive.tar.gz", 3, b"").unwrap();
    assert_eq!(
        name,
        "archive.tar_3_e3b0c44298fc1c149afbf4c8996fb92427ae41e4649b934ca495991b7852b855.chunk"
    );
    let name = chunk_file_name("README", 0, b"").unwrap();
    assert!(name.starts_with("README_0_"));
}

#[test]
fn path_without_stem_is_a_naming_error() {
    assert_eq!(chunk_file_name("/", 0, &[1, 2, 3]), Err(ChunkError::NoStem));
    assert_eq!(chunk_file_name("", 0, &[1, 2, 3]), Err(ChunkError::NoStem));
    assert_eq!(chunk_file_name("dir/..", 0, &[1, 2, 3]), Err(ChunkError::NoStem));
    assert_eq!(chunk_file_name("..", 0, &[1, 2, 3]), Err(ChunkError::NoStem));
}

#[test]
fn chunk_file_name_of_plain_shapes() {
    let digest = "74f81fe167d99b4cb41d6d0ccda82278caee9f3e2f25d5e5a3936ff3dcec60d0";
    let bytes = [1u8, 2, 3, 4, 5];
    assert_eq!(
        chunk_file_name("file", 0, &bytes).unwrap(),
        format!("file_0_{}.chunk", digest)
    );
    assert_eq!(
        chunk_file_name("file.bin", 0, &bytes).unwrap(),
        format!("file_0_{}.chunk", digest)
    );
    assert_eq!(
        chunk_file_name("dir/file", 12, &bytes).unwrap(),
        format!("file_12_{}.chunk", digest)
    );
}
