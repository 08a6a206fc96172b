use kodegen_bundler::checksum::bytes_leq;
use kodegen_bundler::checksum::calculate_directory_sha256;
use kodegen_bundler::checksum::calculate_file_sha256;
use kodegen_bundler::checksum::calculate_sha256;
use kodegen_bundler::checksum::hex_encode;
use kodegen_bundler::checksum::hash_kind;
use kodegen_bundler::checksum::sort_paths;
use kodegen_bundler::checksum::ChecksumStream;
use kodegen_bundler::checksum::FileEntry;
use kodegen_bundler::checksum::HashSource;
use kodegen_bundler::checksum::PathKind;
use kodegen_bundler::checksum::TreeStream;
use kodegen_bundler::error::ProducerError;

fn entry(path: &str, content: &[u8]) -> FileEntry {
    FileEntry { rel_path: path.to_string(), content: content.to_vec() }
}

fn is_lower_hex_64(text: &str) -> bool {
    text.len() == 64 && text.chars().all(|c| c.is_ascii_digit() || ('a'..='f').contains(&c))
}

#[test]
fn file_digest_of_known_messages() {
    assert_eq!(
        calculate_file_sha256(b""),
        "e3b0c44298fc1c149afbf4c8996fb92427ae41e4649b934ca495991b7852b855"
    );
    assert_eq!(
        calculate_file_sha256(b"abc"),
        "ba7816bf8f01cfea414140de5dae2223b00361a396177a9cb410ff61f20015ad"
    );
}

#[test]
fn digest_is_64_lower_case_hex_digits() {
    assert!(is_lower_hex_64(&calculate_file_sha256(b"some artifact")));
    assert!(is_lower_hex_64(&calculate_directory_sha256(vec![entry("a", b"x")])));
    assert!(is_lower_hex_64(&calculate_directory_sha256(vec![])));
}

#[test]
fn streamed_digest_equals_digest_of_the_whole() {
    let mut stream = ChecksumStream::new();
    stream.absorb(b"a");
    stream.absorb(b"");
    stream.absorb(b"bc");
    assert_eq!(stream.finish(), calculate_file_sha256(b"abc"));
}

#[test]
fn directory_digest_is_the_digest_of_paths_and_contents_in_path_order() {
    let digest = calculate_directory_sha256(vec![entry("b.txt", b"world"), entry("a.txt", b"hello")]);
    assert_eq!(digest, "3b470f925edcda36894769ad4ca1a5d83b6ac790ad6e3fcddd9109fbe9585ca9");
    assert_eq!(digest, calculate_file_sha256(b"a.txthellob.txtworld"));
}

#[test]
fn directory_digest_orders_paths_byte_by_byte() {
    let digest = calculate_directory_sha256(vec![
        entry("ab.txt", b"z"),
        entry("a/c.txt", b"y"),
        entry("a/b.txt", b"x"),
    ]);
    assert_eq!(digest, "c204ee792d567d17285979270d1bb47067a2132964abe2f43b6832e19a8e4a18");
}

#[test]
fn directory_digest_ignores_listing_order() {
    let files: [(&str, &[u8]); 4] =
        [("bin/app", b"\x7fELF"), ("Info.plist", b"<plist/>"), ("a", b""), ("lib/x.so", b"123")];
    let orders: [[usize; 4]; 4] = [[0, 1, 2, 3], [3, 2, 1, 0], [1, 3, 0, 2], [2, 0, 3, 1]];
    let first = calculate_directory_sha256(files.iter().map(|f| entry(f.0, f.1)).collect());
    for order in orders {
        let listing = order.iter().map(|i| entry(files[*i].0, files[*i].1)).collect();
        assert_eq!(calculate_directory_sha256(listing), first);
    }
}

#[test]
fn directory_digest_changes_with_one_byte() {
    let before = calculate_directory_sha256(vec![entry("a.txt", b"hello"), entry("b.txt", b"world")]);
    let after = calculate_directory_sha256(vec![entry("a.txt", b"hello"), entry("b.txt", b"worle")]);
    assert_ne!(before, after);
    assert_eq!(after, "7c7bee98647a0dff9b769d45886150cb1b5821c0820ffbe99f29247aa93acfe5");
}

#[test]
fn directory_digest_depends_on_paths() {
    let one = calculate_directory_sha256(vec![entry("a", b"x")]);
    let other = calculate_directory_sha256(vec![entry("b", b"x")]);
    assert_ne!(one, other);
}

#[test]
fn tree_can_be_streamed_in_sorted_order() {
    let sorted = sort_paths(vec!["b.txt".to_string(), "a.txt".to_string()]);
    assert_eq!(sorted, vec!["a.txt".to_string(), "b.txt".to_string()]);
    let mut stream = ChecksumStream::new();
    for (path, content) in sorted.iter().zip([b"hello", b"world"]) {
        stream.absorb_path(path);
        stream.absorb(&content[..2]);
        stream.absorb(&content[2..]);
    }
    assert_eq!(
        stream.finish(),
        calculate_directory_sha256(vec![entry("b.txt", b"world"), entry("a.txt", b"hello")])
    );
}

#[test]
fn paths_sort_by_bytes() {
    let sorted = sort_paths(
        ["a/c.txt", "ab.txt", "a/b.txt", "a.txt", "Z", "a"].iter().map(|s| s.to_string()).collect(),
    );
    assert_eq!(sorted, vec!["Z", "a", "a.txt", "a/b.txt", "a/c.txt", "ab.txt"]);
    assert_eq!(sort_paths(vec![]), Vec::<String>::new());
}

#[test]
fn byte_order_is_lexicographic() {
    assert!(bytes_leq(b"", b""));
    assert!(bytes_leq(b"", b"a"));
    assert!(!bytes_leq(b"a", b""));
    assert!(bytes_leq(b"a", b"ab"));
    assert!(!bytes_leq(b"ab", b"a"));
    assert!(bytes_leq(b"a/", b"ab"));
    assert!(bytes_leq(b"\x7f", b"\x80"));
    assert!(!bytes_leq(b"\xff", b"\x00\xff"));
}

#[test]
fn hex_is_two_lower_case_digits_per_byte() {
    assert_eq!(hex_encode(&vec![]), "");
    assert_eq!(hex_encode(&vec![0x00, 0x0f, 0xa0, 0xff, 0x9a]), "000fa0ff9a");
}

#[test]
fn digest_of_a_path_goes_by_what_is_there() {
    assert_eq!(
        calculate_sha256("/out/app.deb", HashSource::File(b"abc".to_vec())).unwrap(),
        calculate_file_sha256(b"abc")
    );
    assert_eq!(
        calculate_sha256("/out/My.app", HashSource::Directory(vec![entry("a.txt", b"hello"), entry("b.txt", b"world")]))
            .unwrap(),
        "3b470f925edcda36894769ad4ca1a5d83b6ac790ad6e3fcddd9109fbe9585ca9"
    );
    match calculate_sha256("/dev/null", HashSource::Other) {
        Err(ProducerError::PathType(path)) => assert_eq!(path, "/dev/null"),
        other => panic!("unexpected result: {:?}", other),
    }
    assert_eq!(
        ProducerError::PathType("/dev/null".to_string()).message(),
        "Path is neither file nor directory: /dev/null"
    );
}

#[test]
fn a_tree_is_streamed_file_by_file_in_path_order() {
    let mut tree = TreeStream::new(vec!["b.txt".to_string(), "a.txt".to_string()]);
    assert!(!tree.absorb(b"early"));
    assert_eq!(tree.next_file(), Some("a.txt".to_string()));
    assert!(tree.absorb(b"he"));
    assert!(tree.absorb(b""));
    assert!(tree.absorb(b"llo"));
    assert_eq!(tree.next_file(), Some("b.txt".to_string()));
    assert!(tree.absorb(b"world"));
    assert_eq!(tree.next_file(), None);
    assert_eq!(tree.next_file(), None);
    assert_eq!(tree.finish().unwrap(), "3b470f925edcda36894769ad4ca1a5d83b6ac790ad6e3fcddd9109fbe9585ca9");
}

#[test]
fn a_tree_is_not_finished_before_every_file_was_begun() {
    let mut tree = TreeStream::new(vec!["b".to_string(), "a".to_string()]);
    assert_eq!(tree.next_file(), Some("a".to_string()));
    match tree.finish() {
        Err(ProducerError::GenericError(text)) => assert_eq!(text, "not every file of the tree has been read"),
        other => panic!("unexpected result: {:?}", other),
    }
    let empty = TreeStream::new(vec![]);
    assert_eq!(empty.finish().unwrap(), "e3b0c44298fc1c149afbf4c8996fb92427ae41e4649b934ca495991b7852b855");
}

#[test]
fn a_streamed_tree_equals_the_tree_held_in_memory() {
    let files = [("z/last", &b"3"[..]), ("a/first", &b"1"[..]), ("a/first.txt", &b""[..]), ("m", &b"22"[..])];
    let mut tree = TreeStream::new(files.iter().map(|f| f.0.to_string()).collect());
    while let Some(path) = tree.next_file() {
        let content = files.iter().find(|f| f.0 == path).unwrap().1;
        for byte in content {
            assert!(tree.absorb(&[*byte]));
        }
    }
    let held = calculate_directory_sha256(files.iter().map(|f| entry(f.0, f.1)).collect());
    assert_eq!(tree.finish().unwrap(), held);
}

#[test]
fn what_is_hashed_goes_by_the_kind_of_the_path() {
    assert_eq!(hash_kind("/out/app.deb", true, false).unwrap(), PathKind::File);
    assert_eq!(hash_kind("/out/app.deb", true, true).unwrap(), PathKind::File);
    assert_eq!(hash_kind("/out/My.app", false, true).unwrap(), PathKind::Directory);
    match hash_kind("/dev/null", false, false) {
        Err(ProducerError::PathType(path)) => assert_eq!(path, "/dev/null"),
        other => panic!("unexpected result: {:?}", other),
    }
}
