use securefilesys::metadata::FileMetadata;

#[test]
fn renders_the_record_as_json() {
    let m = FileMetadata::new("example.txt".to_string(), 15);
    assert_eq!(m.to_json(), br#"{"filename":"example.txt","size":15}"#.to_vec());
}

#[test]
fn escapes_quotes_and_backslashes_in_the_name() {
    let m = FileMetadata::new("a\"b\\c".to_string(), 0);
    assert_eq!(m.to_json(), br#"{"filename":"a\"b\\c","size":0}"#.to_vec());
}

#[test]
fn renders_zero_and_the_largest_size() {
    let zero = FileMetadata::new("z".to_string(), 0);
    assert_eq!(zero.to_json(), br#"{"filename":"z","size":0}"#.to_vec());
    let max = FileMetadata::new("m".to_string(), u64::MAX);
    assert_eq!(
        max.to_json(),
        br#"{"filename":"m","size":18446744073709551615}"#.to_vec()
    );
}

#[test]
fn escapes_control_bytes_in_the_name() {
    let m = FileMetadata::new("a\nb".to_string(), 1);
    assert_eq!(m.to_json(), br#"{"filename":"a\u000ab","size":1}"#.to_vec());
    let m = FileMetadata::new("\t\u{1f}".to_string(), 2);
    assert_eq!(m.to_json(), br#"{"filename":"\u0009\u001f","size":2}"#.to_vec());
}

#[test]
fn keeps_a_multibyte_name_verbatim() {
    let m = FileMetadata::new("naïve.txt".to_string(), 7);
    let mut expected = Vec::new();
    expected.extend_from_slice(b"{\"filename\":\"");
    expected.extend_from_slice("naïve.txt".as_bytes());
    expected.extend_from_slice(b"\",\"size\":7}");
    assert_eq!(m.to_json(), expected);
}
