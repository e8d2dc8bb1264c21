use bitcodec::file::{close, open, File};

#[test]
fn new_file_is_closed_and_empty() {
    let f = File::new("5.txt");
    assert_eq!(f.name(), "5.txt");
    assert_eq!(f.len(), 0);
}

#[test]
fn read_fails_on_closed_file() {
    let f = File::new("5.txt");
    let mut buffer: Vec<u8> = vec![];
    let r = f.read(&mut buffer);
    assert_eq!(r, Err(String::from("File must be open for reading")));
    assert!(buffer.is_empty());
}

#[test]
fn open_read_close_round() {
    let data = vec![104, 101, 108, 108, 111];
    let f = File::new_with_data("hello.txt", &data);
    let f = open(f).unwrap();
    let mut buffer: Vec<u8> = vec![];
    let n = f.read(&mut buffer).unwrap();
    assert_eq!(n, 5);
    assert_eq!(buffer, data);
    let f = close(f).unwrap();
    let r = f.read(&mut buffer);
    assert!(r.is_err());
    assert_eq!(buffer, data);
}

#[test]
fn read_appends_to_buffer() {
    let f = File::new_with_data("t.bin", &vec![4, 5, 6]);
    let f = open(f).unwrap();
    let mut buffer: Vec<u8> = vec![1, 2, 3];
    let n = f.read(&mut buffer).unwrap();
    assert_eq!(n, 3);
    assert_eq!(buffer, vec![1, 2, 3, 4, 5, 6]);
}

#[test]
fn new_with_data_keeps_bytes_and_stays_closed() {
    let data = vec![0, 255, 7];
    let f = File::new_with_data("d.bin", &data);
    assert_eq!(f.len(), 3);
    assert_eq!(f.name(), "d.bin");
    let mut buffer: Vec<u8> = vec![];
    assert!(f.read(&mut buffer).is_err());
}

#[test]
fn reopening_keeps_contents() {
    let f = File::new_with_data("r.bin", &vec![9, 8]);
    let f = open(f).unwrap();
    let f = close(f).unwrap();
    let f = open(f).unwrap();
    let mut buffer: Vec<u8> = vec![];
    assert_eq!(f.read(&mut buffer), Ok(2));
    assert_eq!(buffer, vec![9, 8]);
}
