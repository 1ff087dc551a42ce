use rustipc::path::{check_copied, copy_path};
use rustipc::{str_len, strlcpy_from_user, IpcError};

fn user(text: &str) -> Vec<i8> {
    let mut memory: Vec<i8> = text.bytes().map(|b| b as i8).collect();
    memory.push(0);
    memory
}

#[test]
fn length_stops_at_the_first_terminator() {
    assert_eq!(str_len(Some(&user("/tmp/ipc"))), 8);
    assert_eq!(str_len(Some(&[47, 0, 47, 0])), 1);
    assert_eq!(str_len(Some(&[0])), 0);
    assert_eq!(str_len(None), 0);
}

#[test]
fn short_string_is_copied_with_its_terminator() {
    let mut buffer = [7i8; 6];
    assert_eq!(strlcpy_from_user(&mut buffer, Some(&user("abc")), 6), 3);
    assert_eq!(buffer, [97, 98, 99, 0, 7, 7]);
}

#[test]
fn copied_string_reads_back() {
    let mut buffer = [7i8; 16];
    let copied = strlcpy_from_user(&mut buffer, Some(&user("/tmp/ipc")), 16);
    assert_eq!(copied as usize, str_len(Some(&buffer)));
    assert_eq!(&buffer[..9], &user("/tmp/ipc")[..]);
    assert_eq!(&buffer[9..], &[7i8; 7]);
}

#[test]
fn string_that_just_fits_is_copied() {
    let mut buffer = [7i8; 4];
    assert_eq!(strlcpy_from_user(&mut buffer, Some(&user("abc")), 4), 3);
    assert_eq!(buffer, [97, 98, 99, 0]);
}

#[test]
fn long_string_is_refused() {
    let mut buffer = [7i8; 4];
    assert_eq!(strlcpy_from_user(&mut buffer, Some(&user("abcd")), 4), -1);
    assert_eq!(buffer, [97, 98, 99, 100]);
    assert_eq!(strlcpy_from_user(&mut buffer, Some(&user("uvwxyz")), 4), -1);
    assert_eq!(buffer, [117, 118, 119, 120]);
}

#[test]
fn limit_below_the_buffer_is_kept() {
    let mut buffer = [7i8; 8];
    assert_eq!(strlcpy_from_user(&mut buffer, Some(&user("abc")), 3), -1);
    assert_eq!(buffer, [97, 98, 99, 7, 7, 7, 7, 7]);
}

#[test]
fn null_path_is_empty() {
    let mut buffer = [7i8; 3];
    assert_eq!(strlcpy_from_user(&mut buffer, None, 3), 0);
    assert_eq!(buffer, [0, 7, 7]);
}

#[test]
fn copied_length_is_judged() {
    assert_eq!(check_copied(-1, IpcError::AlreadyExists), Err(IpcError::BufferOverflow));
    assert_eq!(check_copied(0, IpcError::AlreadyExists), Ok(()));
    assert_eq!(check_copied(255, IpcError::AlreadyExists), Ok(()));
    assert_eq!(check_copied(256, IpcError::AlreadyExists), Err(IpcError::AlreadyExists));
    assert_eq!(check_copied(256, IpcError::InvalidArguments), Err(IpcError::InvalidArguments));
}

#[test]
fn path_buffer_is_padded_with_zeros() {
    let buffer = copy_path(Some(&user("/a")), IpcError::AlreadyExists).unwrap();
    assert_eq!(buffer.len(), 256);
    assert_eq!(&buffer[..3], &[47, 97, 0]);
    assert!(buffer[3..].iter().all(|b| *b == 0));
}

#[test]
fn path_buffer_has_room_for_all_but_the_terminator() {
    let longest = user(&"p".repeat(255));
    let buffer = copy_path(Some(&longest), IpcError::AlreadyExists).unwrap();
    assert_eq!(&buffer[..], &longest[..]);
    let too_long = user(&"p".repeat(256));
    assert_eq!(
        copy_path(Some(&too_long), IpcError::AlreadyExists),
        Err(IpcError::BufferOverflow)
    );
}
