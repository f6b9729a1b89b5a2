use nfs_mamont::parser::to_parse::{list, StringWithMaxLen, ToParse, VecWithMaxLen};
use nfs_mamont::parser::Cursor;
use nfs_mamont::parser::Error;
use std::fmt::Debug;

fn run_test<T: ToParse + PartialEq + Debug>(mut src: Cursor, res: &mut [T]) {
    for correct_res in res {
        let val = T::parse(&mut src).expect("Cannot parse value!");
        assert_eq!(val, *correct_res)
    }
}

fn run_test_u8(mut src: Cursor, res: &mut [u8]) {
    for correct_res in res {
        let val = src.read_u8().expect("Cannot read byte!");
        assert_eq!(val, *correct_res)
    }
    assert_eq!(src.position(), src.get_ref().len() as u64)
}

fn push_u32(src: &mut Vec<u8>, v: u32) {
    src.extend_from_slice(&v.to_be_bytes());
}

#[test]
fn test_u32() {
    let mut init = [0u32, 7, 788965];
    let mut src = Vec::with_capacity(size_of::<u32>() * init.len());
    for i in init {
        push_u32(&mut src, i);
    }
    run_test(Cursor::new(src), &mut init)
}

#[test]
fn test_u64() {
    let mut init = [2u64, 0, 125, 78569];
    let mut src = Vec::with_capacity(size_of::<u64>() * init.len());
    for i in init {
        src.extend_from_slice(&i.to_be_bytes());
    }
    run_test(Cursor::new(src), &mut init)
}

#[test]
fn test_bool() {
    let mut init = [true, false, true];
    let mut src = Vec::with_capacity(size_of::<u32>() * init.len());
    for i in init {
        push_u32(&mut src, if i { 1 } else { 0 });
    }
    run_test(Cursor::new(src), &mut init)
}

#[test]
fn test_option() {
    let mut init = [None, Some(85u32), Some(0)];
    let mut src = Vec::new();
    for op in init {
        if let Some(val) = op {
            push_u32(&mut src, 1);
            push_u32(&mut src, val);
        } else {
            push_u32(&mut src, 0);
        }
    }
    run_test(Cursor::new(src), &mut init);
}

#[test]
fn test_fixed_array() {
    let mut init = [457u32, 475, 0];
    let mut src = Vec::new();
    init.map(|i| push_u32(&mut src, i));
    run_test(Cursor::new(src), &mut init);
}

#[test]
fn test_u8_array() {
    let mut init = [255u8, 1, 4, 7, 0];
    let mut src = Vec::new();
    init.map(|i| src.push(i));
    run_test_u8(Cursor::new(src), &mut init);
}

#[test]
fn to_parse_test_vec_u8() {
    let init = vec![1u8, 2, 3, 4, 5];
    let mut src = Vec::new();
    push_u32(&mut src, init.len() as u32);
    for i in &init {
        src.push(*i);
    }
    let padding_len = (4 - (init.len() % 4)) % 4;
    src.extend(vec![0u8; padding_len]);

    let result = Vec::<u8>::parse(&mut Cursor::new(src)).unwrap();
    assert_eq!(result, init);
}

#[test]
fn to_parse_test_vec_u8_with_padding() {
    let init = vec![1u8, 2, 3];
    let mut src = Vec::new();
    push_u32(&mut src, init.len() as u32);
    for i in &init {
        src.push(*i);
    }
    src.push(0);
    let result = Vec::<u8>::parse(&mut Cursor::new(src)).unwrap();
    assert_eq!(result, init);
}

#[test]
fn to_parse_test_u8_array_padding_error() {
    let init = [1u8, 2, 3];
    let mut src = Vec::new();
    for i in &init {
        src.push(*i);
    }
    let result = <[u8; 3]>::parse(&mut Cursor::new(src));
    assert!(matches!(result, Err(Error::IncorrectPadding)));
}

#[test]
fn test_u8_array_correct() {
    let init = [1u8, 2, 3];
    let mut src = Vec::new();
    for i in &init {
        src.push(*i);
    }
    src.push(4);
    let result = <[u8; 3]>::parse(&mut Cursor::new(src)).unwrap();
    assert_eq!(init, result);
}

#[test]
fn test_u32_array_success() {
    let init = [1u32, 0, 457148];
    let mut src = Vec::new();
    for i in &init {
        push_u32(&mut src, *i);
    }
    let result = <[u32; 3]>::parse(&mut Cursor::new(src)).unwrap();
    assert_eq!(result, init);
}

#[test]
fn to_parse_test_u8_array_miss_elements() {
    let init = [78u32, 0, 78965];
    let mut src = Vec::new();
    let _ = init.map(|i| push_u32(&mut src, i));
    let result = <[u32; 4]>::parse(&mut Cursor::new(src));
    assert!(matches!(result, Err(Error::IO(_))));
}

#[test]
fn test_vec_u32() {
    let init = vec![457u32, 475, 0, 42];
    let mut src = Vec::new();
    push_u32(&mut src, init.len() as u32);
    for i in &init {
        push_u32(&mut src, *i);
    }
    let result = Vec::<u32>::parse(&mut Cursor::new(src)).unwrap();
    assert_eq!(result, init);
}

#[test]
fn to_parse_test_string_utf8_error() {
    let mut src = Vec::new();
    let invalid_utf8 = vec![0xFF, 0xFF, 0xFF];
    push_u32(&mut src, invalid_utf8.len() as u32);
    src.extend_from_slice(&invalid_utf8);
    src.push(0);
    let result = String::parse(&mut Cursor::new(src));
    assert!(matches!(result, Err(Error::IncorrectString)));
}

#[test]
fn to_parse_test_string_with_max_len_valid() {
    let test_string = "test".to_string();
    let mut src = Vec::new();
    push_u32(&mut src, test_string.len() as u32);
    src.extend_from_slice(test_string.as_bytes());
    let result = StringWithMaxLen::<10>::parse(&mut Cursor::new(src)).unwrap();
    assert_eq!(result.0, test_string);
}

#[test]
fn to_parse_test_string_with_max_len_too_long() {
    let test_string = "this string is too long".to_string();
    let mut src = Vec::new();

    push_u32(&mut src, test_string.len() as u32);
    src.extend_from_slice(test_string.as_bytes());
    let padding_len = (4 - (test_string.len() % 4)) % 4;
    src.extend(vec![0u8; padding_len]);

    let result = StringWithMaxLen::<10>::parse(&mut Cursor::new(src));
    assert!(matches!(result, Err(Error::StringTooLong)));
}

#[test]
fn to_parse_test_read_error() {
    let mut src = Vec::new();
    push_u32(&mut src, 10);
    let result = Vec::<u8>::parse(&mut Cursor::new(src));
    assert!(matches!(result, Err(Error::IO(_))));
}

#[test]
fn vec_with_max_len_refuses_longer_data() {
    let mut src = Vec::new();
    push_u32(&mut src, 5);
    src.extend_from_slice(&[1, 2, 3, 4, 5, 0, 0, 0]);
    let result = VecWithMaxLen::<4>::parse(&mut Cursor::new(src.clone()));
    assert!(matches!(result, Err(Error::VecTooLong)));
    let result = VecWithMaxLen::<5>::parse(&mut Cursor::new(src)).unwrap();
    assert_eq!(result.0, vec![1, 2, 3, 4, 5]);
}

#[test]
fn test_vec_of_string() {
    let data = vec!["hello".to_string(), "world".to_string(), "test".to_string()];
    let mut src = Vec::new();

    push_u32(&mut src, data.len() as u32);
    for s in &data {
        push_u32(&mut src, s.len() as u32);
        src.extend_from_slice(s.as_bytes());
        let padding_len = (4 - (s.len() % 4)) % 4;
        src.extend(vec![0u8; padding_len]);
    }
    let result = list::<String>(&mut Cursor::new(src)).unwrap();
    assert_eq!(result, data);
}

#[test]
fn a_list_stops_at_its_first_bad_item() {
    let mut src = Vec::new();
    push_u32(&mut src, 2);
    push_u32(&mut src, 1);
    src.extend_from_slice(&[b'a', 0, 0, 0]);
    push_u32(&mut src, 1);
    src.extend_from_slice(&[0xFF, 0, 0, 0]);
    assert!(matches!(list::<String>(&mut Cursor::new(src)), Err(Error::IncorrectString)));
}
