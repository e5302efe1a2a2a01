use leading_zeros::LeadingZeroCount;
use std::borrow::Cow;
use std::rc::Rc;
use std::sync::Arc;

#[test]
fn unsigned_zero_and_one_every_width() {
    assert_eq!(0u16.count_leading_zeros(), 16);
    assert_eq!(1u16.count_leading_zeros(), 15);
    assert_eq!(0u64.count_leading_zeros(), 64);
    assert_eq!(1u64.count_leading_zeros(), 63);
    assert_eq!(0u128.count_leading_zeros(), 128);
    assert_eq!(1u128.count_leading_zeros(), 127);
    assert_eq!(0usize.count_leading_zeros(), usize::BITS as usize);
    assert_eq!(1usize.count_leading_zeros(), usize::BITS as usize - 1);
}

#[test]
fn unsigned_other_values() {
    assert_eq!(0x80u8.count_leading_zeros(), 0);
    assert_eq!(0x10u8.count_leading_zeros(), 3);
    assert_eq!(0x00ffu16.count_leading_zeros(), 8);
    assert_eq!(u32::MAX.count_leading_zeros(), 0);
    assert_eq!((1u64 << 40).count_leading_zeros(), 23);
    assert_eq!((1u128 << 100).count_leading_zeros(), 27);
    assert_eq!(u128::MAX.count_leading_zeros(), 0);
    assert_eq!(255usize.count_leading_zeros(), usize::BITS as usize - 8);
}

#[test]
fn signed_two_complement_pattern() {
    assert_eq!((-1i8).count_leading_zeros(), 0);
    assert_eq!(0i8.count_leading_zeros(), 8);
    assert_eq!(1i16.count_leading_zeros(), 15);
    assert_eq!(i32::MIN.count_leading_zeros(), 0);
    assert_eq!(i32::MAX.count_leading_zeros(), 1);
    assert_eq!(3i64.count_leading_zeros(), 62);
    assert_eq!(0i128.count_leading_zeros(), 128);
    assert_eq!((-5i128).count_leading_zeros(), 0);
    assert_eq!(1isize.count_leading_zeros(), usize::BITS as usize - 1);
    assert_eq!((-1isize).count_leading_zeros(), 0);
}

#[test]
fn text_count_within_length() {
    for s in ["", "0", "000", "0001", "1000", "00é", "é00"] {
        let n = s.count_leading_zeros();
        assert!(n <= s.len());
        assert!(n <= s.chars().count());
        assert_eq!(n == s.len(), s.chars().all(|c| c == '0'));
    }
    assert_eq!("000".count_leading_zeros(), 3);
}

#[test]
fn text_count_zero_exactly_without_leading_digit() {
    assert_eq!("".count_leading_zeros(), 0);
    assert_eq!("x0".count_leading_zeros(), 0);
    assert_eq!("é0".count_leading_zeros(), 0);
    assert_eq!(" 0".count_leading_zeros(), 0);
    assert_eq!("0x".count_leading_zeros(), 1);
}

#[test]
fn text_with_multibyte_characters() {
    assert_eq!("00é".count_leading_zeros(), 2);
    assert_eq!("0\u{1F600}0".count_leading_zeros(), 1);
    assert_eq!(String::from("０0").count_leading_zeros(), 0);
}

#[test]
fn wrappers_count_what_they_hold() {
    let s = String::from("00a");
    let r: &String = &s;
    assert_eq!(r.count_leading_zeros(), 2);
    let mut t = String::from("0b");
    let m: &mut String = &mut t;
    assert_eq!(m.count_leading_zeros(), 1);
    let b: Box<[u8]> = vec![0x30u8, 0x31u8].into_boxed_slice();
    assert_eq!(b.count_leading_zeros(), 1);
    let rc: Rc<[char]> = Rc::from(vec!['0', '0', '0']);
    assert_eq!(rc.count_leading_zeros(), 3);
    let arc: Arc<u16> = Arc::new(1u16);
    assert_eq!(arc.count_leading_zeros(), 15);
    let boxed_str: Box<str> = Box::from("0z");
    assert_eq!(boxed_str.count_leading_zeros(), 1);
}

#[test]
fn copy_on_write_borrowed_and_owned() {
    let cow_str: Cow<'_, str> = Cow::Borrowed("0000");
    assert_eq!(cow_str.count_leading_zeros(), 4);
    let cow_bytes: Cow<'_, [u8]> = Cow::Borrowed(b"01");
    assert_eq!(cow_bytes.count_leading_zeros(), 1);
    let cow_empty: Cow<'_, [u8]> = Cow::Owned(Vec::new());
    assert_eq!(cow_empty.count_leading_zeros(), 0);
}

#[test]
fn bytes_count_digit_not_nul() {
    let nul: Vec<u8> = vec![0x00, 0x00];
    assert_eq!(nul.count_leading_zeros(), 0);
    let digits: Vec<u8> = vec![0x30, 0x30];
    assert_eq!(digits.count_leading_zeros(), 2);
    let a: [u8; 2] = [0x00, 0x30];
    assert_eq!(a.count_leading_zeros(), 0);
}

#[test]
fn empty_and_all_zero_buffers() {
    let e: [u8; 0] = [];
    assert_eq!(e.count_leading_zeros(), 0);
    let c: Vec<char> = Vec::new();
    assert_eq!(c.count_leading_zeros(), 0);
    let z: [char; 3] = ['0', '0', '0'];
    assert_eq!(z.count_leading_zeros(), 3);
    let bz: &[u8] = b"00000";
    assert_eq!(bz.count_leading_zeros(), 5);
}

#[test]
fn scenarios() {
    assert_eq!(0u8.count_leading_zeros(), 8);
    assert_eq!("000123".count_leading_zeros(), 3);
    assert_eq!("".count_leading_zeros(), 0);
    assert_eq!("0012".as_bytes().count_leading_zeros(), 2);
    assert_eq!(['0', '0', '1', 'x'].count_leading_zeros(), 2);
    assert_eq!(Box::new("0007").count_leading_zeros(), 3);
}
