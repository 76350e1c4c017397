use pybuffer::element::{is_compatible, is_compatible_on, Element};
use pybuffer::element_type::{
    is_matching_endian, is_matching_endian_on, native_element_type_from_type_char,
    standard_element_type_from_type_char, ByteOrder, ElementType,
};
use pybuffer::element_type::{BIG_ENDIAN, LITTLE_ENDIAN, NATIVE, NETWORK, STANDARD, UNSIGNED_CHAR};

fn signed(bytes: usize) -> ElementType {
    ElementType::SignedInteger { bytes }
}

fn unsigned(bytes: usize) -> ElementType {
    ElementType::UnsignedInteger { bytes }
}

fn float(bytes: usize) -> ElementType {
    ElementType::Float { bytes }
}

fn machine_is_little_endian() -> bool {
    1u16.to_ne_bytes()[0] == 1
}

#[test]
fn test_format_characters() {
    assert_eq!(NATIVE, b'@');
    assert_eq!(STANDARD, b'=');
    assert_eq!(LITTLE_ENDIAN, b'<');
    assert_eq!(BIG_ENDIAN, b'>');
    assert_eq!(NETWORK, b'!');
    assert_eq!(UNSIGNED_CHAR, b'B');
}

#[test]
fn test_native_type_chars() {
    let size = std::mem::size_of::<usize>();
    let long = std::mem::size_of::<libc::c_long>();
    assert_eq!(native_element_type_from_type_char(b'c'), unsigned(1));
    assert_eq!(native_element_type_from_type_char(b'b'), signed(1));
    assert_eq!(native_element_type_from_type_char(b'B'), unsigned(1));
    assert_eq!(native_element_type_from_type_char(b'?'), ElementType::Bool);
    assert_eq!(native_element_type_from_type_char(b'h'), signed(2));
    assert_eq!(native_element_type_from_type_char(b'H'), unsigned(2));
    assert_eq!(native_element_type_from_type_char(b'i'), signed(4));
    assert_eq!(native_element_type_from_type_char(b'I'), unsigned(4));
    assert_eq!(native_element_type_from_type_char(b'l'), signed(long));
    assert_eq!(native_element_type_from_type_char(b'L'), unsigned(long));
    assert_eq!(native_element_type_from_type_char(b'q'), signed(8));
    assert_eq!(native_element_type_from_type_char(b'Q'), unsigned(8));
    assert_eq!(native_element_type_from_type_char(b'n'), signed(size));
    assert_eq!(native_element_type_from_type_char(b'N'), unsigned(size));
    assert_eq!(native_element_type_from_type_char(b'e'), float(2));
    assert_eq!(native_element_type_from_type_char(b'f'), float(4));
    assert_eq!(native_element_type_from_type_char(b'd'), float(8));
    assert_eq!(native_element_type_from_type_char(b'x'), ElementType::Unknown);
    assert_eq!(native_element_type_from_type_char(b'@'), ElementType::Unknown);
    assert_eq!(native_element_type_from_type_char(0), ElementType::Unknown);
}

#[test]
fn test_standard_type_chars() {
    assert_eq!(standard_element_type_from_type_char(b'c'), unsigned(1));
    assert_eq!(standard_element_type_from_type_char(b'B'), unsigned(1));
    assert_eq!(standard_element_type_from_type_char(b'b'), signed(1));
    assert_eq!(standard_element_type_from_type_char(b'?'), ElementType::Bool);
    assert_eq!(standard_element_type_from_type_char(b'h'), signed(2));
    assert_eq!(standard_element_type_from_type_char(b'H'), unsigned(2));
    assert_eq!(standard_element_type_from_type_char(b'i'), signed(4));
    assert_eq!(standard_element_type_from_type_char(b'l'), signed(4));
    assert_eq!(standard_element_type_from_type_char(b'I'), unsigned(4));
    assert_eq!(standard_element_type_from_type_char(b'L'), unsigned(4));
    assert_eq!(standard_element_type_from_type_char(b'q'), signed(8));
    assert_eq!(standard_element_type_from_type_char(b'Q'), unsigned(8));
    assert_eq!(standard_element_type_from_type_char(b'e'), float(2));
    assert_eq!(standard_element_type_from_type_char(b'f'), float(4));
    assert_eq!(standard_element_type_from_type_char(b'd'), float(8));
    // the pointer-sized integers have no standard width
    assert_eq!(standard_element_type_from_type_char(b'n'), ElementType::Unknown);
    assert_eq!(standard_element_type_from_type_char(b'N'), ElementType::Unknown);
    assert_eq!(standard_element_type_from_type_char(b'x'), ElementType::Unknown);
}

#[test]
fn test_from_format() {
    let long = std::mem::size_of::<libc::c_long>();
    assert_eq!(ElementType::from_format(b"B"), unsigned(1));
    assert_eq!(ElementType::from_format(b"f"), float(4));
    assert_eq!(ElementType::from_format(b"l"), signed(long));
    assert_eq!(ElementType::from_format(b"@l"), signed(long));
    assert_eq!(ElementType::from_format(b"=l"), signed(4));
    assert_eq!(ElementType::from_format(b"<l"), signed(4));
    assert_eq!(ElementType::from_format(b">l"), signed(4));
    assert_eq!(ElementType::from_format(b"!l"), signed(4));
    assert_eq!(ElementType::from_format(b"<Q"), unsigned(8));
    assert_eq!(ElementType::from_format(b">d"), float(8));
    assert_eq!(ElementType::from_format(b"=?"), ElementType::Bool);
    assert_eq!(ElementType::from_format(b"@n"), signed(std::mem::size_of::<isize>()));
    assert_eq!(ElementType::from_format(b"=n"), ElementType::Unknown);
}

#[test]
fn test_from_format_unknown() {
    assert_eq!(ElementType::from_format(b""), ElementType::Unknown);
    assert_eq!(ElementType::from_format(b"ii"), ElementType::Unknown);
    assert_eq!(ElementType::from_format(b"#i"), ElementType::Unknown);
    assert_eq!(ElementType::from_format(b"<x"), ElementType::Unknown);
    assert_eq!(ElementType::from_format(b"@@"), ElementType::Unknown);
    assert_eq!(ElementType::from_format(b"<ii"), ElementType::Unknown);
    assert_eq!(ElementType::from_format(b"3B"), ElementType::Unknown);
    assert_eq!(ElementType::from_format(b"<"), ElementType::Unknown);
}

#[test]
fn test_matching_endian_on_either_order() {
    for c in [b'@', b'='] {
        assert!(is_matching_endian_on(ByteOrder::Little, c));
        assert!(is_matching_endian_on(ByteOrder::Big, c));
    }
    assert!(is_matching_endian_on(ByteOrder::Little, b'<'));
    assert!(!is_matching_endian_on(ByteOrder::Little, b'>'));
    assert!(!is_matching_endian_on(ByteOrder::Little, b'!'));
    assert!(!is_matching_endian_on(ByteOrder::Big, b'<'));
    assert!(is_matching_endian_on(ByteOrder::Big, b'>'));
    assert!(is_matching_endian_on(ByteOrder::Big, b'!'));
    for c in [b'B', b'i', 0, b' '] {
        assert!(!is_matching_endian_on(ByteOrder::Little, c));
        assert!(!is_matching_endian_on(ByteOrder::Big, c));
    }
}

#[test]
fn test_byte_order_from_probe() {
    assert_eq!(ByteOrder::from_probe(1), ByteOrder::Big);
    assert_eq!(ByteOrder::from_probe(256), ByteOrder::Little);
    assert_eq!(ByteOrder::from_probe(0x0100), ByteOrder::Little);
    assert_eq!(ByteOrder::native(), ByteOrder::from_probe(1u16.to_be()));
}

#[test]
fn test_matching_endian_on_this_machine() {
    let little = machine_is_little_endian();
    assert_eq!(
        ByteOrder::native(),
        if little { ByteOrder::Little } else { ByteOrder::Big }
    );
    assert!(is_matching_endian(b'@'));
    assert!(is_matching_endian(b'='));
    assert_eq!(is_matching_endian(b'<'), little);
    assert_eq!(is_matching_endian(b'>'), !little);
    assert_eq!(is_matching_endian(b'!'), !little);
    assert!(!is_matching_endian(b'i'));
}

#[test]
fn test_foreign_byte_order_is_rejected() {
    // the type character and its width match; only the byte order differs
    assert!(is_compatible_on(ByteOrder::Little, signed(4), b"<i"));
    assert!(!is_compatible_on(ByteOrder::Little, signed(4), b">i"));
    assert!(!is_compatible_on(ByteOrder::Little, signed(4), b"!i"));
    assert!(is_compatible_on(ByteOrder::Big, signed(4), b">i"));
    assert!(is_compatible_on(ByteOrder::Big, signed(4), b"!i"));
    assert!(!is_compatible_on(ByteOrder::Big, signed(4), b"<i"));
    assert!(is_compatible_on(ByteOrder::Little, float(8), b"=d"));
    assert!(is_compatible_on(ByteOrder::Big, float(8), b"=d"));

    let little = machine_is_little_endian();
    assert_eq!(<i32 as Element>::is_compatible_format(b"<i"), little);
    assert_eq!(<i32 as Element>::is_compatible_format(b">i"), !little);
    assert_eq!(<u16 as Element>::is_compatible_format(b"!H"), !little);
    assert_eq!(<u64 as Element>::is_compatible_format(b"<Q"), little);
    assert_eq!(is_compatible(float(4), b">f"), !little);
}

#[test]
fn test_element_types() {
    assert_eq!(<u8 as Element>::expected(), unsigned(1));
    assert_eq!(<u16 as Element>::expected(), unsigned(2));
    assert_eq!(<u32 as Element>::expected(), unsigned(4));
    assert_eq!(<u64 as Element>::expected(), unsigned(8));
    assert_eq!(<usize as Element>::expected(), unsigned(std::mem::size_of::<usize>()));
    assert_eq!(<i8 as Element>::expected(), signed(1));
    assert_eq!(<i16 as Element>::expected(), signed(2));
    assert_eq!(<i32 as Element>::expected(), signed(4));
    assert_eq!(<i64 as Element>::expected(), signed(8));
    assert_eq!(<isize as Element>::expected(), signed(std::mem::size_of::<isize>()));
}

#[test]
fn test_compatible_formats() {
    assert!(<u8 as Element>::is_compatible_format(b"B"));
    assert!(<u8 as Element>::is_compatible_format(b"c"));
    assert!(<u8 as Element>::is_compatible_format(b"@B"));
    assert!(<u8 as Element>::is_compatible_format(b"=B"));
    assert!(!<u8 as Element>::is_compatible_format(b"b"));
    assert!(!<u8 as Element>::is_compatible_format(b"H"));
    assert!(!<u8 as Element>::is_compatible_format(b""));
    assert!(<i8 as Element>::is_compatible_format(b"b"));
    assert!(!<i8 as Element>::is_compatible_format(b"B"));
    assert!(<i16 as Element>::is_compatible_format(b"h"));
    assert!(<u16 as Element>::is_compatible_format(b"=H"));
    assert!(<i32 as Element>::is_compatible_format(b"i"));
    assert!(!<i32 as Element>::is_compatible_format(b"I"));
    assert!(!<i32 as Element>::is_compatible_format(b"f"));
    assert!(<u32 as Element>::is_compatible_format(b"=L"));
    assert!(<i64 as Element>::is_compatible_format(b"q"));
    assert!(<u64 as Element>::is_compatible_format(b"=Q"));
    assert!(<isize as Element>::is_compatible_format(b"n"));
    assert!(<usize as Element>::is_compatible_format(b"N"));
    assert!(!<usize as Element>::is_compatible_format(b"=N"));
    // a native long has the width of the machine's C `long`, a standard one 4 bytes
    let long = std::mem::size_of::<libc::c_long>();
    assert_eq!(<i64 as Element>::is_compatible_format(b"l"), long == 8);
    assert_eq!(<i32 as Element>::is_compatible_format(b"l"), long == 4);
    assert!(<i32 as Element>::is_compatible_format(b"=l"));
    assert!(!<i64 as Element>::is_compatible_format(b"=l"));
    assert!(is_compatible(float(4), b"f"));
    assert!(is_compatible(float(8), b"d"));
    assert!(!is_compatible(float(8), b"f"));
    assert!(!is_compatible(ElementType::Unknown, b"f"));
}
