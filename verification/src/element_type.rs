//! Item formats and the scalar types they stand for.
//!
//! A format is one type character, optionally preceded by one modifier. The
//! modifier `@` selects the widths of the C types on this platform; `=`, `<`,
//! `>` and `!` select the fixed standard widths.
use vstd::prelude::*;
use vstd::layout::*;

verus! {

/// The format character `c`.
pub const CHAR: u8 = 99;

/// The format character `b`.
pub const SIGNED_CHAR: u8 = 98;

/// The format character `B`.
pub const UNSIGNED_CHAR: u8 = 66;

/// The format character `?`.
pub const BOOL: u8 = 63;

/// The format character `h`.
pub const SHORT: u8 = 104;

/// The format character `H`.
pub const UNSIGNED_SHORT: u8 = 72;

/// The format character `i`.
pub const INT: u8 = 105;

/// The format character `I`.
pub const UNSIGNED_INT: u8 = 73;

/// The format character `l`.
pub const LONG: u8 = 108;

/// The format character `L`.
pub const UNSIGNED_LONG: u8 = 76;

/// The format character `q`.
pub const LONG_LONG: u8 = 113;

/// The format character `Q`.
pub const UNSIGNED_LONG_LONG: u8 = 81;

/// The format character `n`.
pub const SSIZE: u8 = 110;

/// The format character `N`.
pub const SIZE: u8 = 78;

/// The format character `e`.
pub const HALF: u8 = 101;

/// The format character `f`.
pub const SINGLE: u8 = 102;

/// The format character `d`.
pub const DOUBLE: u8 = 100;

/// The format character `@`.
pub const NATIVE: u8 = 64;

/// The format character `=`.
pub const STANDARD: u8 = 61;

/// The format character `<`.
pub const LITTLE_ENDIAN: u8 = 60;

/// The format character `>`.
pub const BIG_ENDIAN: u8 = 62;

/// The format character `!`.
pub const NETWORK: u8 = 33;

/// The scalar type that a format describes.
#[derive(Copy, Clone, Debug, PartialEq, Eq, Structural)]
pub enum ElementType {
    SignedInteger { bytes: usize },
    UnsignedInteger { bytes: usize },
    Bool,
    Float { bytes: usize },
    Unknown,
}

/// The order in which a machine stores the bytes of a scalar.
#[derive(Copy, Clone, Debug, PartialEq, Eq, Structural)]
pub enum ByteOrder {
    Little,
    Big,
}

impl ByteOrder {
    /// Whether a format that starts with `modifier` describes items in this
    /// byte order. `@` and `=` stand for the order of the machine itself, `<`
    /// for little-endian, `>` and `!` for big-endian; any other byte is no
    /// modifier and is accepted by neither order.
    pub open spec fn accepts(self, modifier: u8) -> bool {
        modifier == NATIVE || modifier == STANDARD || match self {
            ByteOrder::Little => modifier == LITTLE_ENDIAN,
            ByteOrder::Big => modifier == BIG_ENDIAN || modifier == NETWORK,
        }
    }

    /// Whether `modifier` names a byte order other than this one: `>` and
    /// `!` to a little-endian machine, `<` to a big-endian one.
    pub open spec fn rejects(self, modifier: u8) -> bool {
        match self {
            ByteOrder::Little => modifier == BIG_ENDIAN || modifier == NETWORK,
            ByteOrder::Big => modifier == LITTLE_ENDIAN,
        }
    }

    /// The byte order of the machine that runs this code. Which of the two it
    /// is cannot be stated here: callers are verified for both.
    pub fn native() -> ByteOrder {
        ByteOrder::from_probe(to_big_endian(1))
    }

    /// The byte order of a machine on which the number 1, converted to
    /// big-endian, reads `probe`: big-endian where the conversion left it at
    /// 1, little-endian where it moved the set bit to the other byte.
    pub open spec fn probed(probe: u16) -> ByteOrder {
        if probe == 1 {
            ByteOrder::Big
        } else {
            ByteOrder::Little
        }
    }

    /// Reads a machine's byte order off what the number 1 became when that
    /// machine converted it to big-endian.
    pub fn from_probe(probe: u16) -> (r: ByteOrder)
        ensures
            r == ByteOrder::probed(probe),
    {
        if probe == 1 {
            ByteOrder::Big
        } else {
            ByteOrder::Little
        }
    }
}

/// The value whose two bytes are those of `x` in the other order.
pub open spec fn swap_bytes(x: u16) -> int {
    (x % 256) * 256 + x / 256
}

/// Calls `u16::to_be`, which converts `x` from the machine's byte order to
/// big-endian: it hands `x` back on a big-endian machine and swaps the two
/// bytes on a little-endian one. Which of the two happened is not stated.
#[verifier::external_body]
fn to_big_endian(x: u16) -> (r: u16)
    ensures
        r == x || r == swap_bytes(x),
{
    x.to_be()
}

/// Whether `c` is a modifier that agrees with the byte order `order`.
pub fn is_matching_endian_on(order: ByteOrder, c: u8) -> (r: bool)
    ensures
        r == order.accepts(c),
{
    match order {
        ByteOrder::Little => c == NATIVE || c == STANDARD || c == LITTLE_ENDIAN,
        ByteOrder::Big => c == NATIVE || c == STANDARD || c == BIG_ENDIAN || c == NETWORK,
    }
}

/// Whether `c` is a modifier that agrees with the byte order of this machine.
/// The answer is that of one of the two byte orders; for `@`, `=` and every
/// byte that is no modifier the two agree.
pub fn is_matching_endian(c: u8) -> (r: bool)
    ensures
        r == ByteOrder::Little.accepts(c) || r == ByteOrder::Big.accepts(c),
{
    is_matching_endian_on(ByteOrder::native(), c)
}

/// Whether `c` stands for a signed integer.
pub open spec fn is_signed_char(c: u8) -> bool {
    c == SIGNED_CHAR || c == SHORT || c == INT || c == LONG || c == LONG_LONG || c == SSIZE
}

/// Whether `c` stands for an unsigned integer.
pub open spec fn is_unsigned_char(c: u8) -> bool {
    c == CHAR || c == UNSIGNED_CHAR || c == UNSIGNED_SHORT || c == UNSIGNED_INT || c == UNSIGNED_LONG || c == UNSIGNED_LONG_LONG || c == SIZE
}

/// Whether `c` stands for a floating-point number.
pub open spec fn is_float_char(c: u8) -> bool {
    c == HALF || c == SINGLE || c == DOUBLE
}

/// The width of a floating-point type character: half, single, double.
pub open spec fn float_width(c: u8) -> usize {
    if c == HALF {
        2
    } else if c == SINGLE {
        4
    } else {
        8
    }
}

/// The width on this platform of the C integer type that `c` stands for.
/// A signed type and its unsigned counterpart have one width.
pub open spec fn native_width(c: u8) -> usize {
    if c == CHAR || c == SIGNED_CHAR || c == UNSIGNED_CHAR {
        size_of::<libc::c_char>() as usize
    } else if c == SHORT || c == UNSIGNED_SHORT {
        size_of::<libc::c_short>() as usize
    } else if c == INT || c == UNSIGNED_INT {
        size_of::<libc::c_int>() as usize
    } else if c == LONG || c == UNSIGNED_LONG {
        size_of::<libc::c_long>() as usize
    } else if c == LONG_LONG || c == UNSIGNED_LONG_LONG {
        size_of::<libc::c_longlong>() as usize
    } else {
        size_of::<libc::size_t>() as usize
    }
}

/// The standard width of the integer type that `c` stands for. The
/// pointer-sized characters `n` and `N` have none.
pub open spec fn standard_width(c: u8) -> usize {
    if c == CHAR || c == SIGNED_CHAR || c == UNSIGNED_CHAR {
        1
    } else if c == SHORT || c == UNSIGNED_SHORT {
        2
    } else if c == INT || c == UNSIGNED_INT || c == LONG || c == UNSIGNED_LONG {
        4
    } else {
        8
    }
}

/// What a type character stands for under native widths.
pub open spec fn native_element_type(c: u8) -> ElementType {
    if is_signed_char(c) {
        ElementType::SignedInteger { bytes: native_width(c) }
    } else if is_unsigned_char(c) {
        ElementType::UnsignedInteger { bytes: native_width(c) }
    } else if c == BOOL {
        ElementType::Bool
    } else if is_float_char(c) {
        ElementType::Float { bytes: float_width(c) }
    } else {
        ElementType::Unknown
    }
}

/// What a type character stands for under standard widths.
pub open spec fn standard_element_type(c: u8) -> ElementType {
    if c == SSIZE || c == SIZE {
        ElementType::Unknown
    } else if is_signed_char(c) {
        ElementType::SignedInteger { bytes: standard_width(c) }
    } else if is_unsigned_char(c) {
        ElementType::UnsignedInteger { bytes: standard_width(c) }
    } else if c == BOOL {
        ElementType::Bool
    } else if is_float_char(c) {
        ElementType::Float { bytes: float_width(c) }
    } else {
        ElementType::Unknown
    }
}

/// Whether `c` is a modifier that selects standard widths.
pub open spec fn is_standard_modifier(c: u8) -> bool {
    c == STANDARD || c == LITTLE_ENDIAN || c == BIG_ENDIAN || c == NETWORK
}

/// The scalar type that a whole format describes.
pub open spec fn classify(format: Seq<u8>) -> ElementType {
    if format.len() == 1 {
        native_element_type(format[0])
    } else if format.len() == 2 && format[0] == NATIVE {
        native_element_type(format[1])
    } else if format.len() == 2 && is_standard_modifier(format[0]) {
        standard_element_type(format[1])
    } else {
        ElementType::Unknown
    }
}

/// Whether `c` is one of the type characters.
pub open spec fn is_type_char(c: u8) -> bool {
    is_signed_char(c) || is_unsigned_char(c) || c == BOOL || is_float_char(c)
}

/// A format is classified as unknown unless it is one type character, alone or
/// behind one modifier; behind a modifier for standard widths the
/// pointer-sized integers are unknown too.
pub proof fn lemma_unknown_formats(format: Seq<u8>)
    ensures
        format.len() == 0 || format.len() > 2 ==> classify(format) == ElementType::Unknown,
        format.len() == 1 && !is_type_char(format[0]) ==> classify(format) == ElementType::Unknown,
        format.len() == 2 && format[0] != NATIVE && !is_standard_modifier(format[0]) ==> classify(
            format,
        ) == ElementType::Unknown,
        format.len() == 2 && !is_type_char(format[1]) ==> classify(format) == ElementType::Unknown,
        format.len() == 2 && is_standard_modifier(format[0]) && (format[1] == SSIZE || format[1]
            == SIZE) ==> classify(format) == ElementType::Unknown,
{
}

/// The modifier `@` changes nothing: a type character stands behind it for
/// what it stands for alone.
pub proof fn lemma_native_modifier(c: u8)
    ensures
        classify(seq![NATIVE, c]) == classify(seq![c]),
{
}

/// Behind each of the four modifiers for standard widths a type character
/// stands for the same type, whose width is 1, 2, 4 or 8 bytes whatever the
/// platform.
pub proof fn lemma_standard_widths(modifier: u8, other: u8, c: u8)
    requires
        is_standard_modifier(modifier),
        is_standard_modifier(other),
    ensures
        classify(seq![modifier, c]) == classify(seq![other, c]),
        classify(seq![modifier, c]) == standard_element_type(c),
        classify(seq![modifier, c]) != ElementType::Unknown ==> standard_element_type(c).width()
            == 1 || standard_element_type(c).width() == 2 || standard_element_type(c).width() == 4
            || standard_element_type(c).width() == 8,
{
}

impl ElementType {
    /// The width in bytes of the scalar: that of the tag, 1 for a bool, and 0
    /// where the type is unknown.
    pub open spec fn width(self) -> nat {
        match self {
            ElementType::SignedInteger { bytes } => bytes as nat,
            ElementType::UnsignedInteger { bytes } => bytes as nat,
            ElementType::Bool => 1,
            ElementType::Float { bytes } => bytes as nat,
            ElementType::Unknown => 0,
        }
    }

    /// Classifies a format, given as its bytes without the terminating NUL.
    pub fn from_format(format: &[u8]) -> (r: ElementType)
        ensures
            r == classify(format@),
    {
        if format.len() == 1 {
            native_element_type_from_type_char(format[0])
        } else if format.len() == 2 {
            match format[0] {
                NATIVE => native_element_type_from_type_char(format[1]),
                STANDARD | LITTLE_ENDIAN | BIG_ENDIAN | NETWORK => standard_element_type_from_type_char(format[1]),
                _ => ElementType::Unknown,
            }
        } else {
            ElementType::Unknown
        }
    }
}

/// Classifies one type character by the widths of the C types on this platform.
pub fn native_element_type_from_type_char(type_char: u8) -> (r: ElementType)
    ensures
        r == native_element_type(type_char),
{
    broadcast use layout_of_primitives;

    match type_char {
        CHAR => ElementType::UnsignedInteger { bytes: core::mem::size_of::<libc::c_char>() },
        SIGNED_CHAR => ElementType::SignedInteger { bytes: core::mem::size_of::<libc::c_schar>() },
        UNSIGNED_CHAR => ElementType::UnsignedInteger { bytes: core::mem::size_of::<libc::c_uchar>() },
        BOOL => ElementType::Bool,
        SHORT => ElementType::SignedInteger { bytes: core::mem::size_of::<libc::c_short>() },
        UNSIGNED_SHORT => ElementType::UnsignedInteger { bytes: core::mem::size_of::<libc::c_ushort>() },
        INT => ElementType::SignedInteger { bytes: core::mem::size_of::<libc::c_int>() },
        UNSIGNED_INT => ElementType::UnsignedInteger { bytes: core::mem::size_of::<libc::c_uint>() },
        LONG => ElementType::SignedInteger { bytes: core::mem::size_of::<libc::c_long>() },
        UNSIGNED_LONG => ElementType::UnsignedInteger { bytes: core::mem::size_of::<libc::c_ulong>() },
        LONG_LONG => ElementType::SignedInteger { bytes: core::mem::size_of::<libc::c_longlong>() },
        UNSIGNED_LONG_LONG => ElementType::UnsignedInteger {
            bytes: core::mem::size_of::<libc::c_ulonglong>(),
        },
        SSIZE => ElementType::SignedInteger { bytes: core::mem::size_of::<libc::ssize_t>() },
        SIZE => ElementType::UnsignedInteger { bytes: core::mem::size_of::<libc::size_t>() },
        HALF => ElementType::Float { bytes: 2 },
        SINGLE => ElementType::Float { bytes: 4 },
        DOUBLE => ElementType::Float { bytes: 8 },
        _ => ElementType::Unknown,
    }
}

/// Classifies one type character by the standard widths.
pub fn standard_element_type_from_type_char(type_char: u8) -> (r: ElementType)
    ensures
        r == standard_element_type(type_char),
{
    match type_char {
        CHAR | UNSIGNED_CHAR => ElementType::UnsignedInteger { bytes: 1 },
        SIGNED_CHAR => ElementType::SignedInteger { bytes: 1 },
        BOOL => ElementType::Bool,
        SHORT => ElementType::SignedInteger { bytes: 2 },
        UNSIGNED_SHORT => ElementType::UnsignedInteger { bytes: 2 },
        INT | LONG => ElementType::SignedInteger { bytes: 4 },
        UNSIGNED_INT | UNSIGNED_LONG => ElementType::UnsignedInteger { bytes: 4 },
        LONG_LONG => ElementType::SignedInteger { bytes: 8 },
        UNSIGNED_LONG_LONG => ElementType::UnsignedInteger { bytes: 8 },
        HALF => ElementType::Float { bytes: 2 },
        SINGLE => ElementType::Float { bytes: 4 },
        DOUBLE => ElementType::Float { bytes: 8 },
        _ => ElementType::Unknown,
    }
}

} // verus!
