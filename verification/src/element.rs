//! Which scalar types may be laid over items of a given format.
use vstd::prelude::*;
use vstd::layout::*;
use crate::element_type::{
    classify, is_matching_endian_on, ByteOrder, ElementType,
};

verus! {

/// Whether items of format `format`, held by a machine of byte order `order`,
/// can be read as the scalar type `expected`: a format with a modifier must
/// name a byte order that `order` accepts, and the format must classify as
/// `expected`, width included.
pub open spec fn compatible(order: ByteOrder, expected: ElementType, format: Seq<u8>) -> bool {
    &&& format.len() > 1 ==> order.accepts(format[0])
    &&& classify(format) == expected
}

/// Decides `compatible` for a machine of byte order `order`.
pub fn is_compatible_on(order: ByteOrder, expected: ElementType, format: &[u8]) -> (r: bool)
    ensures
        r == compatible(order, expected, format@),
{
    if format.len() > 1 && !is_matching_endian_on(order, format[0]) {
        return false;
    }
    ElementType::from_format(format) == expected
}

/// Decides `compatible` for this machine, whose byte order is one of the two.
pub fn is_compatible(expected: ElementType, format: &[u8]) -> (r: bool)
    ensures
        r == compatible(ByteOrder::Little, expected, format@) || r == compatible(
            ByteOrder::Big,
            expected,
            format@,
        ),
{
    is_compatible_on(ByteOrder::native(), expected, format)
}

/// A format whose first byte names a byte order other than the machine's is
/// compatible with no item type, whatever type character follows.
pub proof fn lemma_foreign_byte_order_rejected<T: Element>(machine: ByteOrder, format: Seq<u8>)
    requires
        format.len() > 1,
        machine.rejects(format[0]),
    ensures
        !compatible(machine, T::element_type(), format),
{
}

/// A scalar type that buffer items can be viewed as.
pub trait Element: Sized {
    /// The classification that a format must have for items to be read as
    /// `Self`.
    spec fn element_type() -> ElementType;

    /// `element_type()`, computed.
    fn expected() -> (r: ElementType)
        ensures
            r == Self::element_type(),
    ;

    /// Whether items of format `format` on this machine can be read as `Self`.
    /// Size and alignment are checked apart from this.
    fn is_compatible_format(format: &[u8]) -> (r: bool)
        ensures
            r == compatible(ByteOrder::Little, Self::element_type(), format@) || r == compatible(
                ByteOrder::Big,
                Self::element_type(),
                format@,
            ),
    ;

    /// The expected classification carries the exact width of `Self`, and that
    /// width is not zero.
    proof fn lemma_width()
        ensures
            Self::element_type().width() == size_of::<Self>(),
            size_of::<Self>() > 0,
    ;
}

impl Element for u8 {
    open spec fn element_type() -> ElementType {
        ElementType::UnsignedInteger { bytes: size_of::<u8>() as usize }
    }

    fn expected() -> (r: ElementType) {
        ElementType::UnsignedInteger { bytes: core::mem::size_of::<u8>() }
    }

    fn is_compatible_format(format: &[u8]) -> (r: bool) {
        is_compatible(Self::expected(), format)
    }

    proof fn lemma_width() {
        broadcast use layout_of_primitives;

    }
}

impl Element for u16 {
    open spec fn element_type() -> ElementType {
        ElementType::UnsignedInteger { bytes: size_of::<u16>() as usize }
    }

    fn expected() -> (r: ElementType) {
        ElementType::UnsignedInteger { bytes: core::mem::size_of::<u16>() }
    }

    fn is_compatible_format(format: &[u8]) -> (r: bool) {
        is_compatible(Self::expected(), format)
    }

    proof fn lemma_width() {
        broadcast use layout_of_primitives;

    }
}

impl Element for u32 {
    open spec fn element_type() -> ElementType {
        ElementType::UnsignedInteger { bytes: size_of::<u32>() as usize }
    }

    fn expected() -> (r: ElementType) {
        ElementType::UnsignedInteger { bytes: core::mem::size_of::<u32>() }
    }

    fn is_compatible_format(format: &[u8]) -> (r: bool) {
        is_compatible(Self::expected(), format)
    }

    proof fn lemma_width() {
        broadcast use layout_of_primitives;

    }
}

impl Element for u64 {
    open spec fn element_type() -> ElementType {
        ElementType::UnsignedInteger { bytes: size_of::<u64>() as usize }
    }

    fn expected() -> (r: ElementType) {
        ElementType::UnsignedInteger { bytes: core::mem::size_of::<u64>() }
    }

    fn is_compatible_format(format: &[u8]) -> (r: bool) {
        is_compatible(Self::expected(), format)
    }

    proof fn lemma_width() {
        broadcast use layout_of_primitives;

    }
}

impl Element for usize {
    open spec fn element_type() -> ElementType {
        ElementType::UnsignedInteger { bytes: size_of::<usize>() as usize }
    }

    fn expected() -> (r: ElementType) {
        ElementType::UnsignedInteger { bytes: core::mem::size_of::<usize>() }
    }

    fn is_compatible_format(format: &[u8]) -> (r: bool) {
        is_compatible(Self::expected(), format)
    }

    proof fn lemma_width() {
        broadcast use layout_of_primitives;

    }
}

impl Element for i8 {
    open spec fn element_type() -> ElementType {
        ElementType::SignedInteger { bytes: size_of::<i8>() as usize }
    }

    fn expected() -> (r: ElementType) {
        ElementType::SignedInteger { bytes: core::mem::size_of::<i8>() }
    }

    fn is_compatible_format(format: &[u8]) -> (r: bool) {
        is_compatible(Self::expected(), format)
    }

    proof fn lemma_width() {
        broadcast use layout_of_primitives;

    }
}

impl Element for i16 {
    open spec fn element_type() -> ElementType {
        ElementType::SignedInteger { bytes: size_of::<i16>() as usize }
    }

    fn expected() -> (r: ElementType) {
        ElementType::SignedInteger { bytes: core::mem::size_of::<i16>() }
    }

    fn is_compatible_format(format: &[u8]) -> (r: bool) {
        is_compatible(Self::expected(), format)
    }

    proof fn lemma_width() {
        broadcast use layout_of_primitives;

    }
}

impl Element for i32 {
    open spec fn element_type() -> ElementType {
        ElementType::SignedInteger { bytes: size_of::<i32>() as usize }
    }

    fn expected() -> (r: ElementType) {
        ElementType::SignedInteger { bytes: core::mem::size_of::<i32>() }
    }

    fn is_compatible_format(format: &[u8]) -> (r: bool) {
        is_compatible(Self::expected(), format)
    }

    proof fn lemma_width() {
        broadcast use layout_of_primitives;

    }
}

impl Element for i64 {
    open spec fn element_type() -> ElementType {
        ElementType::SignedInteger { bytes: size_of::<i64>() as usize }
    }

    fn expected() -> (r: ElementType) {
        ElementType::SignedInteger { bytes: core::mem::size_of::<i64>() }
    }

    fn is_compatible_format(format: &[u8]) -> (r: bool) {
        is_compatible(Self::expected(), format)
    }

    proof fn lemma_width() {
        broadcast use layout_of_primitives;

    }
}

impl Element for isize {
    open spec fn element_type() -> ElementType {
        ElementType::SignedInteger { bytes: size_of::<isize>() as usize }
    }

    fn expected() -> (r: ElementType) {
        ElementType::SignedInteger { bytes: core::mem::size_of::<isize>() }
    }

    fn is_compatible_format(format: &[u8]) -> (r: bool) {
        is_compatible(Self::expected(), format)
    }

    proof fn lemma_width() {
        broadcast use layout_of_primitives;

    }
}

} // verus!
