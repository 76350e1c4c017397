//! The buffer descriptor: what an owner reports of its memory, and what the
//! library decides from it.
use vstd::prelude::*;
use vstd::layout::*;
use crate::element::{compatible, Element};
use crate::element_type::{ByteOrder, UNSIGNED_CHAR};
use crate::error::{error_on_minusone, BufferError};

verus! {

/// The order in which the items of a buffer of several dimensions are visited.
#[derive(Copy, Clone, Debug, PartialEq, Eq, Structural)]
pub enum Order {
    /// The last index varies fastest.
    C,
    /// The first index varies fastest.
    Fortran,
}

impl Order {
    /// The character by which the owner's routines know the order: `C` or `F`.
    pub fn code(self) -> (r: u8)
        ensures
            r == (match self {
                Order::C => 67u8,
                Order::Fortran => 70u8,
            }),
    {
        match self {
            Order::C => 67,
            Order::Fortran => 70,
        }
    }
}

/// The memory that a typed view covers: `len` items from the address `addr`
/// on, open to writes where `mutable` is set. Nothing is copied.
#[derive(Copy, Clone, Debug, PartialEq, Eq, Structural)]
pub struct SliceView {
    pub addr: usize,
    pub len: usize,
    pub mutable: bool,
}

/// What the owner's copy routine is asked for: to move `len` bytes between
/// the buffer and a slice without gaps, visiting the items in `order`.
#[derive(Copy, Clone, Debug, PartialEq, Eq, Structural)]
pub struct CopyRequest {
    pub len: usize,
    pub order: Order,
}

/// What filling a new vector takes: room for `items` items, and the copy that
/// the owner is asked for. The vector has `items` items once the owner has
/// reported success, and none before.
#[derive(Copy, Clone, Debug, PartialEq, Eq, Structural)]
pub struct VecRequest {
    pub items: usize,
    pub copy: CopyRequest,
}

/// A descriptor as a mathematical value.
pub struct Descriptor {
    /// The address of the first byte.
    pub buf: usize,
    /// Whether the owner forbids writes.
    pub readonly: bool,
    /// The size of one item in bytes.
    pub item_size: usize,
    /// The number of bytes that all items take when laid out without gaps.
    pub total_bytes: usize,
    /// The number of dimensions; 0 for a single scalar.
    pub ndim: usize,
    /// The extent of each dimension.
    pub shape: Seq<usize>,
    /// For each dimension, the bytes to skip to reach its next index.
    pub strides: Seq<isize>,
    /// For each dimension, where present and not negative, the bytes to add
    /// after following the pointer stored there.
    pub suboffsets: Option<Seq<isize>>,
    /// The format of one item, without a terminating NUL.
    pub format: Seq<u8>,
    /// The owner's answer to whether the items lie in C order without gaps.
    pub c_contiguous: bool,
    /// The owner's answer to whether the items lie in Fortran order without gaps.
    pub fortran_contiguous: bool,
    /// Whether the descriptor has been handed back to the owner.
    pub released: bool,
}

impl Descriptor {
    /// Shape and strides have one entry for each dimension, and so have the
    /// suboffsets where there are any; every extent fits the owner's signed
    /// index type.
    pub open spec fn wf(self) -> bool {
        &&& self.shape.len() == self.ndim
        &&& self.strides.len() == self.ndim
        &&& self.suboffsets matches Some(s) ==> s.len() == self.ndim
        &&& forall|i: int| 0 <= i < self.shape.len() ==> #[trigger] self.shape[i] <= isize::MAX
    }

    /// The number of items.
    pub open spec fn item_count(self) -> int
        recommends
            self.item_size != 0,
    {
        self.total_bytes as int / self.item_size as int
    }

    /// The owner's answer on contiguity in the given order.
    pub open spec fn contiguous(self, order: Order) -> bool {
        match order {
            Order::C => self.c_contiguous,
            Order::Fortran => self.fortran_contiguous,
        }
    }

    /// Whether a view of items of `size` bytes, aligned to `align`, may be
    /// laid over the memory: the item size is `size`, the first byte is
    /// aligned, the owner calls the memory contiguous in `order`, the format is
    /// `compatible` with the item type, and a mutable view is over writable
    /// memory.
    pub open spec fn admits_view(
        self,
        size: nat,
        align: nat,
        compatible: bool,
        order: Order,
        mutable: bool,
    ) -> bool {
        &&& mutable ==> !self.readonly
        &&& size == self.item_size
        &&& self.buf as int % align as int == 0
        &&& self.contiguous(order)
        &&& compatible
    }

    /// The view that is handed out: all items from the first byte on where
    /// the view is admitted, and none otherwise.
    pub open spec fn typed_view(
        self,
        size: nat,
        align: nat,
        compatible: bool,
        order: Order,
        mutable: bool,
    ) -> Option<SliceView> {
        if self.admits_view(size, align, compatible, order, mutable) {
            Some(SliceView { addr: self.buf, len: self.item_count() as usize, mutable })
        } else {
            None
        }
    }

    /// The answer to a copy out of the buffer into a slice of `slice_bytes`
    /// bytes whose items have `size` bytes. The length is judged first, then
    /// the item type.
    pub open spec fn copy_out(
        self,
        slice_bytes: nat,
        size: nat,
        compatible: bool,
        order: Order,
    ) -> Result<CopyRequest, BufferError> {
        if slice_bytes != self.total_bytes {
            Err(BufferError::LengthMismatch)
        } else if !compatible || size != self.item_size {
            Err(BufferError::IncompatibleFormat)
        } else {
            Ok(CopyRequest { len: self.total_bytes, order })
        }
    }

    /// The answer to a copy from a slice into the buffer: a read-only buffer
    /// refuses before anything else is judged.
    pub open spec fn copy_in(
        self,
        slice_bytes: nat,
        size: nat,
        compatible: bool,
        order: Order,
    ) -> Result<CopyRequest, BufferError> {
        if self.readonly {
            Err(BufferError::ReadOnly)
        } else {
            self.copy_out(slice_bytes, size, compatible, order)
        }
    }

    /// The answer to a copy of all items into a new vector of items of `size`
    /// bytes.
    pub open spec fn fill(self, size: nat, compatible: bool, order: Order) -> Result<
        VecRequest,
        BufferError,
    > {
        if !compatible || size != self.item_size {
            Err(BufferError::IncompatibleFormat)
        } else {
            Ok(
                VecRequest {
                    items: self.item_count() as usize,
                    copy: CopyRequest { len: self.total_bytes, order },
                },
            )
        }
    }

    /// Whether `indices` names an item or a sub-array: it has an index for at
    /// most every dimension, each below the extent of its dimension.
    pub open spec fn in_bounds(self, indices: Seq<usize>) -> bool {
        &&& indices.len() <= self.shape.len()
        &&& forall|i: int| 0 <= i < indices.len() ==> #[trigger] indices[i] < self.shape[i]
    }

    /// The index of the first item under `indices`, one entry for each
    /// dimension: `indices` itself, then 0 for every dimension that it leaves
    /// open.
    pub open spec fn index_path(self, indices: Seq<usize>) -> Seq<isize> {
        Seq::new(
            self.ndim as nat,
            |i: int|
                if i < indices.len() {
                    indices[i] as isize
                } else {
                    0isize
                },
        )
    }

    /// `typed_view` for the item type `T` on a machine of byte order `machine`.
    pub open spec fn view_of<T: Element>(
        self,
        machine: ByteOrder,
        order: Order,
        mutable: bool,
    ) -> Option<SliceView> {
        self.typed_view(
            size_of::<T>(),
            align_of::<T>(),
            compatible(machine, T::element_type(), self.format),
            order,
            mutable,
        )
    }

    /// `copy_out` for a slice of `items` items of type `T` on a machine of
    /// byte order `machine`.
    pub open spec fn copy_out_of<T: Element>(
        self,
        machine: ByteOrder,
        items: nat,
        order: Order,
    ) -> Result<CopyRequest, BufferError> {
        self.copy_out(
            items * size_of::<T>(),
            size_of::<T>(),
            compatible(machine, T::element_type(), self.format),
            order,
        )
    }

    /// `copy_in` for a slice of `items` items of type `T` on a machine of
    /// byte order `machine`.
    pub open spec fn copy_in_of<T: Element>(
        self,
        machine: ByteOrder,
        items: nat,
        order: Order,
    ) -> Result<CopyRequest, BufferError> {
        self.copy_in(
            items * size_of::<T>(),
            size_of::<T>(),
            compatible(machine, T::element_type(), self.format),
            order,
        )
    }

    /// `fill` for a vector of items of type `T` on a machine of byte order
    /// `machine`.
    pub open spec fn fill_of<T: Element>(self, machine: ByteOrder, order: Order) -> Result<
        VecRequest,
        BufferError,
    > {
        self.fill(
            size_of::<T>(),
            compatible(machine, T::element_type(), self.format),
            order,
        )
    }

    /// The descriptor after a request to release it.
    pub open spec fn after_release(self) -> Descriptor {
        Descriptor { released: true, ..self }
    }

    /// Whether a request to release the descriptor is passed on to the owner:
    /// only the first one is.
    pub open spec fn release_due(self) -> bool {
        !self.released
    }
}

/// The number of calls to the owner that `n` requests to release `d`, one
/// after the other, lead to.
pub open spec fn release_calls(d: Descriptor, n: nat) -> nat
    decreases n,
{
    if n == 0 {
        0
    } else {
        let first: nat = if d.release_due() {
            1
        } else {
            0
        };
        first + release_calls(d.after_release(), (n - 1) as nat)
    }
}

/// However often the release of a descriptor is requested, by its holder or
/// when the holder goes away, the owner is called at most once: once where
/// the descriptor was still held and there was a request, and else never.
pub proof fn lemma_released_at_most_once(d: Descriptor, n: nat)
    ensures
        release_calls(d, n) <= 1,
        release_calls(d, n) == 1 <==> !d.released && n > 0,
    decreases n,
{
    if n > 0 {
        lemma_released_at_most_once(d.after_release(), (n - 1) as nat);
    }
}

/// A view is handed out exactly when every one of its conditions holds: the
/// size and the alignment of `T`, contiguity in the order asked for,
/// a compatible format and, for a mutable view, writable memory. It then
/// covers every item from the first byte on.
pub proof fn lemma_view_conditions<T: Element>(
    d: Descriptor,
    machine: ByteOrder,
    order: Order,
    mutable: bool,
)
    ensures
        d.view_of::<T>(machine, order, mutable) is Some <==> size_of::<T>() == d.item_size
            && d.buf as int % align_of::<T>() as int == 0 && d.contiguous(order) && compatible(
            machine,
            T::element_type(),
            d.format,
        ) && (mutable ==> !d.readonly),
        d.view_of::<T>(machine, order, mutable) matches Some(v) ==> v.addr == d.buf && v.len
            == d.item_count() as usize && v.mutable == mutable,
{
}

/// Bytes that were copied out of a writable buffer into a vector are accepted
/// when that vector is copied back: the owner is asked to move the same number
/// of bytes in the same order.
pub proof fn lemma_bytes_copied_out_are_accepted_back(
    d: Descriptor,
    machine: ByteOrder,
    order: Order,
)
    requires
        !d.readonly,
        d.fill_of::<u8>(machine, order) is Ok,
    ensures
        d.copy_in_of::<u8>(machine, d.fill_of::<u8>(machine, order)->Ok_0.items as nat, order)
            == Ok::<CopyRequest, BufferError>(d.fill_of::<u8>(machine, order)->Ok_0.copy),
{
    broadcast use layout_of_primitives;

}

/// What an owner filled in when it was asked for a descriptor with full shape
/// and stride information, as plain values.
pub struct RawBuffer {
    pub buf: usize,
    pub len: usize,
    pub itemsize: usize,
    pub readonly: bool,
    pub ndim: usize,
    pub format: Option<Vec<u8>>,
    pub shape: Option<Vec<usize>>,
    pub strides: Option<Vec<isize>>,
    pub suboffsets: Option<Vec<isize>>,
    pub c_contiguous: bool,
    pub fortran_contiguous: bool,
}

impl RawBuffer {
    /// Shape and strides are present, and the descriptor made of these
    /// values is well-formed.
    pub open spec fn valid(&self) -> bool {
        &&& self.shape is Some
        &&& self.strides is Some
        &&& self.descriptor().wf()
    }

    /// The format of one item: the owner's, or that of an unsigned byte where
    /// the owner gave none.
    pub open spec fn format_bytes(&self) -> Seq<u8> {
        match self.format {
            Some(f) => f@,
            None => seq![UNSIGNED_CHAR],
        }
    }

    /// The descriptor that these values make, not yet released. An absent
    /// shape or stride list counts as empty.
    pub open spec fn descriptor(&self) -> Descriptor {
        Descriptor {
            buf: self.buf,
            readonly: self.readonly,
            item_size: self.itemsize,
            total_bytes: self.len,
            ndim: self.ndim,
            shape: match self.shape {
                Some(s) => s@,
                None => Seq::empty(),
            },
            strides: match self.strides {
                Some(s) => s@,
                None => Seq::empty(),
            },
            suboffsets: match self.suboffsets {
                Some(s) => Some(s@),
                None => None,
            },
            format: self.format_bytes(),
            c_contiguous: self.c_contiguous,
            fortran_contiguous: self.fortran_contiguous,
            released: false,
        }
    }
}

/// Whether the values that an owner filled in make a descriptor: shape and
/// strides must be there, with one entry for each dimension.
#[verifier::loop_isolation(false)]
pub fn validate(b: &RawBuffer) -> (ok: bool)
    ensures
        ok == b.valid(),
{
    match (&b.shape, &b.strides) {
        (Some(shape), Some(strides)) => {
            if shape.len() != b.ndim || strides.len() != b.ndim {
                return false;
            }
            match &b.suboffsets {
                Some(s) => {
                    if s.len() != b.ndim {
                        return false;
                    }
                },
                None => {},
            }
            let mut i: usize = 0;
            while i < shape.len()
                invariant
                    i <= shape.len(),
                    forall|j: int| 0 <= j < i ==> #[trigger] shape@[j] <= isize::MAX,
                decreases shape.len() - i,
            {
                if shape[i] > isize::MAX as usize {
                    assert(b.descriptor().shape[i as int] > isize::MAX);
                    return false;
                }
                i += 1;
            }
            true
        },
        _ => false,
    }
}

/// A descriptor that an owner handed out, held until it is released.
pub struct PyBuffer {
    buf: usize,
    len: usize,
    itemsize: usize,
    readonly: bool,
    ndim: usize,
    format: Vec<u8>,
    shape: Vec<usize>,
    strides: Vec<isize>,
    suboffsets: Option<Vec<isize>>,
    c_contiguous: bool,
    fortran_contiguous: bool,
    released: bool,
}

impl View for PyBuffer {
    type V = Descriptor;

    closed spec fn view(&self) -> Descriptor {
        Descriptor {
            buf: self.buf,
            readonly: self.readonly,
            item_size: self.itemsize,
            total_bytes: self.len,
            ndim: self.ndim,
            shape: self.shape@,
            strides: self.strides@,
            suboffsets: match self.suboffsets {
                Some(s) => Some(s@),
                None => None,
            },
            format: self.format@,
            c_contiguous: self.c_contiguous,
            fortran_contiguous: self.fortran_contiguous,
            released: self.released,
        }
    }
}

impl PyBuffer {
    #[verifier::type_invariant]
    spec fn well_formed(&self) -> bool {
        self@.wf()
    }

    /// Takes over what an owner answered to a request for a descriptor:
    /// `status` is what its routine returned and `raw` what it filled in. A
    /// status of `-1` is the owner's refusal; after any other, `raw` is held
    /// as a descriptor that awaits its release. Where the owner gave no
    /// format, the items are unsigned bytes.
    pub fn get(status: i32, raw: RawBuffer) -> (r: Result<PyBuffer, BufferError>)
        requires
            status != -1 ==> raw.valid(),
        ensures
            status == -1 ==> r == Err::<PyBuffer, BufferError>(BufferError::Owner),
            status != -1 ==> r is Ok && r->Ok_0@ == raw.descriptor() && r->Ok_0@.wf(),
    {
        match error_on_minusone(status) {
            Err(e) => Err(e),
            Ok(()) => {
                let RawBuffer {
                    buf,
                    len,
                    itemsize,
                    readonly,
                    ndim,
                    format,
                    shape,
                    strides,
                    suboffsets,
                    c_contiguous,
                    fortran_contiguous,
                } = raw;
                let format = match format {
                    Some(f) => f,
                    None => vec![UNSIGNED_CHAR],
                };
                assert(format@ =~= raw.format_bytes());
                Ok(
                    PyBuffer {
                        buf,
                        len,
                        itemsize,
                        readonly,
                        ndim,
                        format,
                        shape: shape.unwrap(),
                        strides: strides.unwrap(),
                        suboffsets,
                        c_contiguous,
                        fortran_contiguous,
                        released: false,
                    },
                )
            },
        }
    }

    /// The address of the first byte of the buffer's memory.
    pub fn buf_ptr(&self) -> (r: usize)
        ensures
            r == self@.buf,
    {
        self.buf
    }

    /// Whether the owner forbids writes.
    pub fn readonly(&self) -> (r: bool)
        ensures
            r == self@.readonly,
    {
        self.readonly
    }

    /// The size of one item in bytes.
    pub fn item_size(&self) -> (r: usize)
        ensures
            r == self@.item_size,
    {
        self.itemsize
    }

    /// The number of items: as many whole items as the buffer's bytes hold.
    pub fn item_count(&self) -> (r: usize)
        requires
            self@.item_size != 0,
        ensures
            r == self@.item_count(),
            r * self@.item_size <= self@.total_bytes,
            self@.total_bytes - r * self@.item_size < self@.item_size,
    {
        proof {
            let x = self.len as int;
            let d = self.itemsize as int;
            vstd::arithmetic::div_mod::lemma_fundamental_div_mod(x, d);
            vstd::arithmetic::div_mod::lemma_mod_bound(x, d);
            assert((x / d) * d == d * (x / d)) by (nonlinear_arith);
        }
        self.len / self.itemsize
    }

    /// The number of bytes that the items take when laid out without gaps.
    pub fn len_bytes(&self) -> (r: usize)
        ensures
            r == self@.total_bytes,
    {
        self.len
    }

    /// The number of dimensions; 0 for a single scalar.
    pub fn dimensions(&self) -> (r: usize)
        ensures
            r == self@.ndim,
    {
        self.ndim
    }

    /// The extent of each dimension. An extent may be 0.
    pub fn shape(&self) -> (r: &[usize])
        ensures
            r@ == self@.shape,
            r@.len() == self@.ndim,
    {
        proof {
            use_type_invariant(self);
        }
        self.shape.as_slice()
    }

    /// For each dimension, the bytes to skip to reach its next index. A
    /// stride may be zero or negative.
    pub fn strides(&self) -> (r: &[isize])
        ensures
            r@ == self@.strides,
            r@.len() == self@.ndim,
    {
        proof {
            use_type_invariant(self);
        }
        self.strides.as_slice()
    }

    /// The suboffsets, where any dimension holds pointers to follow.
    pub fn suboffsets(&self) -> (r: Option<&[isize]>)
        ensures
            r is Some <==> self@.suboffsets is Some,
            r matches Some(s) ==> s@ == self@.suboffsets->Some_0 && s@.len() == self@.ndim,
    {
        proof {
            use_type_invariant(self);
        }
        match &self.suboffsets {
            Some(s) => Some(s.as_slice()),
            None => None,
        }
    }

    /// The format of one item, without a terminating NUL.
    pub fn format(&self) -> (r: &[u8])
        ensures
            r@ == self@.format,
    {
        self.format.as_slice()
    }

    /// The owner's answer to whether the items lie in C order without gaps.
    pub fn is_c_contiguous(&self) -> (r: bool)
        ensures
            r == self@.contiguous(Order::C),
    {
        self.c_contiguous
    }

    /// The owner's answer to whether the items lie in Fortran order without
    /// gaps.
    pub fn is_fortran_contiguous(&self) -> (r: bool)
        ensures
            r == self@.contiguous(Order::Fortran),
    {
        self.fortran_contiguous
    }

    /// Whether the descriptor has been handed back to the owner.
    pub fn is_released(&self) -> (r: bool)
        ensures
            r == self@.released,
    {
        self.released
    }

    /// Decides whether a view of items of `size` bytes, aligned to `align`,
    /// may be laid over the memory, given whether the format is `compatible`
    /// with the item type. The view covers every item and copies nothing.
    pub fn view_as(
        &self,
        size: usize,
        align: usize,
        compatible: bool,
        order: Order,
        mutable: bool,
    ) -> (r: Option<SliceView>)
        requires
            !self@.released,
            size > 0,
            align > 0,
        ensures
            r == self@.typed_view(size as nat, align as nat, compatible, order, mutable),
            r is Some <==> (mutable ==> !self@.readonly) && size == self@.item_size && self@.buf
                as int % align as int == 0 && self@.contiguous(order) && compatible,
            r matches Some(v) ==> v.addr == self@.buf && v.len == self@.item_count() && v.mutable
                == mutable,
    {
        let contiguous = match order {
            Order::C => self.is_c_contiguous(),
            Order::Fortran => self.is_fortran_contiguous(),
        };
        if (!mutable || !self.readonly()) && size == self.item_size() && self.buf % align == 0
            && contiguous && compatible {
            Some(SliceView { addr: self.buf, len: self.item_count(), mutable })
        } else {
            None
        }
    }

    /// Decides on a copy out of the buffer into a slice of `slice_bytes`
    /// bytes whose items have `size` bytes.
    pub fn copy_to_request(
        &self,
        slice_bytes: usize,
        size: usize,
        compatible: bool,
        order: Order,
    ) -> (r: Result<CopyRequest, BufferError>)
        requires
            !self@.released,
        ensures
            r == self@.copy_out(slice_bytes as nat, size as nat, compatible, order),
    {
        if slice_bytes != self.len_bytes() {
            return Err(BufferError::LengthMismatch);
        }
        if !compatible || size != self.item_size() {
            return Err(BufferError::IncompatibleFormat);
        }
        Ok(CopyRequest { len: self.len, order })
    }

    /// Decides on a copy of all items into a new vector of items of `size`
    /// bytes.
    pub fn to_vec_request(&self, size: usize, compatible: bool, order: Order) -> (r: Result<
        VecRequest,
        BufferError,
    >)
        requires
            !self@.released,
            size > 0,
        ensures
            r == self@.fill(size as nat, compatible, order),
    {
        if !compatible || size != self.item_size() {
            return Err(BufferError::IncompatibleFormat);
        }
        let item_count = self.item_count();
        Ok(VecRequest { items: item_count, copy: CopyRequest { len: self.len, order } })
    }

    /// Decides on a copy from a slice of `slice_bytes` bytes, whose items
    /// have `size` bytes, into the buffer.
    pub fn copy_from_request(
        &self,
        slice_bytes: usize,
        size: usize,
        compatible: bool,
        order: Order,
    ) -> (r: Result<CopyRequest, BufferError>)
        requires
            !self@.released,
        ensures
            r == self@.copy_in(slice_bytes as nat, size as nat, compatible, order),
    {
        if self.readonly() {
            return Err(BufferError::ReadOnly);
        }
        if slice_bytes != self.len_bytes() {
            return Err(BufferError::LengthMismatch);
        }
        if !compatible || size != self.item_size() {
            return Err(BufferError::IncompatibleFormat);
        }
        Ok(CopyRequest { len: self.len, order })
    }

    /// Whether `indices` names an item or a sub-array of the buffer.
    pub fn has_index(&self, indices: &[usize]) -> (ok: bool)
        ensures
            ok == self@.in_bounds(indices@),
    {
        if indices.len() > self.shape.len() {
            return false;
        }
        let mut i: usize = 0;
        while i < indices.len()
            invariant
                i <= indices.len(),
                indices.len() <= self.shape.len(),
                forall|j: int| 0 <= j < i ==> #[trigger] indices@[j] < self@.shape[j],
            decreases indices.len() - i,
        {
            if indices[i] >= self.shape[i] {
                return false;
            }
            i += 1;
        }
        true
    }

    /// Prepares the lookup of the address of the item, or of the start of the
    /// sub-array, that `indices` names: the result is the index that the
    /// owner's lookup is handed, with one entry for each dimension.
    pub fn get_ptr(&self, indices: &[usize]) -> (r: Vec<isize>)
        requires
            !self@.released,
            self@.in_bounds(indices@),
        ensures
            r@ == self@.index_path(indices@),
            r@.len() == self@.ndim,
            forall|i: int| 0 <= i < indices@.len() ==> #[trigger] r@[i] as int == indices@[i] as int,
            forall|i: int| indices@.len() <= i < r@.len() ==> #[trigger] r@[i] == 0,
    {
        proof {
            use_type_invariant(self);
        }
        let mut path: Vec<isize> = Vec::new();
        let mut i: usize = 0;
        while i < self.ndim
            invariant
                i <= self.ndim,
                path@.len() == i,
                self@.wf(),
                self@.in_bounds(indices@),
                forall|j: int| 0 <= j < i ==> #[trigger] path@[j] == self@.index_path(indices@)[j],
                forall|j: int|
                    0 <= j < i && j < indices@.len() ==> #[trigger] path@[j] as int
                        == indices@[j] as int,
            decreases self.ndim - i,
        {
            if i < indices.len() {
                assert(indices@[i as int] < self@.shape[i as int]);
                assert(self@.shape[i as int] <= isize::MAX);
                path.push(indices[i] as isize);
            } else {
                path.push(0);
            }
            i += 1;
        }
        assert(path@ =~= self@.index_path(indices@));
        path
    }

    /// Gives the buffer's memory as items of type `T`, for reading, without a
    /// copy.
    ///
    /// There is a view if and only if the item size is the size of `T`, the
    /// first byte is aligned for `T`, the owner calls the memory contiguous in
    /// C order, and the format is compatible with `T` on this machine.
    pub fn as_slice<T: Element>(&self) -> (r: Option<SliceView>)
        requires
            !self@.released,
        ensures
            r == self@.view_of::<T>(ByteOrder::Little, Order::C, false) || r == self@.view_of::<T>(
                ByteOrder::Big,
                Order::C,
                false,
            ),
    {
        broadcast use align_nonzero;

        proof {
            T::lemma_width();
        }
        self.view_as(
            core::mem::size_of::<T>(),
            core::mem::align_of::<T>(),
            T::is_compatible_format(self.format()),
            Order::C,
            false,
        )
    }

    /// Gives the buffer's memory as items of type `T`, for reading and
    /// writing, without a copy.
    ///
    /// There is a view if and only if the buffer is not read-only, the item
    /// size is the size of `T`, the first byte is aligned for `T`, the owner
    /// calls the memory contiguous in C order, and the format is compatible
    /// with `T` on this machine.
    pub fn as_mut_slice<T: Element>(&self) -> (r: Option<SliceView>)
        requires
            !self@.released,
        ensures
            r == self@.view_of::<T>(ByteOrder::Little, Order::C, true) || r == self@.view_of::<T>(
                ByteOrder::Big,
                Order::C,
                true,
            ),
    {
        broadcast use align_nonzero;

        proof {
            T::lemma_width();
        }
        self.view_as(
            core::mem::size_of::<T>(),
            core::mem::align_of::<T>(),
            T::is_compatible_format(self.format()),
            Order::C,
            true,
        )
    }

    /// Gives the buffer's memory as items of type `T`, for reading, without a
    /// copy.
    ///
    /// There is a view if and only if the item size is the size of `T`, the
    /// first byte is aligned for `T`, the owner calls the memory contiguous in
    /// Fortran order, and the format is compatible with `T` on this machine.
    pub fn as_fortran_slice<T: Element>(&self) -> (r: Option<SliceView>)
        requires
            !self@.released,
        ensures
            r == self@.view_of::<T>(ByteOrder::Little, Order::Fortran, false) || r
                == self@.view_of::<T>(ByteOrder::Big, Order::Fortran, false),
    {
        broadcast use align_nonzero;

        proof {
            T::lemma_width();
        }
        self.view_as(
            core::mem::size_of::<T>(),
            core::mem::align_of::<T>(),
            T::is_compatible_format(self.format()),
            Order::Fortran,
            false,
        )
    }

    /// Gives the buffer's memory as items of type `T`, for reading and
    /// writing, without a copy.
    ///
    /// There is a view if and only if the buffer is not read-only, the item
    /// size is the size of `T`, the first byte is aligned for `T`, the owner
    /// calls the memory contiguous in Fortran order, and the format is
    /// compatible with `T` on this machine.
    pub fn as_fortran_mut_slice<T: Element>(&self) -> (r: Option<SliceView>)
        requires
            !self@.released,
        ensures
            r == self@.view_of::<T>(ByteOrder::Little, Order::Fortran, true) || r
                == self@.view_of::<T>(ByteOrder::Big, Order::Fortran, true),
    {
        broadcast use align_nonzero;

        proof {
            T::lemma_width();
        }
        self.view_as(
            core::mem::size_of::<T>(),
            core::mem::align_of::<T>(),
            T::is_compatible_format(self.format()),
            Order::Fortran,
            true,
        )
    }

    /// Decides on a copy of the buffer's items into `target`, in C order.
    ///
    /// Fails with `LengthMismatch` where `target` does not have as many bytes
    /// as the buffer, and else with `IncompatibleFormat` where `T` cannot
    /// stand for the buffer's items.
    pub fn copy_to_slice<T: Element + Copy>(&self, target: &[T]) -> (r: Result<
        CopyRequest,
        BufferError,
    >)
        requires
            !self@.released,
        ensures
            r == self@.copy_out_of::<T>(ByteOrder::Little, target@.len(), Order::C) || r
                == self@.copy_out_of::<T>(ByteOrder::Big, target@.len(), Order::C),
    {
        self.copy_to_slice_impl(target, Order::C)
    }

    /// Decides on a copy of the buffer's items into `target`, in Fortran
    /// order.
    ///
    /// Fails with `LengthMismatch` where `target` does not have as many bytes
    /// as the buffer, and else with `IncompatibleFormat` where `T` cannot
    /// stand for the buffer's items.
    pub fn copy_to_fortran_slice<T: Element + Copy>(&self, target: &[T]) -> (r: Result<
        CopyRequest,
        BufferError,
    >)
        requires
            !self@.released,
        ensures
            r == self@.copy_out_of::<T>(ByteOrder::Little, target@.len(), Order::Fortran) || r
                == self@.copy_out_of::<T>(ByteOrder::Big, target@.len(), Order::Fortran),
    {
        self.copy_to_slice_impl(target, Order::Fortran)
    }

    fn copy_to_slice_impl<T: Element + Copy>(&self, target: &[T], order: Order) -> (r: Result<
        CopyRequest,
        BufferError,
    >)
        requires
            !self@.released,
        ensures
            r == self@.copy_out_of::<T>(ByteOrder::Little, target@.len(), order) || r
                == self@.copy_out_of::<T>(ByteOrder::Big, target@.len(), order),
    {
        broadcast use layout_of_slices;

        self.copy_to_request(
            core::mem::size_of_val(target),
            core::mem::size_of::<T>(),
            T::is_compatible_format(self.format()),
            order,
        )
    }

    /// Decides on a copy of the buffer's items into a new vector, in C order.
    ///
    /// Fails with `IncompatibleFormat` where `T` cannot stand for the
    /// buffer's items.
    pub fn to_vec<T: Element + Copy>(&self) -> (r: Result<VecRequest, BufferError>)
        requires
            !self@.released,
        ensures
            r == self@.fill_of::<T>(ByteOrder::Little, Order::C) || r == self@.fill_of::<T>(
                ByteOrder::Big,
                Order::C,
            ),
    {
        self.to_vec_impl::<T>(Order::C)
    }

    /// Decides on a copy of the buffer's items into a new vector, in Fortran
    /// order.
    ///
    /// Fails with `IncompatibleFormat` where `T` cannot stand for the
    /// buffer's items.
    pub fn to_fortran_vec<T: Element + Copy>(&self) -> (r: Result<VecRequest, BufferError>)
        requires
            !self@.released,
        ensures
            r == self@.fill_of::<T>(ByteOrder::Little, Order::Fortran) || r == self@.fill_of::<T>(
                ByteOrder::Big,
                Order::Fortran,
            ),
    {
        self.to_vec_impl::<T>(Order::Fortran)
    }

    fn to_vec_impl<T: Element + Copy>(&self, order: Order) -> (r: Result<VecRequest, BufferError>)
        requires
            !self@.released,
        ensures
            r == self@.fill_of::<T>(ByteOrder::Little, order) || r == self@.fill_of::<T>(
                ByteOrder::Big,
                order,
            ),
    {
        proof {
            T::lemma_width();
        }
        self.to_vec_request(
            core::mem::size_of::<T>(),
            T::is_compatible_format(self.format()),
            order,
        )
    }

    /// Decides on a copy of `source` into the buffer, whose items are taken
    /// to be in C order.
    ///
    /// Fails with `ReadOnly` where the buffer is read-only, else with
    /// `LengthMismatch` where `source` does not have as many bytes as the
    /// buffer, and else with `IncompatibleFormat` where `T` cannot stand for
    /// the buffer's items.
    pub fn copy_from_slice<T: Element + Copy>(&self, source: &[T]) -> (r: Result<
        CopyRequest,
        BufferError,
    >)
        requires
            !self@.released,
        ensures
            r == self@.copy_in_of::<T>(ByteOrder::Little, source@.len(), Order::C) || r
                == self@.copy_in_of::<T>(ByteOrder::Big, source@.len(), Order::C),
    {
        self.copy_from_slice_impl(source, Order::C)
    }

    /// Decides on a copy of `source` into the buffer, whose items are taken
    /// to be in Fortran order.
    ///
    /// Fails with `ReadOnly` where the buffer is read-only, else with
    /// `LengthMismatch` where `source` does not have as many bytes as the
    /// buffer, and else with `IncompatibleFormat` where `T` cannot stand for
    /// the buffer's items.
    pub fn copy_from_fortran_slice<T: Element + Copy>(&self, source: &[T]) -> (r: Result<
        CopyRequest,
        BufferError,
    >)
        requires
            !self@.released,
        ensures
            r == self@.copy_in_of::<T>(ByteOrder::Little, source@.len(), Order::Fortran) || r
                == self@.copy_in_of::<T>(ByteOrder::Big, source@.len(), Order::Fortran),
    {
        self.copy_from_slice_impl(source, Order::Fortran)
    }

    fn copy_from_slice_impl<T: Element + Copy>(&self, source: &[T], order: Order) -> (r: Result<
        CopyRequest,
        BufferError,
    >)
        requires
            !self@.released,
        ensures
            r == self@.copy_in_of::<T>(ByteOrder::Little, source@.len(), order) || r
                == self@.copy_in_of::<T>(ByteOrder::Big, source@.len(), order),
    {
        broadcast use layout_of_slices;

        self.copy_from_request(
            core::mem::size_of_val(source),
            core::mem::size_of::<T>(),
            T::is_compatible_format(self.format()),
            order,
        )
    }

    /// Takes note of a request to release the descriptor, explicit or made
    /// when the holder goes away, and says whether the owner is to be called:
    /// it is for the first request and for no later one.
    pub fn release(&mut self) -> (due: bool)
        ensures
            due == old(self)@.release_due(),
            final(self)@ == old(self)@.after_release(),
    {
        proof {
            use_type_invariant(&*self);
        }
        let due = !self.released;
        self.released = true;
        due
    }
}

} // verus!
