//! Scalar types of the vendor-neutral ABI and the layout of the status record.

use vstd::prelude::*;

verus! {

/// Address-sized signed integer.
pub type MPI_Aint = isize;

/// Element count that does not depend on the pointer width.
pub type MPI_Count = i64;

/// Integer as the Fortran bindings see it.
pub type MPI_Fint = i32;

/// File offset.
pub type MPI_Offset = i64;

/// Handle of a communicator. Like every handle it is an integer that this
/// layer carries and never interprets.
pub type MPI_Comm = usize;

/// Handle of a datatype.
pub type MPI_Datatype = usize;

/// Handle of an error handler.
pub type MPI_Errhandler = usize;

/// Handle of an open file.
pub type MPI_File = usize;

/// Handle of a process group.
pub type MPI_Group = usize;

/// Handle of an info object.
pub type MPI_Info = usize;

/// Handle of a matched message.
pub type MPI_Message = usize;

/// Handle of a reduction operation.
pub type MPI_Op = usize;

/// Handle of a pending request.
pub type MPI_Request = usize;

/// Handle of a one-sided window.
pub type MPI_Win = usize;

/// Address of a status record, as a number.
pub type StatusAddress = usize;

/// Size in bytes of the C `int` that the public status fields have.
pub const C_INT_SIZE: usize = 4;

/// Alignment in bytes of the C `int`.
pub const C_INT_ALIGN: usize = 4;

/// Bytes that the status record keeps for the reserved region in memory,
/// enough for every supported pointer width.
pub const STATUS_RESERVED_MAX: usize = 24;

/// The pointer widths that the ABI is defined for.
#[derive(Clone, Copy, Debug, PartialEq, Eq, Structural)]
pub enum PointerWidth {
    Bits32,
    Bits64,
}

/// The MPI implementations whose native status layouts the record has to hold.
#[derive(Clone, Copy, Debug, PartialEq, Eq, Structural)]
pub enum Vendor {
    OpenMpi,
    Mpich,
}

impl PointerWidth {
    /// Size in bytes of a pointer, and of `size_t`.
    pub open spec fn bytes(self) -> nat {
        match self {
            PointerWidth::Bits32 => 4,
            PointerWidth::Bits64 => 8,
        }
    }

    /// The width of the machine that this code runs on.
    pub fn native() -> (width: PointerWidth)
        ensures
            width.bytes() * 8 == usize::BITS,
    {
        if usize::BITS == 64 {
            PointerWidth::Bits64
        } else {
            PointerWidth::Bits32
        }
    }

    /// Size in bytes of a pointer, and of `size_t`.
    pub fn pointer_size(self) -> (size: usize)
        ensures
            size == self.bytes(),
    {
        match self {
            PointerWidth::Bits32 => 4,
            PointerWidth::Bits64 => 8,
        }
    }
}

/// Bytes that a vendor's native status keeps besides the three public
/// fields: four `int` and a `size_t` for Open MPI, five `int` for MPICH.
pub open spec fn vendor_internal_size(vendor: Vendor, width: PointerWidth) -> nat {
    match vendor {
        Vendor::OpenMpi => 4 * C_INT_SIZE as nat + width.bytes(),
        Vendor::Mpich => 5 * C_INT_SIZE as nat,
    }
}

/// Size of the reserved region: the largest internal size of any vendor.
pub open spec fn internal_size(width: PointerWidth) -> nat {
    let open_mpi = vendor_internal_size(Vendor::OpenMpi, width);
    let mpich = vendor_internal_size(Vendor::Mpich, width);
    if open_mpi >= mpich {
        open_mpi
    } else {
        mpich
    }
}

/// The least multiple of `align` that is not below `offset`.
pub open spec fn aligned(offset: nat, align: nat) -> nat
    recommends
        align > 0,
{
    if offset % align == 0 {
        offset
    } else {
        (offset + align - offset % align) as nat
    }
}

/// Where the parts of a status record lie, in bytes from its start.
#[derive(Clone, Copy, Debug, PartialEq, Eq, Structural)]
pub struct StatusLayout {
    /// Size of the reserved region, which starts at offset 0.
    pub internal: usize,
    /// Offset of the source rank.
    pub source: usize,
    /// Offset of the tag.
    pub tag: usize,
    /// Offset of the error code.
    pub error: usize,
    /// Alignment of the whole record.
    pub align: usize,
    /// Size of the whole record.
    pub size: usize,
}

impl StatusLayout {
    /// The layout that the C rules give to a record of a byte region of
    /// `internal` bytes followed by three `int`: every field at the first
    /// offset of its alignment that is free, the size a multiple of the
    /// record's alignment.
    pub open spec fn follows_c_rules(self) -> bool {
        &&& self.source == aligned(self.internal as nat, C_INT_ALIGN as nat)
        &&& self.tag == aligned((self.source + C_INT_SIZE) as nat, C_INT_ALIGN as nat)
        &&& self.error == aligned((self.tag + C_INT_SIZE) as nat, C_INT_ALIGN as nat)
        &&& self.align == C_INT_ALIGN
        &&& self.size == aligned((self.error + C_INT_SIZE) as nat, self.align as nat)
    }

    /// The layout of the status record for a pointer width.
    pub open spec fn of(width: PointerWidth) -> StatusLayout {
        let internal = internal_size(width);
        StatusLayout {
            internal: internal as usize,
            source: internal as usize,
            tag: (internal + C_INT_SIZE) as usize,
            error: (internal + 2 * C_INT_SIZE) as usize,
            align: C_INT_ALIGN,
            size: (internal + 3 * C_INT_SIZE) as usize,
        }
    }
}

/// The status record that receive and wait calls fill in.
///
/// The reserved region stands for what the vendor keeps there; nothing in
/// this layer reads a meaning into it. It is held at its largest size, of
/// which a pointer width uses the first `internal_size(width)` bytes. In
/// memory that the native library writes to, the record lies as
/// `StatusLayout::of` says.
#[derive(Clone, Copy)]
pub struct MPI_Status {
    /// The reserved region.
    pub reserved: [u8; STATUS_RESERVED_MAX],
    /// Rank of the sender.
    pub MPI_SOURCE: i32,
    /// Tag of the message.
    pub MPI_TAG: i32,
    /// Error code of the operation.
    pub MPI_ERROR: i32,
}

/// Rounds `offset` up to a multiple of `align`. The multiple has to fit.
pub fn align_up(offset: usize, align: usize) -> (rounded: usize)
    requires
        align > 0,
        aligned(offset as nat, align as nat) <= usize::MAX,
    ensures
        rounded == aligned(offset as nat, align as nat),
        rounded % align == 0,
        offset <= rounded < offset + align,
{
    let over: usize = offset % align;
    if over == 0 {
        offset
    } else {
        let rounded: usize = offset + (align - over);
        assert(rounded % align == 0) by (nonlinear_arith)
            requires
                align > 0,
                over == offset % align,
                over != 0,
                rounded == offset + (align - over),
        ;
        rounded
    }
}

/// Size in bytes of a vendor's internal status data.
pub fn vendor_status_internal_size(vendor: Vendor, width: PointerWidth) -> (size: usize)
    ensures
        size == vendor_internal_size(vendor, width),
{
    match vendor {
        Vendor::OpenMpi => 4 * C_INT_SIZE + width.pointer_size(),
        Vendor::Mpich => 5 * C_INT_SIZE,
    }
}

/// Size in bytes of the reserved region of the status record: 24 where
/// pointers have 64 bits, 20 where they have 32.
pub fn status_internal_size(width: PointerWidth) -> (size: usize)
    ensures
        size == internal_size(width),
        width == PointerWidth::Bits64 ==> size == 24,
        width == PointerWidth::Bits32 ==> size == 20,
        size <= STATUS_RESERVED_MAX,
{
    let open_mpi: usize = vendor_status_internal_size(Vendor::OpenMpi, width);
    let mpich: usize = vendor_status_internal_size(Vendor::Mpich, width);
    if open_mpi >= mpich {
        open_mpi
    } else {
        mpich
    }
}

/// Lays the status record out by the C rules: the reserved region first,
/// then source, tag and error code.
pub fn status_layout(width: PointerWidth) -> (layout: StatusLayout)
    ensures
        layout.follows_c_rules(),
        layout == StatusLayout::of(width),
{
    let internal: usize = status_internal_size(width);
    let source: usize = align_up(internal, C_INT_ALIGN);
    let tag: usize = align_up(source + C_INT_SIZE, C_INT_ALIGN);
    let error: usize = align_up(tag + C_INT_SIZE, C_INT_ALIGN);
    let size: usize = align_up(error + C_INT_SIZE, C_INT_ALIGN);
    StatusLayout { internal, source, tag, error, align: C_INT_ALIGN, size }
}

/// Size in bytes of the whole status record.
pub fn status_size(width: PointerWidth) -> (size: usize)
    ensures
        size == internal_size(width) + 3 * C_INT_SIZE,
{
    status_layout(width).size
}

/// For every supported pointer width the record is exactly as large as its
/// reserved region and its three public integers together, and the three lie
/// one behind the other directly after the region: the C rules put no gap
/// into it. The region has 24 bytes where pointers have 64 bits and 20 where
/// they have 32.
pub proof fn lemma_status_size(width: PointerWidth, layout: StatusLayout)
    requires
        layout.internal == internal_size(width),
        layout.follows_c_rules(),
    ensures
        internal_size(width) == if width == PointerWidth::Bits64 { 24nat } else { 20nat },
        layout.size == internal_size(width) + 3 * C_INT_SIZE,
        layout.source == internal_size(width),
        layout.tag == layout.source + C_INT_SIZE,
        layout.error == layout.tag + C_INT_SIZE,
        layout == StatusLayout::of(width),
{
}

/// The reserved region holds the internal data of every vendor, and it is no
/// larger than the largest of them.
pub proof fn lemma_reserved_region_fits(vendor: Vendor, width: PointerWidth)
    ensures
        vendor_internal_size(vendor, width) <= internal_size(width),
        exists|v: Vendor| vendor_internal_size(v, width) == internal_size(width),
{
    if vendor_internal_size(Vendor::OpenMpi, width) >= vendor_internal_size(Vendor::Mpich, width) {
        assert(vendor_internal_size(Vendor::OpenMpi, width) == internal_size(width));
    } else {
        assert(vendor_internal_size(Vendor::Mpich, width) == internal_size(width));
    }
}

} // verus!
