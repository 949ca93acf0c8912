//! Sizing of a growable, densely packed device buffer.

use vstd::layout::size_of;
use vstd::prelude::*;

verus! {

/// Byte granularity of device-side buffer copies.
pub const ALIGN: u64 = 4;

/// Granularity of the default growth policy.
pub const MEGABYTE: u64 = 0x10_0000;

/// The largest size that `pad_size` can round up without leaving `u64`.
pub const MAX_PADDABLE: u64 = 0xffff_ffff_ffff_fffc;

/// The largest size that `default_growth` can round up without leaving `u64`.
pub const MAX_GROWABLE: u64 = 0xffff_ffff_fff0_0000;

/// Usage flag of a buffer that a device-side copy may read.
pub const COPY_SRC: u32 = 0x04;

/// Usage flag of a buffer that a device-side copy may write.
pub const COPY_DST: u32 = 0x08;

/// `size` rounded up to a whole number of `unit`s.
pub open spec fn round_up(size: nat, unit: nat) -> nat
    recommends
        unit > 0,
{
    (((size + unit - 1) / (unit as int)) * unit) as nat
}

/// `size` rounded up to a whole number of alignment units, and at least one unit.
pub open spec fn spec_pad_size(size: nat) -> nat {
    if size == 0 {
        ALIGN as nat
    } else {
        round_up(size, ALIGN as nat)
    }
}

/// What the default growth policy proposes for `required` bytes: the next
/// whole megabyte.
pub open spec fn spec_default_growth(required: nat) -> nat {
    round_up(required, MEGABYTE as nat)
}

/// `round_up(size, unit)` is a multiple of `unit`, at least `size` and less than
/// one unit above it.
pub proof fn lemma_round_up(size: nat, unit: nat)
    requires
        unit > 0,
    ensures
        round_up(size, unit) % unit == 0,
        size <= round_up(size, unit) < size + unit,
{
    let q = (size + unit - 1) / (unit as int);
    assert(q * unit <= size + unit - 1 < q * unit + unit && (q * unit) % (unit as int) == 0 && q
        >= 0) by (nonlinear_arith)
        requires
            unit > 0,
            size >= 0,
            q == (size + unit - 1) / (unit as int),
    ;
}

/// No multiple of `unit` lies between `size` and `round_up(size, unit)`.
pub proof fn lemma_round_up_least(size: nat, unit: nat, multiple: nat)
    requires
        unit > 0,
        multiple % unit == 0,
        multiple >= size,
    ensures
        round_up(size, unit) <= multiple,
{
    lemma_round_up(size, unit);
    let q = (size + unit - 1) / (unit as int);
    let k = multiple / unit;
    assert(multiple == k * unit && (k < q ==> k * unit + unit <= q * unit) && (k >= q ==> k * unit
        >= q * unit)) by (nonlinear_arith)
        requires
            unit > 0,
            multiple % unit == 0,
            k == multiple / unit,
    ;
}

/// The device's copy alignment, `wgpu::COPY_BUFFER_ALIGNMENT`. The constant is
/// declared as 4 in the graphics crate; the contract repeats that value.
#[verifier::external_body]
fn copy_alignment() -> (align: u64)
    ensures
        align == ALIGN,
{
    vello::wgpu::COPY_BUFFER_ALIGNMENT
}

/// Rounds a byte size up to the next multiple of the copy alignment, with a
/// minimum of one alignment unit.
pub fn pad_size(size: u64) -> (padded: u64)
    requires
        size <= MAX_PADDABLE,
    ensures
        padded == spec_pad_size(size as nat),
        padded % ALIGN == 0,
        padded >= size,
        padded >= ALIGN,
        padded <= MAX_PADDABLE,
{
    let align = copy_alignment();
    let align_mask = align - 1;
    let rounded = (size + align_mask) & !align_mask;
    proof {
        assert(rounded == ((size + 3) / 4) * 4) by (bit_vector)
            requires
                size <= 0xffff_ffff_ffff_fffcu64,
                rounded == ((size + 3u64) as u64) & !3u64,
        ;
        lemma_round_up(size as nat, ALIGN as nat);
    }
    if rounded < align {
        align
    } else {
        rounded
    }
}

/// The default growth policy: the required size rounded up to the next whole
/// megabyte, which is a whole number of alignment units too. The current
/// capacity and the kind of allocation do not matter to it.
pub fn default_growth(_current_capacity: u64, required_size: u64, _is_initial: bool) -> (capacity:
    u64)
    requires
        required_size <= MAX_GROWABLE,
    ensures
        capacity == spec_default_growth(required_size as nat),
        capacity % MEGABYTE == 0,
        capacity % ALIGN == 0,
        required_size <= capacity < required_size + MEGABYTE,
        capacity <= MAX_GROWABLE,
{
    let mask = MEGABYTE - 1;
    let rounded = (required_size + mask) & !mask;
    proof {
        assert(rounded == ((required_size + 0xf_ffff) / 0x10_0000) * 0x10_0000) by (bit_vector)
            requires
                required_size <= 0xffff_ffff_fff0_0000u64,
                rounded == ((required_size + 0xf_ffffu64) as u64) & !0xf_ffffu64,
        ;
        lemma_round_up(required_size as nat, MEGABYTE as nat);
        assert(rounded % 4 == 0) by (bit_vector)
            requires
                rounded % 0x10_0000 == 0,
        ;
    }
    rounded
}

/// Padding changes nothing in a size that is already padded.
pub proof fn lemma_pad_size_idempotent(size: nat)
    ensures
        spec_pad_size(spec_pad_size(size)) == spec_pad_size(size),
        spec_pad_size(size) % (ALIGN as nat) == 0,
        spec_pad_size(size) >= size,
        spec_pad_size(size) >= ALIGN,
{
    lemma_round_up(size, ALIGN as nat);
    let padded = spec_pad_size(size);
    lemma_round_up(padded, ALIGN as nat);
    lemma_round_up_least(padded, ALIGN as nat, padded);
}

/// No aligned size of at least one unit lies between `size` and its padding.
pub proof fn lemma_pad_size_least(size: nat, aligned: nat)
    requires
        aligned % (ALIGN as nat) == 0,
        aligned >= size,
        aligned >= ALIGN,
    ensures
        spec_pad_size(size) <= aligned,
{
    if size > 0 {
        lemma_round_up_least(size, ALIGN as nat, aligned);
    }
}

/// Whether `usage` names a buffer that device-side copies may both read and write.
pub open spec fn allows_copies(usage: u32) -> bool {
    usage & COPY_SRC == COPY_SRC && usage & COPY_DST == COPY_DST
}

/// `wgpu::BufferUsages::contains` on the flag sets with the given bits: whether
/// every bit of `flags` is set in `usage`. Bits that name no flag are kept as
/// they are.
#[verifier::external_body]
fn usage_contains(usage: u32, flags: u32) -> (held: bool)
    ensures
        held == (usage & flags == flags),
{
    let usage = vello::wgpu::BufferUsages::from_bits_retain(usage);
    usage.contains(vello::wgpu::BufferUsages::from_bits_retain(flags))
}

/// Tests whether a buffer with these usage flags can be grown by copying.
pub fn usage_allows_copies(usage: u32) -> (allowed: bool)
    ensures
        allowed == allows_copies(usage),
{
    usage_contains(usage, COPY_SRC) && usage_contains(usage, COPY_DST)
}

/// The capacity of a fresh buffer that has to hold `size` bytes.
pub open spec fn initial_capacity(size: nat) -> nat {
    spec_pad_size(spec_default_growth(size))
}

/// The capacity after room for `required` bytes was asked from a buffer of
/// `capacity` bytes: unchanged while the bytes fit, else what the growth policy
/// proposes, padded.
pub open spec fn grown_capacity(capacity: nat, required: nat) -> nat {
    if required > capacity {
        spec_pad_size(spec_default_growth(required))
    } else {
        capacity
    }
}

/// Replacement of a buffer by a larger one.
#[derive(Clone, Copy, Debug, PartialEq, Eq, Structural)]
pub struct Growth {
    /// Size in bytes of the buffer to allocate.
    pub capacity: u64,
    /// Number of bytes to copy from the start of the old buffer to the start of
    /// the new one.
    pub preserved: u64,
}

/// The device work that appends to a buffer, in the order in which it has to be
/// encoded: the growth, if any, then the copy out of a staging buffer.
#[derive(Clone, Copy, Debug, PartialEq, Eq, Structural)]
pub struct Extension {
    /// The replacement that has to come first, if the new bytes did not fit.
    pub growth: Option<Growth>,
    /// Size in bytes of the staging buffer to allocate.
    pub staging_size: u64,
    /// Byte offset in the buffer at which the new bytes go.
    pub offset: u64,
    /// Number of bytes to copy from the start of the staging buffer.
    pub size: u64,
}

/// The work that appends `extra` bytes to a buffer of `capacity` bytes of which
/// `used` are taken.
pub open spec fn planned_extension(capacity: nat, used: nat, extra: nat) -> Extension {
    Extension {
        growth: if used + extra > capacity {
            Some(
                Growth {
                    capacity: grown_capacity(capacity, used + extra) as u64,
                    preserved: used as u64,
                },
            )
        } else {
            None
        },
        staging_size: spec_pad_size(extra) as u64,
        offset: used as u64,
        size: extra as u64,
    }
}

/// The work of an extension never asks the device for a copy that overruns a
/// buffer: the staging buffer holds the new bytes, and a grown buffer holds the
/// old and the new bytes and is larger than the one it replaces. Where the bytes
/// in use and the new bytes are whole alignment units, so is every offset and
/// size of the work.
pub proof fn lemma_planned_extension(capacity: nat, used: nat, extra: nat)
    requires
        used <= capacity <= MAX_PADDABLE,
        used + extra <= MAX_GROWABLE,
    ensures
        ({
            let work = planned_extension(capacity, used, extra);
            let aligned = used % (ALIGN as nat) == 0 && extra % (ALIGN as nat) == 0;
            &&& work.offset == used
            &&& work.size == extra
            &&& work.staging_size >= work.size
            &&& work.staging_size % ALIGN == 0
            &&& work.growth is None ==> work.offset + work.size <= capacity
            &&& work.growth matches Some(growth) ==> {
                &&& growth.preserved == used
                &&& growth.capacity > capacity
                &&& growth.capacity >= work.offset + work.size
                &&& growth.capacity % ALIGN == 0
            }
            &&& aligned ==> work.offset % ALIGN == 0 && work.size % ALIGN == 0
            &&& aligned ==> (work.growth matches Some(growth) ==> growth.preserved % ALIGN == 0)
        }),
{
    lemma_pad_size_idempotent(extra);
    lemma_round_up(extra, ALIGN as nat);
    lemma_round_up(used + extra, MEGABYTE as nat);
    lemma_pad_size_idempotent(spec_default_growth(used + extra));
    lemma_round_up(spec_default_growth(used + extra), ALIGN as nat);
}

/// A growable array of `T` in device memory, as the host accounts for it.
///
/// The value holds no memory of its own. It knows how many elements the device
/// buffer holds, how large it was allocated and with which usage flags, and it
/// tracks, as ghost state, what the elements are once all the work that it
/// handed out has been carried out in order.
pub struct GpuBuffer<T> {
    length: usize,
    capacity: u64,
    usage: u32,
    contents: Ghost<Seq<T>>,
}

impl<T> View for GpuBuffer<T> {
    type V = Seq<T>;

    /// The elements that the buffer logically holds.
    closed spec fn view(&self) -> Seq<T> {
        self.contents@
    }
}

impl<T> GpuBuffer<T> {
    /// The element count that the host has recorded.
    pub closed spec fn spec_len(&self) -> nat {
        self.length as nat
    }

    /// The allocated size in bytes.
    pub closed spec fn spec_capacity(&self) -> nat {
        self.capacity as nat
    }

    /// The usage flags that every allocation for this buffer carries.
    pub closed spec fn spec_usage(&self) -> u32 {
        self.usage
    }

    /// The number of bytes that the elements take.
    pub open spec fn spec_size(&self) -> nat {
        self@.len() * size_of::<T>()
    }

    /// The invariant: the recorded length is that of the contents, the
    /// capacity is padded and holds all elements, and the buffer can be copied
    /// from and to.
    pub open spec fn wf(&self) -> bool {
        &&& self.spec_len() == self@.len()
        &&& self.spec_capacity() == spec_pad_size(self.spec_capacity())
        &&& self.spec_capacity() <= MAX_PADDABLE
        &&& self.spec_size() <= self.spec_capacity()
        &&& allows_copies(self.spec_usage())
    }

    /// Whether `next` is what appending `data` makes of this buffer.
    pub open spec fn extends_to(self, data: Seq<T>, next: Self) -> bool {
        &&& next.wf()
        &&& next@ == self@ + data
        &&& next.spec_usage() == self.spec_usage()
        &&& next.spec_capacity() == grown_capacity(self.spec_capacity(), next.spec_size())
    }

    /// Whether `length` elements are few enough for their byte size to be
    /// rounded up by the growth policy.
    pub open spec fn spec_fits(length: nat) -> bool {
        length * size_of::<T>() <= MAX_GROWABLE
    }

    /// Tests whether a buffer of `length` elements can be sized.
    pub fn fits(length: usize) -> (fit: bool)
        ensures
            fit == Self::spec_fits(length as nat),
    {
        let elem: usize = core::mem::size_of::<T>();
        assert(length * elem <= 0xffff_ffff_ffff_ffff * 0xffff_ffff_ffff_ffff) by (nonlinear_arith)
            requires
                0 <= length <= 0xffff_ffff_ffff_ffff,
                0 <= elem <= 0xffff_ffff_ffff_ffff,
        ;
        let bytes: u128 = (length as u128) * (elem as u128);
        bytes <= MAX_GROWABLE as u128
    }

    /// The number of elements.
    pub fn len(&self) -> (length: usize)
        ensures
            length == self.spec_len(),
    {
        self.length
    }

    /// The allocated size in bytes.
    pub fn capacity(&self) -> (capacity: u64)
        ensures
            capacity == self.spec_capacity(),
    {
        self.capacity
    }

    /// The usage flags.
    pub fn usage(&self) -> (usage: u32)
        ensures
            usage == self.spec_usage(),
    {
        self.usage
    }

    /// The number of bytes that the elements take.
    pub fn size(&self) -> (size: u64)
        requires
            self.wf(),
        ensures
            size == self.spec_size(),
    {
        let elem: usize = core::mem::size_of::<T>();
        assert(self.length * elem == self.spec_size()) by (nonlinear_arith)
            requires
                self.length == self@.len(),
                elem == size_of::<T>(),
        ;
        (self.length as u64) * (elem as u64)
    }

    /// Sizes a fresh buffer that holds `data`.
    ///
    /// The device buffer to allocate has `capacity()` bytes and the given usage
    /// flags, and `data` goes to its start.
    pub fn new(usage: u32, data: &[T]) -> (buffer: Self)
        requires
            allows_copies(usage),
            Self::spec_fits(data@.len()),
        ensures
            buffer.wf(),
            buffer@ == data@,
            buffer.spec_usage() == usage,
            buffer.spec_capacity() == initial_capacity(data@.len() * size_of::<T>()),
    {
        let length = data.len();
        let elem: usize = core::mem::size_of::<T>();
        assert(length * elem == data@.len() * size_of::<T>()) by (nonlinear_arith)
            requires
                length == data@.len(),
                elem == size_of::<T>(),
        ;
        let size = (length as u64) * (elem as u64);
        let capacity = pad_size(default_growth(0, size, true));
        proof {
            lemma_pad_size_idempotent(spec_default_growth(size as nat));
        }
        GpuBuffer { length, capacity, usage, contents: Ghost(data@) }
    }

    /// Replaces the allocation by one that holds `required_size` bytes.
    fn grow(&mut self, required_size: u64) -> (growth: Growth)
        requires
            old(self).wf(),
            required_size > old(self).spec_capacity(),
            required_size <= MAX_GROWABLE,
        ensures
            final(self).wf(),
            final(self)@ == old(self)@,
            final(self).spec_usage() == old(self).spec_usage(),
            final(self).spec_capacity() == grown_capacity(
                old(self).spec_capacity(),
                required_size as nat,
            ),
            final(self).spec_capacity() >= required_size,
            final(self).spec_capacity() > old(self).spec_capacity(),
            growth.capacity == final(self).spec_capacity(),
            growth.preserved == old(self).spec_size(),
    {
        let new_capacity = pad_size(default_growth(self.capacity, required_size, false));
        proof {
            lemma_pad_size_idempotent(spec_default_growth(required_size as nat));
        }
        let preserved = self.size();
        self.capacity = new_capacity;
        Growth { capacity: new_capacity, preserved }
    }

    /// Appends `data`, growing the buffer first where it is full.
    ///
    /// The length counts the new elements at once. The device holds them when
    /// the returned work has been carried out: the staging buffer is filled with
    /// `data`, and its copy is encoded after that of the growth.
    pub fn extend(&mut self, data: &[T]) -> (work: Extension)
        requires
            old(self).wf(),
            old(self)@.len() + data@.len() <= usize::MAX,
            Self::spec_fits(old(self)@.len() + data@.len()),
        ensures
            old(self).extends_to(data@, *final(self)),
            work == planned_extension(
                old(self).spec_capacity(),
                old(self).spec_size(),
                data@.len() * size_of::<T>(),
            ),
    {
        let length = data.len();
        let elem: usize = core::mem::size_of::<T>();
        let used = self.size();
        assert(length * elem == data@.len() * size_of::<T>() && used + length * elem == (
        self@.len() + data@.len()) * size_of::<T>()) by (nonlinear_arith)
            requires
                length == data@.len(),
                elem == size_of::<T>(),
                used == self@.len() * size_of::<T>(),
        ;
        let extra_size = (length as u64) * (elem as u64);
        let required_size = used + extra_size;
        let growth = if required_size > self.capacity {
            Some(self.grow(required_size))
        } else {
            None
        };
        let staging_size = pad_size(extra_size);
        self.length = self.length + length;
        self.contents = Ghost(self.contents@ + data@);
        Extension { growth, staging_size, offset: used, size: extra_size }
    }
}

/// The sum of the lengths of `batches`.
pub open spec fn total_len<T>(batches: Seq<Seq<T>>) -> nat
    decreases batches.len(),
{
    if batches.len() == 0 {
        0
    } else {
        total_len(batches.drop_last()) + batches.last().len()
    }
}

/// Whether `states` are the values that a well-formed buffer takes while
/// `batches` are appended to it one after the other.
pub open spec fn is_extension_trace<T>(states: Seq<GpuBuffer<T>>, batches: Seq<Seq<T>>) -> bool {
    &&& states.len() == batches.len() + 1
    &&& states[0].wf()
    &&& forall|i: int|
        0 <= i < batches.len() ==> states[i].extends_to(#[trigger] batches[i], states[i + 1])
}

/// Whatever is appended, and in however many steps: the buffer ends with its
/// first contents followed by every batch in order, so its length is the first
/// length plus the lengths of the batches. At every step the capacity stays
/// padded and holds all elements; it never shrinks, and it grows strictly
/// whenever the elements no longer fit.
pub proof fn lemma_extension_trace<T>(states: Seq<GpuBuffer<T>>, batches: Seq<Seq<T>>)
    requires
        is_extension_trace(states, batches),
    ensures
        states.last().wf(),
        states.last()@ == states[0]@ + batches.flatten(),
        states.last().spec_len() == states[0].spec_len() + total_len(batches),
        forall|i: int|
            0 <= i < batches.len() ==> {
                let before = #[trigger] states[i].spec_capacity();
                let after = states[i + 1].spec_capacity();
                &&& after >= before
                &&& after % (ALIGN as nat) == 0
                &&& after >= states[i + 1].spec_size()
                &&& states[i + 1].spec_size() > before ==> after > before
            },
    decreases batches.len(),
{
    batches.lemma_flatten_and_flatten_alt_are_equivalent();
    if batches.len() > 0 {
        let n = batches.len() - 1;
        let earlier_states = states.drop_last();
        let earlier = batches.drop_last();
        assert forall|i: int| 0 <= i < earlier.len() implies earlier_states[i].extends_to(
            #[trigger] earlier[i],
            earlier_states[i + 1],
        ) by {
            assert(states[i].extends_to(batches[i], states[i + 1]));
        }
        lemma_extension_trace(earlier_states, earlier);
        earlier.lemma_flatten_and_flatten_alt_are_equivalent();
        assert(states[n].extends_to(batches[n], states[n + 1]));
        assert(earlier_states.last() == states[n]);
        assert(states.last()@ =~= states[0]@ + batches.flatten());
        assert forall|i: int| 0 <= i < batches.len() implies {
            let before = #[trigger] states[i].spec_capacity();
            let after = states[i + 1].spec_capacity();
            &&& after >= before
            &&& after % (ALIGN as nat) == 0
            &&& after >= states[i + 1].spec_size()
            &&& states[i + 1].spec_size() > before ==> after > before
        } by {
            assert(states[i].extends_to(batches[i], states[i + 1]));
            let required = states[i + 1].spec_size();
            lemma_pad_size_idempotent(spec_default_growth(required));
            lemma_pad_size_idempotent(states[i + 1].spec_capacity());
            lemma_round_up(required, MEGABYTE as nat);
        }
    } else {
        assert(states[0]@ + batches.flatten() =~= states[0]@);
    }
}

} // verus!
