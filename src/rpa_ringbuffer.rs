use vstd::prelude::*;
use vstd::arithmetic::power2::{pow2, lemma_pow2_unfold, lemma_pow2_pos, lemma_pow2_strictly_increases};
use vstd::bits::{low_bits_mask, lemma_usize_low_bits_mask_is_mod};
use vstd::layout::unsigned_int_max_values;

use crate::rpa_error::RingBufferError;

verus! {

/// Sizes and counts of the ring buffer.
pub type RingBufferSizeT = usize;

/// `n` is a power of two (one, two, four, ...).
pub open spec fn is_power_of_two(n: int) -> bool {
    exists|k: nat| pow2(k) == n
}

/// A region of bytes, exclusively owned, that backs a ring buffer.
pub struct MemoryBlock {
    bytes: Vec<u8>,
}

impl View for MemoryBlock {
    type V = Seq<u8>;

    closed spec fn view(&self) -> Seq<u8> {
        self.bytes@
    }
}

impl MemoryBlock {
    /// Number of bytes in the region.
    pub fn len(&self) -> (r: usize)
        ensures
            r == self@.len(),
    {
        self.bytes.len()
    }
}

/// Allocates a zeroed region of `size` bytes; a negative size cannot be allocated.
pub fn allocate_memory(size: i32) -> (r: Result<MemoryBlock, RingBufferError>)
    ensures
        size < 0 <==> r is Err,
        r matches Ok(b) ==> b@ == Seq::new(size as nat, |i: int| 0u8),
        r matches Err(e) ==> e is MemoryAllocateFail,
{
    if size < 0 {
        return Err(RingBufferError::MemoryAllocateFail("Fail to allocate memory for ring buffer."));
    }
    let n = size as usize;
    let mut bytes: Vec<u8> = Vec::new();
    let mut i: usize = 0;
    while i < n
        invariant
            i <= n,
            bytes@ == Seq::new(i as nat, |k: int| 0u8),
        decreases n - i,
    {
        bytes.push(0u8);
        i = i + 1;
        assert(bytes@ =~= Seq::new(i as nat, |k: int| 0u8));
    }
    Ok(MemoryBlock { bytes })
}

/// Returns a region to the allocator.
pub fn free_memory(block: MemoryBlock) {
}

/// The bytes of slot `s` when slots of `es` bytes are laid end to end.
pub open spec fn slot_bytes(data: Seq<u8>, es: nat, s: int) -> Seq<u8> {
    data.subrange(s * es, s * es + es)
}

/// Reduces a position below three times `cap` to a slot below `cap`.
pub open spec fn wrap_slot(p: int, cap: int) -> int {
    if p < cap {
        p
    } else if p < 2 * cap {
        p - cap
    } else {
        p - 2 * cap
    }
}

/// A bounded first-in first-out queue of fixed-size elements, with a
/// power-of-two capacity so that cursors wrap round with a bit mask. The read
/// and write cursors run over twice the capacity, so that a full buffer and an
/// empty one differ. Operations take the buffer by `&mut`, which gives each
/// side exclusive access; the buffer can be handed between a producer and a
/// consumer.
pub struct PaUtilRingBuffer {
    buffer_size: usize,
    write_index: usize,
    read_index: usize,
    big_mask: usize,
    small_mask: usize,
    element_size_bytes: usize,
    data: Vec<u8>,
    log2_size: Ghost<nat>,
}

impl PaUtilRingBuffer {
    /// Capacity, in elements.
    pub closed spec fn capacity(&self) -> nat {
        self.buffer_size as nat
    }

    /// Size of one element, in bytes.
    pub closed spec fn element_size(&self) -> nat {
        self.element_size_bytes as nat
    }

    closed spec fn count(&self) -> int {
        if self.write_index >= self.read_index {
            self.write_index - self.read_index
        } else {
            self.write_index + 2 * self.buffer_size - self.read_index
        }
    }

    /// Well-formed: the capacity is a power of two, the masks match it, the
    /// cursors lie in twice the capacity and the region holds every slot.
    pub closed spec fn wf(&self) -> bool {
        &&& pow2(self.log2_size@) == self.buffer_size
        &&& self.log2_size@ + 1 < usize::BITS
        &&& self.buffer_size >= 1
        &&& self.small_mask == self.buffer_size - 1
        &&& self.big_mask == 2 * self.buffer_size - 1
        &&& self.write_index < 2 * self.buffer_size
        &&& self.read_index < 2 * self.buffer_size
        &&& self.count() <= self.buffer_size
        &&& self.element_size_bytes * self.buffer_size <= self.data@.len()
        &&& self.data@.len() <= usize::MAX
    }
}

impl View for PaUtilRingBuffer {
    type V = Seq<Seq<u8>>;

    /// The queued elements, oldest first.
    closed spec fn view(&self) -> Seq<Seq<u8>> {
        Seq::new(
            self.count() as nat,
            |j: int|
                slot_bytes(
                    self.data@,
                    self.element_size_bytes as nat,
                    wrap_slot(self.read_index + j, self.buffer_size as int),
                ),
        )
    }
}

proof fn lemma_slot_in_region(s: int, cap: int, es: int)
    requires
        0 <= s < cap,
        0 <= es,
    ensures
        0 <= s * es,
        s * es + es <= es * cap,
{
    assert(0 <= s * es) by (nonlinear_arith)
        requires
            0 <= s,
            0 <= es,
    ;
    assert(s * es + es <= es * cap) by (nonlinear_arith)
        requires
            s + 1 <= cap,
            0 <= es,
    ;
}

proof fn lemma_slots_apart(s1: int, s2: int, es: int)
    requires
        0 <= s1 < s2,
        0 <= es,
    ensures
        s1 * es + es <= s2 * es,
{
    assert(s1 * es + es <= s2 * es) by (nonlinear_arith)
        requires
            s1 + 1 <= s2,
            0 <= es,
    ;
}

/// Slots other than `s` keep their bytes when only the bytes of slot `s` change.
proof fn lemma_other_slots_kept(old_data: Seq<u8>, new_data: Seq<u8>, es: nat, cap: int, s: int, t: int)
    requires
        0 <= s < cap,
        0 <= t < cap,
        s != t,
        es * cap <= old_data.len(),
        new_data.len() == old_data.len(),
        forall|b: int|
            0 <= b < old_data.len() && !(s * es <= b < s * es + es) ==> new_data[b] == old_data[b],
    ensures
        slot_bytes(new_data, es, t) == slot_bytes(old_data, es, t),
{
    lemma_slot_in_region(t, cap, es as int);
    lemma_slot_in_region(s, cap, es as int);
    if s < t {
        lemma_slots_apart(s, t, es as int);
    } else {
        lemma_slots_apart(t, s, es as int);
    }
    assert(slot_bytes(new_data, es, t) =~= slot_bytes(old_data, es, t));
}

/// A position below twice `cap` masked with `cap - 1` is its slot, and one
/// masked with `2 * cap - 1` is itself.
proof fn lemma_masks(x: usize, k: nat)
    requires
        k + 1 < usize::BITS,
        x < 2 * pow2(k),
    ensures
        x & ((pow2(k) - 1) as usize) == wrap_slot(x as int, pow2(k) as int),
        x & ((2 * pow2(k) - 1) as usize) == x,
{
    let cap = pow2(k) as int;
    lemma_pow2_pos(k);
    lemma_pow2_unfold(k + 1);
    lemma_usize_low_bits_mask_is_mod(x, k);
    lemma_usize_low_bits_mask_is_mod(x, k + 1);
    lemma_pow2_strictly_increases(k + 1, usize::BITS as nat);
    unsigned_int_max_values();
    assert(low_bits_mask(k) == cap - 1);
    assert(low_bits_mask(k + 1) == 2 * cap - 1);
    if x < cap {
        assert((x as int) % cap == x) by (nonlinear_arith)
            requires
                0 <= x < cap,
        ;
    } else {
        assert((x as int) % cap == x - cap) by (nonlinear_arith)
            requires
                cap <= x < 2 * cap,
        ;
    }
    assert((x as int) % (2 * cap) == x) by (nonlinear_arith)
        requires
            0 <= x < 2 * cap,
    ;
}

/// A power of two that fits in a `usize` has an exponent below its bit width.
proof fn lemma_exponent_fits(k: nat)
    requires
        pow2(k) <= usize::MAX,
    ensures
        k < usize::BITS,
{
    unsigned_int_max_values();
    if k >= usize::BITS {
        if k > usize::BITS {
            lemma_pow2_strictly_increases(usize::BITS as nat, k);
        }
    }
}

/// Makes a ring buffer over `data_block` for `element_count` elements of
/// `element_size_bytes` bytes each. The element count must be a power of two.
pub fn initialize_ring_buffer(
    element_size_bytes: RingBufferSizeT,
    element_count: RingBufferSizeT,
    data_block: MemoryBlock,
) -> (r: Result<PaUtilRingBuffer, RingBufferError>)
    requires
        element_size_bytes * element_count <= data_block@.len(),
        element_count <= usize::MAX / 2,
    ensures
        r is Ok <==> is_power_of_two(element_count as int),
        r matches Ok(rb) ==> {
            &&& rb.wf()
            &&& rb@ == Seq::<Seq<u8>>::empty()
            &&& rb.capacity() == element_count
            &&& rb.element_size() == element_size_bytes
        },
        r matches Err(e) ==> e is NotPower2,
{
    // The region's length is a `usize`, which bounds every slot's offset.
    let region_len = data_block.len();
    assert(element_size_bytes * element_count <= region_len);
    let not_power = RingBufferError::NotPower2("Ring buffer size is not power of 2.");
    if element_count == 0 {
        proof {
            assert forall|k: nat| pow2(k) != 0 by {
                lemma_pow2_pos(k);
            }
        }
        return Err(not_power);
    }
    let mut p: usize = 1;
    let ghost mut k: nat = 0;
    proof {
        reveal_pow2_zero();
    }
    while p < element_count
        invariant
            1 <= element_count <= usize::MAX / 2,
            p == pow2(k),
            1 <= p < 2 * element_count,
            k > 0 ==> pow2((k - 1) as nat) < element_count,
        decreases 2 * element_count - p,
    {
        proof {
            lemma_pow2_unfold(k + 1);
        }
        p = p * 2;
        proof {
            k = k + 1;
        }
    }
    if p != element_count {
        proof {
            assert forall|j: nat| pow2(j) != element_count by {
                if j < k {
                    if j < k - 1 {
                        lemma_pow2_strictly_increases(j, (k - 1) as nat);
                    }
                } else if j > k {
                    lemma_pow2_strictly_increases(k, j);
                }
            }
        }
        return Err(not_power);
    }
    proof {
        lemma_pow2_unfold(k + 1);
        lemma_exponent_fits(k + 1);
    }
    let rb = PaUtilRingBuffer {
        buffer_size: element_count,
        write_index: 0,
        read_index: 0,
        big_mask: 2 * element_count - 1,
        small_mask: element_count - 1,
        element_size_bytes,
        data: data_block.bytes,
        log2_size: Ghost(k),
    };
    assert(rb@ =~= Seq::<Seq<u8>>::empty());
    Ok(rb)
}

proof fn reveal_pow2_zero()
    ensures
        pow2(0) == 1,
{
    lemma_pow2_unfold(1);
    vstd::arithmetic::power2::lemma2_to64();
}

/// Empties the buffer. The exclusive borrow guarantees that no reader or
/// writer is using it meanwhile.
pub fn flush_ring_buffer(rbuf: &mut PaUtilRingBuffer)
    requires
        old(rbuf).wf(),
    ensures
        final(rbuf).wf(),
        final(rbuf)@ == Seq::<Seq<u8>>::empty(),
        final(rbuf).capacity() == old(rbuf).capacity(),
        final(rbuf).element_size() == old(rbuf).element_size(),
{
    rbuf.write_index = 0;
    rbuf.read_index = 0;
    assert(rbuf@ =~= Seq::<Seq<u8>>::empty());
}

/// Number of elements that can be read.
pub fn ring_buffer_read_available(rbuf: &PaUtilRingBuffer) -> (r: RingBufferSizeT)
    requires
        rbuf.wf(),
    ensures
        r == rbuf@.len(),
{
    if rbuf.write_index >= rbuf.read_index {
        rbuf.write_index - rbuf.read_index
    } else {
        rbuf.write_index + (rbuf.big_mask - rbuf.read_index) + 1
    }
}

/// Number of elements that can be written.
pub fn ring_buffer_write_available(rbuf: &PaUtilRingBuffer) -> (r: RingBufferSizeT)
    requires
        rbuf.wf(),
    ensures
        r == rbuf.capacity() - rbuf@.len(),
{
    rbuf.buffer_size - ring_buffer_read_available(rbuf)
}

/// Appends one element. A full buffer rejects it and stays as it was: nothing
/// queued is ever overwritten.
pub fn write_ring_buffer(rbuf: &mut PaUtilRingBuffer, element: &[u8]) -> (r: bool)
    requires
        old(rbuf).wf(),
        element@.len() == old(rbuf).element_size(),
    ensures
        final(rbuf).wf(),
        final(rbuf).capacity() == old(rbuf).capacity(),
        final(rbuf).element_size() == old(rbuf).element_size(),
        r == (old(rbuf)@.len() < old(rbuf).capacity()),
        r ==> final(rbuf)@ == old(rbuf)@.push(element@),
        !r ==> final(rbuf)@ == old(rbuf)@,
{
    let available = ring_buffer_read_available(rbuf);
    if available == rbuf.buffer_size {
        return false;
    }
    let ghost old_rb = *rbuf;
    let ghost cap = rbuf.buffer_size as int;
    let ghost es = rbuf.element_size_bytes as nat;
    proof {
        lemma_masks(rbuf.write_index, rbuf.log2_size@);
    }
    let slot = rbuf.write_index & rbuf.small_mask;
    proof {
        lemma_slot_in_region(slot as int, cap, es as int);
    }
    let base = slot * rbuf.element_size_bytes;
    let es_exec = rbuf.element_size_bytes;
    let mut i: usize = 0;
    while i < es_exec
        invariant
            rbuf.wf(),
            rbuf.buffer_size == old_rb.buffer_size,
            rbuf.write_index == old_rb.write_index,
            rbuf.read_index == old_rb.read_index,
            rbuf.element_size_bytes == es_exec,
            es_exec == es,
            rbuf.log2_size == old_rb.log2_size,
            rbuf.big_mask == old_rb.big_mask,
            rbuf.small_mask == old_rb.small_mask,
            element@.len() == es,
            base == slot * es,
            base + es <= rbuf.data@.len(),
            i <= es,
            rbuf.data@.len() == old_rb.data@.len(),
            forall|b: int|
                0 <= b < old_rb.data@.len() && !(base <= b < base + es) ==> rbuf.data@[b]
                    == old_rb.data@[b],
            forall|t: int| 0 <= t < i ==> rbuf.data@[base + t] == element@[t],
        decreases es_exec - i,
    {
        rbuf.data.set(base + i, element[i]);
        i = i + 1;
    }
    let ghost mid_data = rbuf.data@;
    if rbuf.write_index == rbuf.big_mask {
        rbuf.write_index = 0;
    } else {
        proof {
            lemma_masks((rbuf.write_index + 1) as usize, rbuf.log2_size@);
        }
        rbuf.write_index = (rbuf.write_index + 1) & rbuf.big_mask;
    }
    proof {
        let n = old_rb@.len() as int;
        assert(slot_bytes(mid_data, es, slot as int) =~= element@);
        assert forall|j: int| 0 <= j < n implies #[trigger] rbuf@[j] == old_rb@[j] by {
            let t = wrap_slot(old_rb.read_index + j, cap);
            lemma_other_slots_kept(old_rb.data@, mid_data, es, cap, slot as int, t);
        }
        assert(rbuf@ =~= old_rb@.push(element@));
    }
    true
}

/// Takes out the oldest element, or gives `None` when the buffer is empty.
pub fn read_ring_buffer(rbuf: &mut PaUtilRingBuffer) -> (r: Option<Vec<u8>>)
    requires
        old(rbuf).wf(),
    ensures
        final(rbuf).wf(),
        final(rbuf).capacity() == old(rbuf).capacity(),
        final(rbuf).element_size() == old(rbuf).element_size(),
        old(rbuf)@.len() == 0 ==> r is None && final(rbuf)@ == old(rbuf)@,
        old(rbuf)@.len() > 0 ==> (r matches Some(v) && v@ == old(rbuf)@[0] && final(rbuf)@
            == old(rbuf)@.drop_first()),
{
    let available = ring_buffer_read_available(rbuf);
    if available == 0 {
        return None;
    }
    let ghost old_rb = *rbuf;
    let ghost cap = rbuf.buffer_size as int;
    let ghost es = rbuf.element_size_bytes as nat;
    proof {
        lemma_masks(rbuf.read_index, rbuf.log2_size@);
    }
    let slot = rbuf.read_index & rbuf.small_mask;
    proof {
        lemma_slot_in_region(slot as int, cap, es as int);
    }
    let base = slot * rbuf.element_size_bytes;
    let es_exec = rbuf.element_size_bytes;
    let mut out: Vec<u8> = Vec::new();
    let mut i: usize = 0;
    while i < es_exec
        invariant
            *rbuf == old_rb,
            old_rb.wf(),
            es_exec == es,
            base == slot * es,
            base + es <= rbuf.data@.len(),
            i <= es,
            out@ == rbuf.data@.subrange(base as int, base + i),
        decreases es_exec - i,
    {
        out.push(rbuf.data[base + i]);
        i = i + 1;
        assert(out@ =~= rbuf.data@.subrange(base as int, base + i));
    }
    if rbuf.read_index == rbuf.big_mask {
        rbuf.read_index = 0;
    } else {
        proof {
            lemma_masks((rbuf.read_index + 1) as usize, rbuf.log2_size@);
        }
        rbuf.read_index = (rbuf.read_index + 1) & rbuf.big_mask;
    }
    proof {
        assert(out@ == old_rb@[0]);
        assert(rbuf@ =~= old_rb@.drop_first());
    }
    Some(out)
}

} // verus!
