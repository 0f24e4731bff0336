//! The buffer between tmux's output and its parser.
//!
//! The buffer is a ring whose memory is mapped twice in a row, so that both
//! its unread bytes and its free space are contiguous.

use vmap::io::{Ring, SeqWrite};
use vstd::prelude::*;

verus! {

/// A ring buffer of bytes.
#[verifier::external_type_specification]
#[verifier::external_body]
pub struct ExRing(Ring);

#[verifier::external_type_specification]
#[verifier::external_body]
pub struct ExMapError(vmap::Error);

/// How many bytes a buffer for tmux's output has to hold at least.
pub const RING_SIZE: usize = 16_000;

/// The memory for a buffer could not be mapped, with the system's reason.
#[derive(Debug)]
pub struct MapFailed {
    pub cause: vmap::Error,
}

/// The bytes that were fed to the ring and not consumed yet, oldest first.
pub uninterp spec fn ring_contents(ring: Ring) -> Seq<u8>;

/// The bytes in the ring's free space, in the order in which they would be
/// fed.
pub uninterp spec fn ring_spare(ring: Ring) -> Seq<u8>;

/// How many bytes the ring can hold.
pub open spec fn ring_capacity(ring: Ring) -> nat {
    ring_contents(ring).len() + ring_spare(ring).len()
}

/// The ring finds its place from the part of a 64-bit count of bytes that a
/// `usize` holds. Cutting the count down moves no place where nothing is cut
/// off, or where the capacity is a power of two.
pub open spec fn keeps_its_place(ring: Ring) -> bool {
    usize::BITS == 64 || vstd::arithmetic::power2::is_pow2(ring_capacity(ring) as int)
}

/// `size` rounded up to a multiple of `unit`.
pub open spec fn rounded(size: nat, unit: nat) -> nat {
    (size + unit - 1) as nat / unit * unit
}

/// How many of `count` bytes fit into a sequence of length `room`.
pub open spec fn fitting(count: nat, room: nat) -> int {
    if count <= room {
        count as int
    } else {
        room as int
    }
}

/// `vmap::io::Ring::new`.
///
/// Claims that a ring that could be made is empty and that its capacity is
/// `hint` rounded up to the system's allocation unit. Whether it can be made
/// rests on the system, and so does the unit: a power of two, taken to be no
/// less than 512 bytes and no more than a quarter of the address space.
#[verifier::external_body]
fn make_ring(hint: usize) -> (ring: Result<Ring, vmap::Error>)
    requires
        hint <= usize::MAX / 4,
    ensures
        ring matches Ok(r) ==> ring_contents(r) == Seq::<u8>::empty() && exists|unit: nat|
            512 <= unit && #[trigger] vstd::arithmetic::power2::is_pow2(unit as int)
                && ring_spare(r).len() == rounded(hint as nat, unit),
{
    Ring::new(hint)
}

/// `vmap::io::SeqWrite::write_len` of a ring.
///
/// Claims that it is the size of the free space.
#[verifier::external_body]
fn write_len(ring: &Ring) -> (len: usize)
    ensures
        len == ring_spare(*ring).len(),
{
    ring.write_len()
}

/// `vmap::io::SeqWrite::is_full` of a ring.
///
/// Claims that it holds exactly where there is no free space.
#[verifier::external_body]
fn is_full(ring: &Ring) -> (full: bool)
    ensures
        full == (ring_spare(*ring).len() == 0),
{
    ring.is_full()
}

/// `vmap::io::SeqWrite::as_write_slice` of a ring.
///
/// Claims that the slice is the free space, or its first `max` bytes where
/// there are more, and that what is written to the slice is what is then in
/// the free space.
#[verifier::external_body]
fn as_write_slice(ring: &mut Ring, max: usize) -> (window: &mut [u8])
    requires
        keeps_its_place(*old(ring)),
    ensures
        window@ == ring_spare(*old(ring)).take(
            fitting(max as nat, ring_spare(*old(ring)).len()),
        ),
        final(window)@.len() == window@.len(),
        ring_contents(*final(ring)) == ring_contents(*old(ring)),
        ring_spare(*final(ring)) == final(window)@ + ring_spare(*old(ring)).skip(
            window@.len() as int,
        ),
{
    ring.as_write_slice(max)
}

/// `vmap::io::SeqWrite::feed` of a ring.
///
/// Claims that the first `len` bytes of the free space, or all where there are
/// fewer, become unread bytes behind those that there are. The 64-bit count of
/// the bytes that a ring was ever fed is taken not to run over.
#[verifier::external_body]
fn feed(ring: &mut Ring, len: usize)
    requires
        keeps_its_place(*old(ring)),
    ensures
        ring_contents(*final(ring)) == ring_contents(*old(ring)) + ring_spare(*old(ring)).take(
            fitting(len as nat, ring_spare(*old(ring)).len()),
        ),
        ring_spare(*final(ring)) == ring_spare(*old(ring)).skip(
            fitting(len as nat, ring_spare(*old(ring)).len()),
        ),
{
    ring.feed(len)
}

/// What comes of an attempt to make a ring: the ring itself, or that its memory
/// could not be mapped.
pub fn mapped_ring(made: Result<Ring, vmap::Error>) -> (ring: Result<Ring, MapFailed>)
    ensures
        ring == (match made {
            Ok(r) => Ok::<Ring, MapFailed>(r),
            Err(cause) => Err::<Ring, MapFailed>(MapFailed { cause }),
        }),
{
    match made {
        Ok(ring) => Ok(ring),
        Err(cause) => Err(MapFailed { cause }),
    }
}

/// Rounded up, the size of a buffer is 16 KiB, or one unit where that is more.
proof fn ring_size_rounds_to_a_power_of_two(unit: nat)
    requires
        512 <= unit,
        vstd::arithmetic::power2::is_pow2(unit as int),
    ensures
        vstd::arithmetic::power2::is_pow2(rounded(RING_SIZE as nat, unit) as int),
        rounded(RING_SIZE as nat, unit) >= RING_SIZE,
{
    if unit < RING_SIZE {
        assert(unit == 512 || unit == 1024 || unit == 2048 || unit == 4096 || unit == 8192) by {
            reveal_with_fuel(vstd::arithmetic::power2::is_pow2, 15);
        }
        assert(rounded(RING_SIZE as nat, unit) == 16384) by (nonlinear_arith)
            requires
                unit == 512 || unit == 1024 || unit == 2048 || unit == 4096 || unit == 8192,
        ;
        assert(vstd::arithmetic::power2::is_pow2(16384)) by {
            reveal_with_fuel(vstd::arithmetic::power2::is_pow2, 15);
        }
    } else {
        assert((RING_SIZE + unit - 1) as nat / unit == 1) by (nonlinear_arith)
            requires
                unit >= RING_SIZE >= 1,
        ;
        assert(rounded(RING_SIZE as nat, unit) == unit);
    }
}

/// `ring` is what came of one request for a ring of at least `size` bytes: the
/// ring that was made for it, or that none could be made.
pub closed spec fn comes_of_request(size: usize, ring: Result<Ring, MapFailed>) -> bool {
    exists|made: Result<Ring, vmap::Error>|
        {
            &&& #[trigger] call_ensures(make_ring, (size,), made)
            &&& ring == (match made {
                Ok(r) => Ok::<Ring, MapFailed>(r),
                Err(cause) => Err::<Ring, MapFailed>(MapFailed { cause }),
            })
        }
}

/// An empty buffer for tmux's output. Whether its memory can be mapped rests on
/// the system.
pub fn new_ring_buffer() -> (ring: Result<Ring, MapFailed>)
    ensures
        comes_of_request(RING_SIZE, ring),
        ring matches Ok(r) ==> ring_contents(r) == Seq::<u8>::empty() && ring_capacity(r)
            >= RING_SIZE && keeps_its_place(r),
{
    let made = make_ring(RING_SIZE);
    proof {
        if made is Ok {
            let r = made->Ok_0;
            let unit = choose|unit: nat|
                512 <= unit && #[trigger] vstd::arithmetic::power2::is_pow2(unit as int)
                    && ring_spare(r).len() == rounded(RING_SIZE as nat, unit);
            ring_size_rounds_to_a_power_of_two(unit);
        }
    }
    assert(call_ensures(make_ring, (RING_SIZE,), made));
    mapped_ring(made)
}

/// Whether the buffer takes no further byte.
pub fn ring_is_full(ring: &Ring) -> (full: bool)
    ensures
        full == (ring_contents(*ring).len() == ring_capacity(*ring)),
{
    is_full(ring)
}

/// How many bytes a read has put into a window of size `room`.
pub open spec fn bytes_read<E>(outcome: Result<usize, E>, room: nat) -> int {
    match outcome {
        Ok(count) => fitting(count as nat, room),
        Err(_) => 0,
    }
}

/// Reads once into the free space of a buffer and returns what the read
/// returned. The bytes that were read become unread bytes of the buffer; those
/// that it held before stay as they are.
pub fn read_into_ringbuffer<E, F: FnOnce(&mut [u8]) -> Result<usize, E>>(
    read: F,
    ring_buffer: &mut Ring,
) -> (outcome: Result<usize, E>)
    requires
        keeps_its_place(*old(ring_buffer)),
        forall|window: &mut [u8]|
            window@ == ring_spare(*old(ring_buffer)) ==> call_requires(read, (window,)),
    ensures
        exists|window: &mut [u8]|
            #![trigger call_ensures(read, (window,), outcome)]
            {
                let count = bytes_read(outcome, window@.len());
                &&& call_ensures(read, (window,), outcome)
                &&& window@ == ring_spare(*old(ring_buffer))
                &&& final(window)@.len() == window@.len()
                &&& ring_contents(*final(ring_buffer)) == ring_contents(*old(ring_buffer))
                    + final(window)@.take(count)
                &&& ring_spare(*final(ring_buffer)) == final(window)@.skip(count)
            },
        ring_capacity(*final(ring_buffer)) == ring_capacity(*old(ring_buffer)),
        keeps_its_place(*final(ring_buffer)),
        ring_contents(*old(ring_buffer)).is_prefix_of(ring_contents(*final(ring_buffer))),
{
    let len = write_len(ring_buffer);
    let window = as_write_slice(ring_buffer, len);
    assert(window@ == ring_spare(*old(ring_buffer)));
    let ghost offered = window;
    let outcome = read(window);
    assert(ring_spare(*ring_buffer) == final(offered)@);
    assert(final(offered)@.take(0) == Seq::<u8>::empty());
    assert(final(offered)@.skip(0) == final(offered)@);
    assert(ring_contents(*ring_buffer) + Seq::<u8>::empty() == ring_contents(*ring_buffer));
    if let Ok(count) = &outcome {
        if *count > 0 {
            feed(ring_buffer, *count);
        }
    }
    outcome
}

/// A buffer that was made is empty, takes at least 16000 bytes, and can be read
/// into.
pub proof fn new_buffer_is_empty_and_large_enough(ring: Result<Ring, MapFailed>)
    requires
        call_ensures(new_ring_buffer, (), ring),
    ensures
        ring matches Ok(r) ==> ring_contents(r).len() == 0 && ring_spare(r).len() >= 16_000
            && keeps_its_place(r),
{
}

/// Of an attempt to make a ring nothing is lost: a ring is handed on as it is,
/// and so is the system's reason.
pub proof fn outcome_of_mapping_is_handed_on(
    made: Result<Ring, vmap::Error>,
    ring: Result<Ring, MapFailed>,
)
    requires
        call_ensures(mapped_ring, (made,), ring),
    ensures
        made matches Ok(m) ==> (ring matches Ok(r) && r == m),
        made matches Err(e) ==> (ring matches Err(failed) && failed.cause == e),
{
}

/// A buffer is full exactly where it has no free space.
pub proof fn full_means_no_free_space(ring: &Ring, full: bool)
    requires
        call_ensures(ring_is_full, (ring,), full),
    ensures
        full <==> ring_spare(*ring).len() == 0,
{
}

/// A read that failed or brought no byte leaves the unread bytes alone. One
/// that brought some adds as many behind them, up to the free space there was,
/// and takes as many off the free space. The read is offered the whole of the
/// free space, and what it leaves there is what is added and what stays free.
pub proof fn read_adds_the_bytes_it_brought<E, F: FnOnce(&mut [u8]) -> Result<usize, E>>(
    read: F,
    outcome: Result<usize, E>,
)
    ensures
        forall|ring: &mut Ring| #[trigger]
            call_ensures(read_into_ringbuffer::<E, F>, (read, ring), outcome) ==> {
                let before = ring_contents(*ring);
                let after = ring_contents(*final(ring));
                let room = ring_spare(*ring).len();
                &&& after.take(before.len() as int) == before
                &&& ring_spare(*final(ring)).len() + after.len() == room + before.len()
                &&& outcome is Err ==> after == before
                &&& outcome matches Ok(count) ==> {
                    &&& count <= room ==> after.len() == before.len() + count
                    &&& count > room ==> ring_spare(*final(ring)).len() == 0
                }
                &&& exists|window: &mut [u8]|
                    {
                        &&& #[trigger] call_ensures(read, (window,), outcome)
                        &&& window@ == ring_spare(*ring)
                        &&& final(window)@ == after.skip(before.len() as int) + ring_spare(
                            *final(ring),
                        )
                    }
            },
{
    assert forall|ring: &mut Ring| #[trigger]
        call_ensures(read_into_ringbuffer::<E, F>, (read, ring), outcome) implies exists|
        window: &mut [u8],
    |
        {
            &&& #[trigger] call_ensures(read, (window,), outcome)
            &&& window@ == ring_spare(*ring)
            &&& final(window)@ == ring_contents(*final(ring)).skip(
                ring_contents(*ring).len() as int,
            ) + ring_spare(*final(ring))
        } by {
        let window = choose|window: &mut [u8]|
            #![trigger call_ensures(read, (window,), outcome)]
            {
                let count = bytes_read(outcome, window@.len());
                &&& call_ensures(read, (window,), outcome)
                &&& window@ == ring_spare(*ring)
                &&& final(window)@.len() == window@.len()
                &&& ring_contents(*final(ring)) == ring_contents(*ring) + final(window)@.take(count)
                &&& ring_spare(*final(ring)) == final(window)@.skip(count)
            };
        let count = bytes_read(outcome, window@.len());
        let added = ring_contents(*final(ring)).skip(ring_contents(*ring).len() as int);
        assert(added == final(window)@.take(count));
        assert(added + ring_spare(*final(ring)) == final(window)@);
    }
}

} // verus!
