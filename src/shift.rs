//! The bit-banged shift-register protocol.
//!
//! Writing a pattern queues the line states that shift it into a chain of
//! serial-in/parallel-out registers: a reset, a set step and a clock step per
//! bit (least significant bit first), then a latch pulse. A periodic pump,
//! [`ShiftRegister::clock`], takes one step per call off the queue for the
//! caller to put on the data, latch and clock lines.

use crate::debounce::{debounce_after, debounce_ok, Debouncers, DebouncersExt};
use crate::time::{Instant, MAX_DELAY_MS};
use heapless::Deque;
use vstd::prelude::*;

verus! {

/// Number of steps the queue can hold.
pub const STEP_CAPACITY: usize = 2000;

/// Widest pattern a register chain can be written with.
pub const MAX_WIDTH: usize = 32;

/// What a queued step does, tagged with the identifier of its write.
#[derive(Clone, Copy, Debug, PartialEq, Eq, Structural)]
pub enum ShiftState {
    /// All lines low: the start of a write.
    Reset(usize),
    /// The data line takes the value of the given bit, clock low.
    BitOn(usize, usize),
    /// The clock line rises, shifting the given bit in.
    BitOff(usize, usize),
    /// The latch line rises, copying the shifted bits to the outputs.
    LatchOn(usize, usize),
    /// The latch line falls: the end of a write.
    LatchOff(usize, usize),
}

/// One set of line states to apply at a pump tick.
#[derive(Clone, Copy, Debug, PartialEq, Eq, Structural)]
pub struct ShiftStep {
    pub state: ShiftState,
    pub data: bool,
    pub latch: bool,
    pub clock: bool,
}

/// The queue of steps waiting for the pump.
pub type StepQueue = Deque<ShiftStep, 2000>;

/// heapless's `Deque`, whose contents the library sees only through
/// `queued_steps`.
#[verifier::external_type_specification]
#[verifier::external_body]
#[verifier::reject_recursive_types(T)]
pub struct ExDeque<T, const N: usize>(Deque<T, N>);

/// The steps in a queue, front first.
pub uninterp spec fn queued_steps(queue: StepQueue) -> Seq<ShiftStep>;

/// Relies on heapless's `Deque::new`: the deque starts empty.
#[verifier::external_body]
fn queue_new() -> (r: StepQueue)
    ensures
        queued_steps(r).len() == 0,
{
    Deque::new()
}

/// Relies on heapless's `Deque::len`: the number of items stored, which never
/// exceeds the capacity.
#[verifier::external_body]
fn queue_len(queue: &StepQueue) -> (r: usize)
    ensures
        r == queued_steps(*queue).len(),
        r <= STEP_CAPACITY,
{
    queue.len()
}

/// Relies on heapless's `Deque::push_back`: the item goes to the back unless
/// the deque is full, in which case it is handed back and nothing changes.
#[verifier::external_body]
fn queue_push_back(queue: &mut StepQueue, step: ShiftStep) -> (r: bool)
    ensures
        r == (queued_steps(*old(queue)).len() < STEP_CAPACITY),
        r ==> queued_steps(*final(queue)) == queued_steps(*old(queue)).push(step),
        !r ==> queued_steps(*final(queue)) == queued_steps(*old(queue)),
{
    queue.push_back(step).is_ok()
}

/// Relies on heapless's `Deque::pop_front`: the front item is removed and
/// returned; an empty deque gives `None` and stays as it is.
#[verifier::external_body]
fn queue_pop_front(queue: &mut StepQueue) -> (r: Option<ShiftStep>)
    ensures
        queued_steps(*old(queue)).len() == 0 ==> r.is_none() && queued_steps(*final(queue))
            == queued_steps(*old(queue)),
        queued_steps(*old(queue)).len() > 0 ==> r == Some(queued_steps(*old(queue))[0])
            && queued_steps(*final(queue)) == queued_steps(*old(queue)).drop_first(),
{
    queue.pop_front()
}

/// Bit `index` of `pattern` is set.
pub open spec fn bit_set(pattern: usize, index: int) -> bool {
    (pattern >> (index as usize)) & 1 == 1
}

/// Step `k` of writing `pattern` with identifier `id` to a chain `width` bits
/// wide.
pub open spec fn write_step(id: usize, pattern: usize, width: int, k: int) -> ShiftStep {
    if k == 0 {
        ShiftStep { state: ShiftState::Reset(id), data: false, latch: false, clock: false }
    } else if k <= 2 * width {
        let bit = (k - 1) / 2;
        let data = bit_set(pattern, bit);
        if (k - 1) % 2 == 0 {
            ShiftStep {
                state: ShiftState::BitOn(id, bit as usize),
                data,
                latch: false,
                clock: false,
            }
        } else {
            ShiftStep {
                state: ShiftState::BitOff(id, bit as usize),
                data,
                latch: false,
                clock: true,
            }
        }
    } else if k == 2 * width + 1 {
        ShiftStep {
            state: ShiftState::LatchOn(id, width as usize),
            data: false,
            latch: true,
            clock: false,
        }
    } else {
        ShiftStep {
            state: ShiftState::LatchOff(id, width as usize),
            data: false,
            latch: false,
            clock: false,
        }
    }
}

/// The steps of one write: reset, a set and a clock step for each bit, latch
/// on, latch off.
pub open spec fn write_steps(id: usize, pattern: usize, width: int) -> Seq<ShiftStep> {
    Seq::new((2 * width + 3) as nat, |k: int| write_step(id, pattern, width, k))
}

/// The queue after a write: the write's steps are appended when they all fit,
/// and the whole write is dropped when they do not.
pub open spec fn after_write(
    steps: Seq<ShiftStep>,
    id: usize,
    pattern: usize,
    width: int,
) -> Seq<ShiftStep> {
    if steps.len() + 2 * width + 3 <= STEP_CAPACITY {
        steps + write_steps(id, pattern, width)
    } else {
        steps
    }
}

/// The queue after the first `count` writes of a key scan of a chain `width`
/// bits wide: position `p` is written with identifier `p` and only bit
/// `width - 1 - p` set, so the scan starts at the highest bit.
pub open spec fn after_scan(steps: Seq<ShiftStep>, width: int, count: int) -> Seq<ShiftStep>
    decreases count,
{
    if count <= 0 {
        steps
    } else {
        let p = count - 1;
        after_write(
            after_scan(steps, width, p),
            p as usize,
            (1usize << ((width - 1 - p) as usize)),
            width,
        )
    }
}

/// A chain of shift registers driven through a queue of line states.
pub struct ShiftRegister {
    buffer: StepQueue,
    width: usize,
}

impl ShiftRegister {
    /// The queued steps, front first.
    pub closed spec fn steps(&self) -> Seq<ShiftStep> {
        queued_steps(self.buffer)
    }

    /// Number of bits in the chain.
    pub closed spec fn chain_width(&self) -> int {
        self.width as int
    }

    /// An idle chain `width` bits wide.
    pub fn new(width: usize) -> (r: ShiftRegister)
        requires
            width <= MAX_WIDTH,
        ensures
            r.steps() == Seq::<ShiftStep>::empty(),
            r.chain_width() == width,
    {
        let r = ShiftRegister { buffer: queue_new(), width };
        assert(r.steps() =~= Seq::<ShiftStep>::empty());
        r
    }

    /// Number of bits in the chain.
    pub fn width(&self) -> (r: usize)
        ensures
            r == self.chain_width(),
    {
        self.width
    }

    /// Whether no step is waiting.
    pub fn is_empty(&self) -> (r: bool)
        ensures
            r == (self.steps().len() == 0),
    {
        queue_len(&self.buffer) == 0
    }

    /// The pump: takes the front step off the queue, for the caller to put on
    /// the lines; `None`, and nothing to do, when the queue is empty.
    pub fn clock(&mut self) -> (r: Option<ShiftStep>)
        ensures
            final(self).chain_width() == old(self).chain_width(),
            old(self).steps().len() == 0 ==> r.is_none() && final(self).steps()
                == old(self).steps(),
            old(self).steps().len() > 0 ==> r == Some(old(self).steps()[0])
                && final(self).steps() == old(self).steps().drop_first(),
    {
        queue_pop_front(&mut self.buffer)
    }

    /// Queues the `2 * width + 3` steps that shift `pattern` into the chain,
    /// tagged with `id`. When the queue has no room for all of them the write
    /// is dropped.
    pub fn write(&mut self, id: usize, pattern: usize)
        requires
            old(self).chain_width() <= MAX_WIDTH,
        ensures
            final(self).chain_width() == old(self).chain_width(),
            final(self).steps() == after_write(
                old(self).steps(),
                id,
                pattern,
                old(self).chain_width(),
            ),
    {
        let width = self.width;
        let used = queue_len(&self.buffer);
        if STEP_CAPACITY - used < 2 * width + 3 {
            return;
        }
        let ghost start = self.steps();
        let ghost all = write_steps(id, pattern, width as int);
        let total = 2 * width + 3;
        let mut k: usize = 0;
        while k < total
            invariant
                self.width == width,
                width <= MAX_WIDTH,
                total == 2 * width + 3,
                k <= total,
                start.len() + total <= STEP_CAPACITY,
                all == write_steps(id, pattern, width as int),
                self.steps() == start + all.take(k as int),
            decreases total - k,
        {
            let step = if k == 0 {
                ShiftStep { state: ShiftState::Reset(id), data: false, latch: false, clock: false }
            } else if k <= 2 * width {
                let bit = (k - 1) / 2;
                let data = (pattern >> bit) & 1 == 1;
                if (k - 1) % 2 == 0 {
                    ShiftStep { state: ShiftState::BitOn(id, bit), data, latch: false, clock: false }
                } else {
                    ShiftStep { state: ShiftState::BitOff(id, bit), data, latch: false, clock: true }
                }
            } else if k == 2 * width + 1 {
                ShiftStep {
                    state: ShiftState::LatchOn(id, width),
                    data: false,
                    latch: true,
                    clock: false,
                }
            } else {
                ShiftStep {
                    state: ShiftState::LatchOff(id, width),
                    data: false,
                    latch: false,
                    clock: false,
                }
            };
            assert(step == all[k as int]);
            queue_push_back(&mut self.buffer, step);
            assert(all.take(k as int).push(step) =~= all.take(k + 1));
            k = k + 1;
        }
        assert(all.take(total as int) =~= all);
    }

    /// Queues a key scan: for each position `p` of the chain, in order, a
    /// write tagged `p` that drives bit `width - 1 - p` alone high.
    pub fn scan(&mut self)
        requires
            old(self).chain_width() <= MAX_WIDTH,
        ensures
            final(self).chain_width() == old(self).chain_width(),
            final(self).steps() == after_scan(
                old(self).steps(),
                old(self).chain_width(),
                old(self).chain_width(),
            ),
    {
        let width = self.width;
        let ghost start = self.steps();
        let mut p: usize = 0;
        while p < width
            invariant
                self.width == width,
                width <= MAX_WIDTH,
                p <= width,
                self.steps() == after_scan(start, width as int, p as int),
            decreases width - p,
        {
            self.write(p, 1usize << (width - 1 - p));
            p = p + 1;
        }
    }
}

/// The key position that a pumped scan step reports: at the end of a scan
/// write (its latch-off step), a high return line means the key at that
/// position is pressed, and it is reported when its debounce allows. Every
/// press, reported or not, restarts that key's cooldown.
///
/// On the eight-key pad, position 0 (bit 7 driven) is the mute key, 1 the
/// output key, 4 the brightness key, 5 the peaks key and 6 the levels key;
/// positions 2, 3 and 7 have no key.
pub fn key_event(
    step: ShiftStep,
    pressed: bool,
    debouncers: &mut Debouncers,
    delay_ms: u32,
    now: Instant,
) -> (r: Option<usize>)
    requires
        delay_ms <= MAX_DELAY_MS,
    ensures
        ({
            match step.state {
                ShiftState::LatchOff(id, _) => if pressed {
                    &&& r == (if debounce_ok(old(debouncers).deadlines(), id, now) {
                        Some(id)
                    } else {
                        None
                    })
                    &&& final(debouncers).deadlines() == debounce_after(
                        old(debouncers).deadlines(),
                        id,
                        delay_ms as int,
                        now,
                    )
                } else {
                    r.is_none() && final(debouncers).deadlines() == old(debouncers).deadlines()
                },
                _ => r.is_none() && final(debouncers).deadlines() == old(debouncers).deadlines(),
            }
        }),
{
    match step.state {
        ShiftState::LatchOff(id, _) => {
            if pressed {
                let ok = debouncers.is_ok(id, now);
                debouncers.update(id, delay_ms, now);
                if ok {
                    Some(id)
                } else {
                    None
                }
            } else {
                None
            }
        },
        _ => None,
    }
}

/// Writing a pattern to a chain `width` bits wide queues exactly `2 * width + 3`
/// steps, in the order reset, then a set and a clock step for each bit, then
/// latch on and latch off.
pub proof fn lemma_write_step_order(id: usize, pattern: usize, width: int)
    requires
        0 <= width,
    ensures
        write_steps(id, pattern, width).len() == 2 * width + 3,
        write_steps(id, pattern, width)[0].state == ShiftState::Reset(id),
        forall|b: int|
            0 <= b < width ==> {
                &&& #[trigger] write_steps(id, pattern, width)[2 * b + 1].state
                    == ShiftState::BitOn(id, b as usize)
                &&& write_steps(id, pattern, width)[2 * b + 2].state == ShiftState::BitOff(
                    id,
                    b as usize,
                )
                &&& !write_steps(id, pattern, width)[2 * b + 1].clock
                &&& write_steps(id, pattern, width)[2 * b + 2].clock
                &&& write_steps(id, pattern, width)[2 * b + 1].data == bit_set(pattern, b)
                &&& write_steps(id, pattern, width)[2 * b + 2].data == bit_set(pattern, b)
            },
        write_steps(id, pattern, width)[2 * width + 1].state == ShiftState::LatchOn(
            id,
            width as usize,
        ),
        write_steps(id, pattern, width)[2 * width + 1].latch,
        write_steps(id, pattern, width)[2 * width + 2].state == ShiftState::LatchOff(
            id,
            width as usize,
        ),
        !write_steps(id, pattern, width)[2 * width + 2].latch,
{
    assert forall|b: int| 0 <= b < width implies {
        &&& #[trigger] write_steps(id, pattern, width)[2 * b + 1].state == ShiftState::BitOn(
            id,
            b as usize,
        )
        &&& write_steps(id, pattern, width)[2 * b + 2].state == ShiftState::BitOff(
            id,
            b as usize,
        )
        &&& !write_steps(id, pattern, width)[2 * b + 1].clock
        &&& write_steps(id, pattern, width)[2 * b + 2].clock
        &&& write_steps(id, pattern, width)[2 * b + 1].data == bit_set(pattern, b)
        &&& write_steps(id, pattern, width)[2 * b + 2].data == bit_set(pattern, b)
    } by {
        assert((2 * b + 1 - 1) / 2 == b);
        assert((2 * b + 2 - 1) / 2 == b);
        assert((2 * b + 1 - 1) % 2 == 0);
        assert((2 * b + 2 - 1) % 2 == 1);
    }
}

} // verus!
