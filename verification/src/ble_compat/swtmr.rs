//! Software timers.

use crate::ble_compat::{ERROR, OK, OS_ERROR, OS_ERROR_PARAMETER, OS_OK};
use vstd::prelude::*;

verus! {

/// Number of software timers.
pub const SWTMR_COUNT: usize = 16;

/// Bytes of a control block in the archive layout.
pub const SWTMR_BLOCK_BYTES: usize = 36;

/// The timer is free.
pub const SWTMR_FREE: u8 = 0;

/// The timer is created and does not run.
pub const SWTMR_CREATED: u8 = 2;

/// The timer runs.
pub const SWTMR_TICKING: u8 = 3;

/// The mode of a timer that runs until it is stopped.
pub const SWTMR_PERIODIC: u8 = 1;

/// Control block of a timer.
#[derive(Clone, Copy, Debug, PartialEq, Eq)]
pub struct LosSwtmrCb {
    pub sort_link: [u32; 3],
    pub state: u8,
    pub mode: u8,
    pub overrun: u8,
    pub in_process: u8,
    pub timer_id: u16,
    pub interval: u32,
    pub expiry: u32,
    pub arg: u32,
    pub handler: u32,
}

/// The bytes of a word, the least significant first.
pub open spec fn le_bytes(value: u32) -> Seq<u8> {
    seq![
        (value % 0x100) as u8,
        (value / 0x100 % 0x100) as u8,
        (value / 0x1_0000 % 0x100) as u8,
        (value / 0x100_0000) as u8,
    ]
}

impl LosSwtmrCb {
    /// The block of a timer that is free.
    pub open spec fn is_empty(self) -> bool {
        self == (LosSwtmrCb {
            sort_link: [0, 0, 0],
            state: SWTMR_FREE,
            mode: 0,
            overrun: 0,
            in_process: 0,
            timer_id: 0,
            interval: 0,
            expiry: 0,
            arg: 0,
            handler: 0,
        })
    }

    pub fn empty() -> (block: Self)
        ensures
            block.is_empty(),
    {
        LosSwtmrCb {
            sort_link: [0, 0, 0],
            state: SWTMR_FREE,
            mode: 0,
            overrun: 0,
            in_process: 0,
            timer_id: 0,
            interval: 0,
            expiry: 0,
            arg: 0,
            handler: 0,
        }
    }

    /// The block of a timer that was just created.
    pub open spec fn is_created(
        self,
        index: int,
        interval: u32,
        mode: u8,
        handler: u32,
        arg: u32,
    ) -> bool {
        self == (LosSwtmrCb {
            sort_link: [0, 0, 0],
            state: SWTMR_CREATED,
            mode,
            overrun: 0,
            in_process: 0,
            timer_id: index as u16,
            interval,
            expiry: interval,
            arg,
            handler,
        })
    }

    /// The block once its timer fired: one handler more runs, and only a periodic
    /// timer goes on.
    pub open spec fn firing(self) -> Self {
        LosSwtmrCb {
            in_process: if self.in_process < 255 {
                (self.in_process + 1) as u8
            } else {
                255
            },
            state: if self.mode == SWTMR_PERIODIC {
                SWTMR_TICKING
            } else {
                SWTMR_CREATED
            },
            ..self
        }
    }

    /// The block once a handler returned.
    pub open spec fn returned(self) -> Self {
        LosSwtmrCb {
            in_process: if self.in_process > 0 {
                (self.in_process - 1) as u8
            } else {
                0
            },
            ..self
        }
    }

    /// The block in the archive layout: three link words, the four state bytes,
    /// the identifier and two bytes of padding, and then the interval, the expiry,
    /// the argument and the handler.
    pub open spec fn layout(self) -> Seq<u8> {
        le_bytes(self.sort_link[0]) + le_bytes(self.sort_link[1]) + le_bytes(self.sort_link[2])
            + seq![self.state, self.mode, self.overrun, self.in_process] + seq![
            (self.timer_id % 0x100) as u8,
            (self.timer_id / 0x100) as u8,
            0u8,
            0u8,
        ] + le_bytes(self.interval) + le_bytes(self.expiry) + le_bytes(self.arg) + le_bytes(
            self.handler,
        )
    }

    /// The bytes of the block in the archive layout.
    pub fn image(&self) -> (bytes: Vec<u8>)
        ensures
            bytes@ == self.layout(),
    {
        let mut bytes: Vec<u8> = Vec::new();
        push_word(&mut bytes, self.sort_link[0]);
        push_word(&mut bytes, self.sort_link[1]);
        push_word(&mut bytes, self.sort_link[2]);
        bytes.push(self.state);
        bytes.push(self.mode);
        bytes.push(self.overrun);
        bytes.push(self.in_process);
        bytes.push((self.timer_id % 0x100) as u8);
        bytes.push((self.timer_id / 0x100) as u8);
        bytes.push(0);
        bytes.push(0);
        push_word(&mut bytes, self.interval);
        push_word(&mut bytes, self.expiry);
        push_word(&mut bytes, self.arg);
        push_word(&mut bytes, self.handler);
        assert(bytes@ =~= self.layout());
        bytes
    }
}

fn push_word(bytes: &mut Vec<u8>, value: u32)
    ensures
        final(bytes)@ == old(bytes)@ + le_bytes(value),
{
    bytes.push((value % 0x100) as u8);
    bytes.push((value / 0x100 % 0x100) as u8);
    bytes.push((value / 0x1_0000 % 0x100) as u8);
    bytes.push((value / 0x100_0000) as u8);
    assert(bytes@ =~= old(bytes)@ + le_bytes(value));
}

/// What a timer that fired asks for.
#[derive(Clone, Copy, Debug, PartialEq, Eq, Structural)]
pub struct Firing {
    pub handler: u32,
    pub arg: u32,
    pub periodic: bool,
}

/// The control blocks of all timers.
#[derive(Clone, Copy, Debug)]
pub struct SwtmrTable {
    pub blocks: [LosSwtmrCb; 16],
}

/// Two tables differ at most in one timer.
pub open spec fn only(before: Seq<LosSwtmrCb>, after: Seq<LosSwtmrCb>, index: int) -> bool {
    after == before.update(index, after[index])
}

impl SwtmrTable {
    pub fn new() -> (table: Self)
        ensures
            forall|i: int| 0 <= i < SWTMR_COUNT ==> (#[trigger] table.blocks[i]).is_empty(),
    {
        let empty = LosSwtmrCb::empty();
        SwtmrTable { blocks: [empty;16] }
    }

    /// A timer can be created with these arguments.
    pub open spec fn acceptable(interval: u32, mode: u8, handler: Option<u32>, output: bool) -> bool {
        interval != 0 && handler is Some && output && mode <= 2
    }

    /// The first timer that is free, or the number of timers.
    pub open spec fn first_free(self) -> int {
        first_free_from(self.blocks@, 0)
    }

    /// Claim the first free timer, where the arguments can be accepted.
    pub fn create(
        &mut self,
        interval: u32,
        mode: u8,
        handler: Option<u32>,
        output: bool,
        arg: u32,
    ) -> (result: Result<usize, u32>)
        ensures
            match result {
                Ok(index) => {
                    &&& Self::acceptable(interval, mode, handler, output)
                    &&& index < SWTMR_COUNT
                    &&& index == old(self).first_free()
                    &&& final(self).blocks[index as int].is_created(
                        index as int,
                        interval,
                        mode,
                        handler->0,
                        arg,
                    )
                    &&& only(old(self).blocks@, final(self).blocks@, index as int)
                },
                Err(status) => status == ERROR && *final(self) == *old(self) && (
                !Self::acceptable(interval, mode, handler, output) || old(self).first_free()
                    == SWTMR_COUNT),
            },
    {
        let address: u32 = match handler {
            Some(address) => address,
            None => {
                return Err(ERROR);
            },
        };
        if interval == 0 || !output || mode > 2 {
            return Err(ERROR);
        }
        let mut index: usize = 0;
        while index < SWTMR_COUNT && self.blocks[index].state != SWTMR_FREE
            invariant
                index <= SWTMR_COUNT,
                first_free_from(self.blocks@, 0) == first_free_from(self.blocks@, index as int),
            decreases SWTMR_COUNT - index,
        {
            index = index + 1;
        }
        if index == SWTMR_COUNT {
            return Err(ERROR);
        }
        self.blocks[index] = LosSwtmrCb {
            sort_link: [0, 0, 0],
            state: SWTMR_CREATED,
            mode,
            overrun: 0,
            in_process: 0,
            timer_id: index as u16,
            interval,
            expiry: interval,
            arg,
            handler: address,
        };
        assert(self.blocks@ =~= old(self).blocks@.update(index as int, self.blocks@[index as int]));
        Ok(index)
    }

    /// End a creation: a timer that the runtime could not set up is free again.
    pub fn created(&mut self, index: usize, ready: bool) -> (status: u32)
        requires
            index < SWTMR_COUNT,
        ensures
            status == crate::ble_compat::status_of(ready),
            ready ==> *final(self) == *old(self),
            !ready ==> final(self).blocks[index as int].is_empty() && only(
                old(self).blocks@,
                final(self).blocks@,
                index as int,
            ),
    {
        if !ready {
            self.blocks[index] = LosSwtmrCb::empty();
            assert(self.blocks@ =~= old(self).blocks@.update(
                index as int,
                self.blocks@[index as int],
            ));
            return ERROR;
        }
        OK
    }

    /// The timer exists.
    pub open spec fn allocated(self, id: u16) -> bool {
        id < SWTMR_COUNT && self.blocks[id as int].state != SWTMR_FREE
    }

    /// Mark a timer as running. The result is how long the runtime timer is set
    /// for, at least one tick.
    pub fn start(&mut self, id: u16) -> (delay: Option<u32>)
        ensures
            delay is Some <==> old(self).allocated(id),
            delay is None ==> *final(self) == *old(self),
            delay matches Some(ticks) ==> ticks == at_least_one(old(self).blocks[id as int].expiry)
                && final(self).blocks[id as int] == (LosSwtmrCb {
                state: SWTMR_TICKING,
                ..old(self).blocks[id as int]
            }) && only(old(self).blocks@, final(self).blocks@, id as int),
    {
        let index: usize = id as usize;
        if index >= SWTMR_COUNT {
            return None;
        }
        let mut block = self.blocks[index];
        if block.state == SWTMR_FREE {
            return None;
        }
        block.state = SWTMR_TICKING;
        self.blocks[index] = block;
        assert(self.blocks@ =~= old(self).blocks@.update(index as int, self.blocks@[index as int]));
        Some(positive(block.expiry))
    }

    /// Whether a timer can be stopped.
    pub fn stoppable(&self, id: u16) -> (allocated: bool)
        ensures
            allocated == self.allocated(id),
    {
        let index: usize = id as usize;
        index < SWTMR_COUNT && self.blocks[index].state != SWTMR_FREE
    }

    /// End a stop: a timer that the runtime stopped does not run.
    pub fn stopped(&mut self, id: u16, done: bool) -> (status: u32)
        requires
            old(self).allocated(id),
        ensures
            status == crate::ble_compat::status_of(done),
            !done ==> *final(self) == *old(self),
            done ==> final(self).blocks[id as int] == (LosSwtmrCb {
                state: SWTMR_CREATED,
                ..old(self).blocks[id as int]
            }) && only(old(self).blocks@, final(self).blocks@, id as int),
    {
        if !done {
            return ERROR;
        }
        let index: usize = id as usize;
        let mut block = self.blocks[index];
        block.state = SWTMR_CREATED;
        self.blocks[index] = block;
        assert(self.blocks@ =~= old(self).blocks@.update(index as int, self.blocks@[index as int]));
        OK
    }

    /// Stop a timer, with what the runtime answers.
    pub fn stop(&mut self, id: u16, done: bool) -> (status: u32)
        ensures
            status == crate::ble_compat::status_of(old(self).allocated(id) && done),
            status != OK ==> *final(self) == *old(self),
            status == OK ==> final(self).blocks[id as int] == (LosSwtmrCb {
                state: SWTMR_CREATED,
                ..old(self).blocks[id as int]
            }) && only(old(self).blocks@, final(self).blocks@, id as int),
    {
        if !self.stoppable(id) {
            return ERROR;
        }
        self.stopped(id, done)
    }

    /// Free a timer, whatever the runtime answers to its destruction.
    pub fn delete(&mut self, id: u16) -> (status: u32)
        ensures
            status == crate::ble_compat::status_of(id < SWTMR_COUNT),
            status != OK ==> *final(self) == *old(self),
            status == OK ==> final(self).blocks[id as int].is_empty() && only(
                old(self).blocks@,
                final(self).blocks@,
                id as int,
            ),
    {
        let index: usize = id as usize;
        if index >= SWTMR_COUNT {
            return ERROR;
        }
        self.blocks[index] = LosSwtmrCb::empty();
        assert(self.blocks@ =~= old(self).blocks@.update(index as int, self.blocks@[index as int]));
        OK
    }

    /// A timer fired: count the handler as running.
    pub fn fire(&mut self, index: usize) -> (firing: Option<Firing>)
        ensures
            firing is Some <==> index < SWTMR_COUNT,
            firing is None ==> *final(self) == *old(self),
            firing matches Some(due) ==> ({
                let block = old(self).blocks[index as int];
                &&& due == (Firing {
                    handler: block.handler,
                    arg: block.arg,
                    periodic: block.mode == SWTMR_PERIODIC,
                })
                &&& final(self).blocks[index as int] == block.firing()
                &&& only(old(self).blocks@, final(self).blocks@, index as int)
            }),
    {
        if index >= SWTMR_COUNT {
            return None;
        }
        let mut block = self.blocks[index];
        if block.in_process < 255 {
            block.in_process = block.in_process + 1;
        }
        block.state = if block.mode == SWTMR_PERIODIC {
            SWTMR_TICKING
        } else {
            SWTMR_CREATED
        };
        self.blocks[index] = block;
        assert(self.blocks@ =~= old(self).blocks@.update(index as int, self.blocks@[index as int]));
        Some(
            Firing {
                handler: block.handler,
                arg: block.arg,
                periodic: block.mode == SWTMR_PERIODIC,
            },
        )
    }

    /// The handler returned. A periodic timer is set again, for at least one tick.
    pub fn fired(&mut self, index: usize, periodic: bool) -> (delay: Option<u32>)
        requires
            index < SWTMR_COUNT,
        ensures
            delay == (if periodic {
                Some(at_least_one(old(self).blocks[index as int].interval))
            } else {
                None
            }),
            final(self).blocks[index as int] == old(self).blocks[index as int].returned(),
            only(old(self).blocks@, final(self).blocks@, index as int),
    {
        let mut block = self.blocks[index];
        if block.in_process > 0 {
            block.in_process = block.in_process - 1;
        }
        self.blocks[index] = block;
        assert(self.blocks@ =~= old(self).blocks@.update(index as int, self.blocks@[index as int]));
        if periodic {
            Some(positive(block.interval))
        } else {
            None
        }
    }

    /// Set the interval and the expiry of a timer.
    pub fn set_ticks(&mut self, id: u16, ticks: u32)
        requires
            id < SWTMR_COUNT,
        ensures
            final(self).blocks[id as int] == (LosSwtmrCb {
                interval: ticks,
                expiry: ticks,
                ..old(self).blocks[id as int]
            }),
            only(old(self).blocks@, final(self).blocks@, id as int),
    {
        let index: usize = id as usize;
        let mut block = self.blocks[index];
        block.expiry = ticks;
        block.interval = ticks;
        self.blocks[index] = block;
        assert(self.blocks@ =~= old(self).blocks@.update(index as int, self.blocks@[index as int]));
    }
}

impl SwtmrTable {
    /// Start a timer for a number of ticks. The result is how long the runtime
    /// timer is set for.
    pub fn start_for(&mut self, timer: Option<u16>, ticks: u32) -> (result: Result<u32, i32>)
        requires
            timer matches Some(id) ==> id < SWTMR_COUNT,
        ensures
            match timer {
                Some(id) => if ticks == 0 {
                    result == Err::<u32, i32>(OS_ERROR_PARAMETER) && *final(self) == *old(self)
                } else {
                    let block = LosSwtmrCb {
                        interval: ticks,
                        expiry: ticks,
                        ..old(self).blocks[id as int]
                    };
                    &&& only(old(self).blocks@, final(self).blocks@, id as int)
                    &&& if old(self).allocated(id) {
                        result == Ok::<u32, i32>(ticks) && final(self).blocks[id as int] == (
                        LosSwtmrCb { state: SWTMR_TICKING, ..block })
                    } else {
                        result == Err::<u32, i32>(OS_ERROR) && final(self).blocks[id as int]
                            == block
                    }
                },
                None => result == Err::<u32, i32>(OS_ERROR_PARAMETER) && *final(self) == *old(self),
            },
    {
        match timer {
            None => Err(OS_ERROR_PARAMETER),
            Some(id) => {
                if ticks == 0 {
                    return Err(OS_ERROR_PARAMETER);
                }
                self.set_ticks(id, ticks);
                let delay = self.start(id);
                assert(self.blocks@ =~= old(self).blocks@.update(
                    id as int,
                    self.blocks@[id as int],
                ));
                match delay {
                    Some(delay) => Ok(delay),
                    None => Err(OS_ERROR),
                }
            },
        }
    }

    /// Free a timer, where there is one.
    pub fn remove(&mut self, timer: Option<u16>) -> (status: i32)
        requires
            timer matches Some(id) ==> id < SWTMR_COUNT,
        ensures
            match timer {
                Some(id) => status == OS_OK && final(self).blocks[id as int].is_empty() && only(
                    old(self).blocks@,
                    final(self).blocks@,
                    id as int,
                ),
                None => status == OS_ERROR_PARAMETER && *final(self) == *old(self),
            },
    {
        match timer {
            None => OS_ERROR_PARAMETER,
            Some(id) => {
                if self.delete(id) == OK {
                    OS_OK
                } else {
                    OS_ERROR
                }
            },
        }
    }
}

/// The first free block from an index on, or the number of blocks.
pub open spec fn first_free_from(blocks: Seq<LosSwtmrCb>, index: int) -> int
    decreases blocks.len() - index,
{
    if index >= blocks.len() {
        blocks.len() as int
    } else if blocks[index].state == SWTMR_FREE {
        index
    } else {
        first_free_from(blocks, index + 1)
    }
}

/// A number of ticks, at least one.
pub open spec fn at_least_one(ticks: u32) -> u32 {
    if ticks == 0 {
        1
    } else {
        ticks
    }
}

fn positive(ticks: u32) -> (result: u32)
    ensures
        result == at_least_one(ticks),
{
    if ticks == 0 {
        1
    } else {
        ticks
    }
}

/// The mode of a timer type: once, or until it is stopped.
pub fn timer_mode(timer_type: u32) -> (mode: Option<u8>)
    ensures
        mode == (if timer_type == 0 {
            Some(2u8)
        } else if timer_type == 1 {
            Some(SWTMR_PERIODIC)
        } else {
            None
        }),
{
    match timer_type {
        0 => Some(2),
        1 => Some(SWTMR_PERIODIC),
        _ => None,
    }
}

/// The timer whose control block starts at an address, where one does. The table
/// starts at `base`.
pub fn timer_id(id: usize, base: usize) -> (timer: Option<u16>)
    ensures
        match timer {
            Some(index) => id != 0 && index < SWTMR_COUNT && id == base + index * SWTMR_BLOCK_BYTES,
            None => id == 0 || forall|index: int|
                0 <= index < SWTMR_COUNT ==> id != #[trigger] block_address(base, index),
        },
{
    if id == 0 {
        return None;
    }
    if id < base {
        return None;
    }
    let offset: usize = id - base;
    if offset % SWTMR_BLOCK_BYTES != 0 {
        proof {
            assert forall|index: int| 0 <= index < SWTMR_COUNT implies id != #[trigger] block_address(
                base,
                index,
            ) by {
                if id == block_address(base, index) {
                    assert(offset == index * 36);
                    assert((index * 36) % 36 == 0);
                }
            }
        }
        return None;
    }
    let index: usize = offset / SWTMR_BLOCK_BYTES;
    if index < SWTMR_COUNT {
        Some(index as u16)
    } else {
        None
    }
}

/// The address of a control block.
pub open spec fn block_address(base: usize, index: int) -> int {
    base + index * SWTMR_BLOCK_BYTES
}

/// A control block is 36 bytes long, with the interval, the expiry, the argument
/// and the handler at the bytes 20, 24, 28 and 32.
pub proof fn law_archive_layout(block: LosSwtmrCb)
    ensures
        block.layout().len() == SWTMR_BLOCK_BYTES,
        block.layout().subrange(20, 24) == le_bytes(block.interval),
        block.layout().subrange(24, 28) == le_bytes(block.expiry),
        block.layout().subrange(28, 32) == le_bytes(block.arg),
        block.layout().subrange(32, 36) == le_bytes(block.handler),
{
    assert(block.layout().subrange(20, 24) =~= le_bytes(block.interval));
    assert(block.layout().subrange(24, 28) =~= le_bytes(block.expiry));
    assert(block.layout().subrange(28, 32) =~= le_bytes(block.arg));
    assert(block.layout().subrange(32, 36) =~= le_bytes(block.handler));
}

/// A timer that is handed out was free, and no timer before it was.
pub proof fn law_created_timer_was_free(table: SwtmrTable)
    ensures
        0 <= table.first_free() <= SWTMR_COUNT,
        table.first_free() < SWTMR_COUNT ==> table.blocks[table.first_free()].state == SWTMR_FREE,
        forall|i: int| 0 <= i < table.first_free() ==> #[trigger] table.blocks[i].state
            != SWTMR_FREE,
{
    lemma_first_free(table.blocks@, 0);
    assert forall|i: int| 0 <= i < table.first_free() implies #[trigger] table.blocks[i].state
        != SWTMR_FREE by {
        assert(table.blocks@[i].state != SWTMR_FREE);
    }
}

/// A handler that returned leaves the count of running handlers as it was before
/// its timer fired, unless the count was full.
pub proof fn law_running_handlers_are_balanced(block: LosSwtmrCb)
    requires
        block.in_process < 255,
    ensures
        block.firing().returned().in_process == block.in_process,
        block.firing().in_process > 0,
{
}

proof fn lemma_first_free(blocks: Seq<LosSwtmrCb>, index: int)
    requires
        0 <= index <= blocks.len(),
    ensures
        index <= first_free_from(blocks, index) <= blocks.len(),
        first_free_from(blocks, index) < blocks.len() ==> blocks[first_free_from(
            blocks,
            index,
        )].state == SWTMR_FREE,
        forall|i: int| index <= i < first_free_from(blocks, index) ==> #[trigger] blocks[i].state
            != SWTMR_FREE,
    decreases blocks.len() - index,
{
    if index < blocks.len() && blocks[index].state != SWTMR_FREE {
        lemma_first_free(blocks, index + 1);
    }
}

/// A timer is created exactly with an interval, a handler, somewhere to put its number
/// and a known mode, while one is free; it is the first free one, does not run yet, and
/// holds what it was created with. No other timer changes.
pub proof fn law_timer_holds_what_it_was_created_with(
    interval: u32,
    mode: u8,
    handler: Option<u32>,
    output: bool,
    arg: u32,
)
    ensures
        forall|table: &mut SwtmrTable, result: Result<usize, u32>| #[trigger]
            call_ensures(
                SwtmrTable::create,
                (table, interval, mode, handler, output, arg),
                result,
            ) ==> {
                let free = exists|i: int| 0 <= i < 16 && (#[trigger] (*table).blocks@[i]).state == 0;
                &&& result is Ok <==> interval > 0 && handler is Some && output && mode <= 2 && free
                &&& result matches Ok(index) ==> {
                    let block = (*final(table)).blocks@[index as int];
                    &&& index < 16 && (*table).blocks@[index as int].state == 0
                    &&& forall|i: int|
                        0 <= i < index ==> (#[trigger] (*table).blocks@[i]).state != 0
                    &&& block.state == 2 && block.mode == mode && block.timer_id == index
                    &&& block.interval == interval && block.expiry == interval
                    &&& block.handler == handler->0 && block.arg == arg && block.in_process == 0
                    &&& forall|i: int|
                        0 <= i < 16 && i != index ==> #[trigger] (*final(table)).blocks@[i]
                            == (*table).blocks@[i]
                }
                &&& result matches Err(status) ==> status == 1 && *final(table) == *table
            },
{
    assert forall|table: SwtmrTable| true implies (#[trigger] table.first_free() < 16 <==> (exists|
        i: int,
    |
        0 <= i < 16 && (#[trigger] table.blocks@[i]).state == 0)) && (forall|i: int|
        0 <= i < table.first_free() ==> (#[trigger] table.blocks@[i]).state != 0) && (
    table.first_free() < 16 ==> table.blocks@[table.first_free()].state == 0)
        && table.first_free() <= 16 by {
        lemma_first_free(table.blocks@, 0);
        if table.first_free() < 16 {
            assert(table.blocks@[table.first_free()].state == 0);
        }
    }
}

/// A timer that exists is started for its expiry, or one tick, and runs; it is stopped
/// when the runtime stopped it, and is free once it was deleted.
pub proof fn law_timer_starts_and_stops(id: u16, done: bool)
    ensures
        forall|table: &mut SwtmrTable, delay: Option<u32>| #[trigger]
            call_ensures(SwtmrTable::start, (table, id), delay) ==> {
                &&& delay is Some <==> id < 16 && (*table).blocks@[id as int].state != 0
                &&& delay matches Some(ticks) ==> (*final(table)).blocks@[id as int].state == 3 && (
                (*table).blocks@[id as int].expiry > 0 ==> ticks
                    == (*table).blocks@[id as int].expiry) && ((*table).blocks@[id as int].expiry
                    == 0 ==> ticks == 1)
            },
        forall|table: &mut SwtmrTable, status: u32| #[trigger]
            call_ensures(SwtmrTable::stop, (table, id, done), status) ==> {
                &&& status == 0 <==> id < 16 && (*table).blocks@[id as int].state != 0 && done
                &&& status == 0 || status == 1
                &&& status == 0 ==> (*final(table)).blocks@[id as int].state == 2
                &&& status != 0 ==> *final(table) == *table
            },
        forall|table: &mut SwtmrTable, status: u32| #[trigger]
            call_ensures(SwtmrTable::delete, (table, id), status) ==> {
                &&& status == 0 <==> id < 16
                &&& status == 0 ==> (*final(table)).blocks@[id as int].state == 0
                    && (*final(table)).blocks@[id as int].handler == 0
            },
{
}

/// A timer that fires hands out its handler and its argument, and goes on exactly when it
/// is periodic; it is then set again for its interval, or one tick.
pub proof fn law_periodic_timer_goes_on(index: usize, periodic: bool)
    requires
        index < 16,
    ensures
        forall|table: &mut SwtmrTable, firing: Option<Firing>| #[trigger]
            call_ensures(SwtmrTable::fire, (table, index), firing) ==> {
                let block = (*table).blocks@[index as int];
                let after = (*final(table)).blocks@[index as int];
                &&& firing is Some
                &&& firing->0.handler == block.handler && firing->0.arg == block.arg
                &&& firing->0.periodic <==> block.mode == 1
                &&& after.state == 3 <==> block.mode == 1
                &&& after.state == 2 <==> block.mode != 1
                &&& block.in_process < 255 ==> after.in_process == block.in_process + 1
            },
        forall|table: &mut SwtmrTable, delay: Option<u32>| #[trigger]
            call_ensures(SwtmrTable::fired, (table, index, periodic), delay) ==> {
                let block = (*table).blocks@[index as int];
                let after = (*final(table)).blocks@[index as int];
                &&& delay is Some <==> periodic
                &&& periodic && block.interval > 0 ==> delay == Some(block.interval)
                &&& periodic && block.interval == 0 ==> delay == Some(1u32)
                &&& block.in_process > 0 ==> after.in_process == block.in_process - 1
                &&& after.state == block.state && after.interval == block.interval
            },
{
}

/// A timer of the other interface is started for a number of ticks that is not zero, and
/// removed, exactly where there is one. A type is once or periodic.
pub proof fn law_typed_timer_is_started_and_removed(
    timer: Option<u16>,
    ticks: u32,
    kind: u32,
    mode: Option<u8>,
)
    requires
        timer matches Some(id) ==> id < 16,
        call_ensures(timer_mode, (kind,), mode),
    ensures
        mode == Some(2u8) <==> kind == 0,
        mode == Some(1u8) <==> kind == 1,
        mode is None <==> kind > 1,
        forall|table: &mut SwtmrTable, result: Result<u32, i32>| #[trigger]
            call_ensures(SwtmrTable::start_for, (table, timer, ticks), result) ==> {
                &&& result is Ok <==> timer is Some && ticks > 0
                    && (*table).blocks@[timer->0 as int].state != 0
                &&& result matches Ok(delay) ==> delay == ticks && ({
                    let block = (*final(table)).blocks@[timer->0 as int];
                    block.interval == ticks && block.expiry == ticks && block.state == 3
                })
                &&& result matches Err(status) ==> (timer is None || ticks == 0 ==> status == -4)
                    && (timer is Some && ticks > 0 ==> status == -1)
            },
        forall|table: &mut SwtmrTable, status: i32| #[trigger]
            call_ensures(SwtmrTable::remove, (table, timer), status) ==> {
                &&& status == 0 <==> timer is Some
                &&& timer is None ==> status == -4 && *final(table) == *table
                &&& timer is Some ==> (*final(table)).blocks@[timer->0 as int].state == 0
            },
{
}

/// The image of a block reads back: its words with the least significant byte first, its
/// state bytes and its number each in their place.
pub proof fn law_block_reads_back(block: LosSwtmrCb, bytes: Vec<u8>)
    requires
        call_ensures(LosSwtmrCb::image, (&block,), bytes),
    ensures
        bytes@.len() == 36,
        bytes@[12] == block.state && bytes@[13] == block.mode && bytes@[14] == block.overrun
            && bytes@[15] == block.in_process,
        bytes@[16] + 0x100 * bytes@[17] == block.timer_id,
        bytes@[18] == 0 && bytes@[19] == 0,
        bytes@[20] + 0x100 * bytes@[21] + 0x1_0000 * bytes@[22] + 0x100_0000 * bytes@[23]
            == block.interval,
        bytes@[24] + 0x100 * bytes@[25] + 0x1_0000 * bytes@[26] + 0x100_0000 * bytes@[27]
            == block.expiry,
        bytes@[28] + 0x100 * bytes@[29] + 0x1_0000 * bytes@[30] + 0x100_0000 * bytes@[31]
            == block.arg,
        bytes@[32] + 0x100 * bytes@[33] + 0x1_0000 * bytes@[34] + 0x100_0000 * bytes@[35]
            == block.handler,
{
    lemma_word_reads_back(block.interval);
    lemma_word_reads_back(block.expiry);
    lemma_word_reads_back(block.arg);
    lemma_word_reads_back(block.handler);
}

proof fn lemma_word_reads_back(value: u32)
    ensures
        le_bytes(value)[0] + 0x100 * le_bytes(value)[1] + 0x1_0000 * le_bytes(value)[2]
            + 0x100_0000 * le_bytes(value)[3] == value,
{
    let low = value as int / 0x100;
    let high = value as int / 0x1_0000;
    assert(high == low / 0x100);
    assert(value as int / 0x100_0000 == high / 0x100);
}

/// A timer that the runtime could not set up is free again, and one that it could not stop
/// stays as it was. Only the timer that is named changes.
pub proof fn law_runtime_answer_decides_on_a_timer(index: usize, id: u16, ready: bool)
    requires
        index < 16,
    ensures
        forall|table: &mut SwtmrTable, status: u32| #[trigger]
            call_ensures(SwtmrTable::created, (table, index, ready), status) ==> {
                &&& status == 0 <==> ready
                &&& ready ==> *final(table) == *table
                &&& !ready ==> (*final(table)).blocks@[index as int].state == 0
                &&& forall|i: int|
                    0 <= i < 16 && i != index ==> #[trigger] (*final(table)).blocks@[i]
                        == (*table).blocks@[i]
            },
        forall|table: &mut SwtmrTable, status: u32|
            (*table).allocated(id) && #[trigger] call_ensures(
                SwtmrTable::stopped,
                (table, id, ready),
                status,
            ) ==> {
                &&& status == 0 <==> ready
                &&& ready ==> (*final(table)).blocks@[id as int].state == 2
                    && (*final(table)).blocks@[id as int].interval
                    == (*table).blocks@[id as int].interval
                &&& !ready ==> *final(table) == *table
            },
{
}

/// The blocks of two timers lie 36 bytes apart for each timer between them, so that an
/// address is that of at most one.
pub proof fn law_block_addresses_are_apart(base: usize, left: int, right: int)
    ensures
        block_address(base, 0) == base,
        block_address(base, left) - block_address(base, right) == 36 * (left - right),
        block_address(base, left) == block_address(base, right) ==> left == right,
{
}

} // verus!
