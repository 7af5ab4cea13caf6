//! Runtime and platform contract of the vendor BLE archives.
//!
//! Only the services that the archives use are provided. Diagnostics that are
//! not installed, and cipher operations that are not supported, report failure.

pub mod pke;
pub mod swtmr;

use vstd::prelude::*;

verus! {

pub const OK: u32 = 0;

pub const ERROR: u32 = 1;

pub const OS_OK: i32 = 0;

pub const OS_ERROR: i32 = -1;

pub const OS_ERROR_TIMEOUT: i32 = -2;

pub const OS_ERROR_PARAMETER: i32 = -4;

pub const WAIT_FOREVER: u32 = 0xffff_ffff;

/// How long a wait may take.
#[derive(Clone, Copy, Debug, PartialEq, Eq, Structural)]
pub enum WaitTimeout {
    /// Return immediately if the resource is unavailable.
    NoWait,
    /// Wait for a number of milliseconds that is not zero.
    Milliseconds(u32),
    /// Wait without a deadline.
    Forever,
}

/// How a wait ended.
#[derive(Clone, Copy, Debug, PartialEq, Eq, Structural)]
pub enum WaitOutcome {
    Acquired,
    TimedOut,
}

/// The wait of a number of ticks, which are milliseconds.
pub open spec fn timeout_of(ticks: u32) -> WaitTimeout {
    if ticks == WAIT_FOREVER {
        WaitTimeout::Forever
    } else if ticks == 0 {
        WaitTimeout::NoWait
    } else {
        WaitTimeout::Milliseconds(ticks)
    }
}

pub fn wait_timeout(ticks: u32) -> (timeout: WaitTimeout)
    ensures
        timeout == timeout_of(ticks),
{
    if ticks == WAIT_FOREVER {
        WaitTimeout::Forever
    } else if ticks == 0 {
        WaitTimeout::NoWait
    } else {
        WaitTimeout::Milliseconds(ticks)
    }
}

/// The semaphore or mutex of a raw handle. Zero is none.
pub fn runtime_handle(raw: u32) -> (handle: Option<usize>)
    ensures
        handle == (if raw == 0 {
            None
        } else {
            Some(raw as usize)
        }),
{
    if raw == 0 {
        None
    } else {
        Some(raw as usize)
    }
}

/// Ticks of a number of milliseconds.
#[allow(non_snake_case)]
pub fn LOS_MS2Tick(milliseconds: u32) -> (ticks: u32)
    ensures
        ticks == milliseconds,
{
    milliseconds
}

/// Milliseconds of a number of ticks.
#[allow(non_snake_case)]
pub fn LOS_Tick2MS(ticks: u32) -> (milliseconds: u32)
    ensures
        milliseconds == ticks,
{
    ticks
}

/// What a task delay asks the runtime for.
#[derive(Clone, Copy, Debug, PartialEq, Eq, Structural)]
pub enum Delay {
    Yield,
    SleepMilliseconds(u32),
}

/// The delay of a number of ticks. It is reported as done whatever the runtime
/// answers.
pub fn task_delay(ticks: u32) -> (delay: Delay)
    ensures
        delay == (if ticks == 0 {
            Delay::Yield
        } else {
            Delay::SleepMilliseconds(ticks)
        }),
{
    if ticks == 0 {
        Delay::Yield
    } else {
        Delay::SleepMilliseconds(ticks)
    }
}

/// The status of a call that was made or was refused.
pub open spec fn status_of(done: bool) -> u32 {
    if done {
        OK
    } else {
        ERROR
    }
}

pub fn call_status(done: bool) -> (status: u32)
    ensures
        status == status_of(done),
{
    if done {
        OK
    } else {
        ERROR
    }
}

/// The status of a wait. Only an acquired resource is a success.
pub fn pend_status(outcome: Option<WaitOutcome>) -> (status: u32)
    ensures
        status == status_of(outcome == Some(WaitOutcome::Acquired)),
{
    match outcome {
        Some(WaitOutcome::Acquired) => OK,
        _ => ERROR,
    }
}

/// The status of a mutex wait, where the mutex is there.
pub open spec fn acquire_status(present: bool, acquired: bool, timeout: u32) -> i32 {
    if !present {
        OS_ERROR_PARAMETER
    } else if acquired {
        OS_OK
    } else if timeout == 0 {
        OS_ERROR_TIMEOUT
    } else {
        OS_ERROR
    }
}

pub fn mutex_acquire_status(present: bool, acquired: bool, timeout: u32) -> (status: i32)
    ensures
        status == acquire_status(present, acquired, timeout),
{
    if !present {
        OS_ERROR_PARAMETER
    } else if acquired {
        OS_OK
    } else if timeout == 0 {
        OS_ERROR_TIMEOUT
    } else {
        OS_ERROR
    }
}

/// The status of a release or a deletion, where the object is there.
pub fn object_status(present: bool, done: bool) -> (status: i32)
    ensures
        status == (if !present {
            OS_ERROR_PARAMETER
        } else if done {
            OS_OK
        } else {
            OS_ERROR
        }),
{
    if !present {
        OS_ERROR_PARAMETER
    } else if done {
        OS_OK
    } else {
        OS_ERROR
    }
}

/// The count and the item size of a new message queue, where both can be asked
/// for.
pub fn message_queue_request(count: u32, size: u32) -> (request: Option<(u16, u16)>)
    ensures
        request == (if count > 0xffff || size > 0xffff {
            None
        } else {
            Some((count as u16, size as u16))
        }),
{
    if count > 0xffff || size > 0xffff {
        return None;
    }
    Some((count as u16, size as u16))
}

/// The size of a message that is put into or taken from a queue, where the queue
/// and the message are there.
pub fn message_size(queue_present: bool, message_present: bool, item_size: u32) -> (result: Result<
    u32,
    i32,
>)
    ensures
        result == (if !queue_present || !message_present || item_size == 0 {
            Err::<u32, i32>(OS_ERROR_PARAMETER)
        } else {
            Ok(item_size)
        }),
{
    if !queue_present || !message_present {
        return Err(OS_ERROR_PARAMETER);
    }
    if item_size == 0 {
        return Err(OS_ERROR_PARAMETER);
    }
    Ok(item_size)
}

/// Heap counters of the shared arena.
#[derive(Clone, Copy, Debug, PartialEq, Eq, Structural)]
pub struct HeapMetrics {
    pub used_bytes: usize,
    pub free_bytes: usize,
    pub largest_free: usize,
    pub live_allocations: usize,
    pub peak_used_bytes: usize,
}

/// Heap counters as the archives read them.
#[derive(Clone, Copy, Debug, PartialEq, Eq, Structural)]
pub struct LosMemPoolStatus {
    pub total_used: u32,
    pub total_free: u32,
    pub max_free_node: u32,
    pub used_nodes: u32,
    pub free_nodes: u32,
    pub usage_waterline: u32,
}

/// The low word of a size.
pub open spec fn low_word(size: usize) -> int {
    size as int % 0x1_0000_0000
}

fn word(size: usize) -> (low: u32)
    ensures
        low == low_word(size),
{
    (size as u64 % 0x1_0000_0000) as u32
}

/// The status of the shared arena, seen as one pool.
pub fn memory_status(metrics: HeapMetrics) -> (status: LosMemPoolStatus)
    ensures
        status.total_used == low_word(metrics.used_bytes),
        status.total_free == low_word(metrics.free_bytes),
        status.max_free_node == low_word(metrics.largest_free),
        status.used_nodes == low_word(metrics.live_allocations),
        status.free_nodes == (if metrics.free_bytes != 0 {
            1int
        } else {
            0
        }),
        status.usage_waterline == low_word(metrics.peak_used_bytes),
{
    LosMemPoolStatus {
        total_used: word(metrics.used_bytes),
        total_free: word(metrics.free_bytes),
        max_free_node: word(metrics.largest_free),
        used_nodes: word(metrics.live_allocations),
        free_nodes: if metrics.free_bytes != 0 {
            1
        } else {
            0
        },
        usage_waterline: word(metrics.peak_used_bytes),
    }
}

/// Kilobytes of exchange memory that the controller is given.
pub fn dyn_get_em_mem_cfg() -> (kilobytes: u8)
    ensures
        kilobytes == 32,
{
    32
}

/// No log handler is installed.
pub fn log_oam_register_handler_callback(_kind: u8) -> (installed: bool)
    ensures
        !installed,
{
    false
}

/// There is no sample transport, so that no sample is sent.
pub fn diag_cmd_report_sample_data(_length: u32) -> (status: u32)
    ensures
        status == 0xffff_ffffu32,
{
    0xffff_ffff
}

/// Interrupt time is not counted.
pub fn global_isr_time_statistics_get() -> (time: u64)
    ensures
        time == 0,
{
    0
}

/// A tick is a millisecond; no ticks do not wait, all ones wait without an end, and a
/// delay of none yields.
pub proof fn law_ticks_are_milliseconds(
    ticks: u32,
    timeout: WaitTimeout,
    delay: Delay,
    converted: u32,
    back: u32,
)
    requires
        call_ensures(wait_timeout, (ticks,), timeout),
        call_ensures(task_delay, (ticks,), delay),
        call_ensures(LOS_MS2Tick, (ticks,), converted),
        call_ensures(LOS_Tick2MS, (converted,), back),
    ensures
        timeout is NoWait <==> ticks == 0,
        timeout is Forever <==> ticks == 0xffff_ffff,
        timeout matches WaitTimeout::Milliseconds(time) ==> time == ticks,
        delay is Yield <==> ticks == 0,
        delay matches Delay::SleepMilliseconds(time) ==> time == ticks,
        converted == ticks && back == ticks,
{
}

/// A call, a wait and an operation on an object succeed, with status zero, exactly when
/// they did what was asked; an object that is not there and a mutex that could not be had
/// at once have a status of their own.
pub proof fn law_statuses_tell_success(
    done: bool,
    present: bool,
    timeout: u32,
    outcome: Option<WaitOutcome>,
    called: u32,
    pended: u32,
    acquired: i32,
    object: i32,
    raw: u32,
    handle: Option<usize>,
)
    requires
        call_ensures(call_status, (done,), called),
        call_ensures(pend_status, (outcome,), pended),
        call_ensures(mutex_acquire_status, (present, done, timeout), acquired),
        call_ensures(object_status, (present, done), object),
        call_ensures(runtime_handle, (raw,), handle),
    ensures
        called == 0 <==> done,
        called == 1 <==> !done,
        pended == 0 <==> outcome == Some(WaitOutcome::Acquired),
        pended == 0 || pended == 1,
        acquired == 0 <==> present && done,
        acquired == -4 <==> !present,
        acquired == -2 <==> present && !done && timeout == 0,
        acquired == -1 <==> present && !done && timeout != 0,
        object == 0 <==> present && done,
        object == -4 <==> !present,
        object == -1 <==> present && !done,
        handle is None <==> raw == 0,
        handle matches Some(number) ==> number == raw,
{
}

/// A message queue can be asked for exactly with a count and a size of 16 bits each, and
/// a message is moved exactly where it and its queue are there and its items have a size.
pub proof fn law_messages_have_a_size(
    count: u32,
    size: u32,
    request: Option<(u16, u16)>,
    queue_present: bool,
    message_present: bool,
    result: Result<u32, i32>,
)
    requires
        call_ensures(message_queue_request, (count, size), request),
        call_ensures(message_size, (queue_present, message_present, size), result),
    ensures
        request is Some <==> count < 0x1_0000 && size < 0x1_0000,
        request matches Some((items, bytes)) ==> items == count && bytes == size,
        result is Ok <==> queue_present && message_present && size > 0,
        result matches Ok(bytes) ==> bytes == size,
        result matches Err(status) ==> status == -4,
{
}

/// The status of the pool tells each counter of the arena under its own name.
pub proof fn law_pool_status_tells_the_arena(metrics: HeapMetrics, status: LosMemPoolStatus)
    requires
        call_ensures(memory_status, (metrics,), status),
        metrics.used_bytes <= 0xffff_ffff && metrics.free_bytes <= 0xffff_ffff,
        metrics.largest_free <= 0xffff_ffff && metrics.live_allocations <= 0xffff_ffff
            && metrics.peak_used_bytes <= 0xffff_ffff,
    ensures
        status.total_used == metrics.used_bytes,
        status.total_free == metrics.free_bytes,
        status.max_free_node == metrics.largest_free,
        status.used_nodes == metrics.live_allocations,
        status.usage_waterline == metrics.peak_used_bytes,
        status.free_nodes == 1 <==> metrics.free_bytes > 0,
        status.free_nodes == 0 <==> metrics.free_bytes == 0,
{
}

} // verus!
