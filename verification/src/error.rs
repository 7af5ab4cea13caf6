//! Numeric codes of vendor, runtime and task-admission failures.

use vstd::prelude::*;

verus! {

/// Vendor `errcode_t` (0 = success).
pub type Errcode = u32;

/// `ERRCODE_SUCC`.
pub const ERRCODE_SUCC: Errcode = 0;

/// A non-zero vendor error code.
#[derive(Debug, Clone, Copy, PartialEq, Eq, Structural)]
pub struct WifiError(pub Errcode);

/// Map an `errcode_t` to a `Result`: zero is success, any other code is kept.
pub fn check(code: Errcode) -> (result: Result<(), WifiError>)
    ensures
        result == (if code == 0 { Ok::<(), WifiError>(()) } else { Err(WifiError(code)) }),
{
    if code == ERRCODE_SUCC {
        Ok(())
    } else {
        Err(WifiError(code))
    }
}

/// Failure of the installed radio runtime.
#[derive(Debug, Clone, Copy, PartialEq, Eq, Structural)]
pub enum RuntimeError {
    NotInstalled,
    AlreadyInstalled,
    IncompatibleContract,
    IncompatibleExecutionProfile,
    ResourceExhausted,
    NoTaskSlots,
    InvalidHandle,
    InvalidContext,
    TimedOut,
    Runtime,
}

/// Failure to satisfy task-resource admission.
#[derive(Debug, Clone, Copy, PartialEq, Eq, Structural)]
pub enum TaskAdmissionError {
    /// Runtime discovery or capacity reporting failed.
    Runtime(RuntimeError),
    /// Not enough free dynamic task slots.
    InsufficientTaskSlots { required: usize, available: usize },
    /// Not every requested task stack could be reserved, in bytes.
    InsufficientTaskStackMemory { required: usize, available: usize },
    /// One owned group could not reserve all of its slots.
    InsufficientTaskGroupSlots { owner: u32, required: usize, available: usize },
    /// One owned group could not reserve every requested stack, in bytes.
    InsufficientTaskGroupStackMemory {
        owner: u32,
        required: usize,
        available: usize,
        largest_contiguous: usize,
    },
}

/// The number of a runtime failure.
pub open spec fn runtime_number(error: RuntimeError) -> u32 {
    match error {
        RuntimeError::NotInstalled => 1,
        RuntimeError::AlreadyInstalled => 2,
        RuntimeError::ResourceExhausted => 3,
        RuntimeError::NoTaskSlots => 4,
        RuntimeError::InvalidHandle => 5,
        RuntimeError::InvalidContext => 6,
        RuntimeError::TimedOut => 7,
        RuntimeError::Runtime => 8,
        RuntimeError::IncompatibleContract => 9,
        RuntimeError::IncompatibleExecutionProfile => 10,
    }
}

pub fn runtime_code(error: RuntimeError) -> (code: u32)
    ensures
        code == runtime_number(error),
{
    match error {
        RuntimeError::NotInstalled => 1,
        RuntimeError::AlreadyInstalled => 2,
        RuntimeError::ResourceExhausted => 3,
        RuntimeError::NoTaskSlots => 4,
        RuntimeError::InvalidHandle => 5,
        RuntimeError::InvalidContext => 6,
        RuntimeError::TimedOut => 7,
        RuntimeError::Runtime => 8,
        RuntimeError::IncompatibleContract => 9,
        RuntimeError::IncompatibleExecutionProfile => 10,
    }
}

/// Every runtime failure has a number of its own, and none is zero.
pub proof fn law_runtime_numbers_are_distinct(left: RuntimeError, right: RuntimeError)
    ensures
        runtime_number(left) != 0,
        runtime_number(left) == runtime_number(right) <==> left == right,
{
}

/// The smaller of a value and a field's largest value.
pub open spec fn capped(value: int, cap: int) -> int {
    if value <= cap {
        value
    } else {
        cap
    }
}

/// The packed number of an admission failure. Each field stops at its largest
/// value instead of spilling into its neighbour; the highest bit of a stack
/// requirement in KiB coincides with the bit that marks a stack failure.
pub open spec fn admission_number(error: TaskAdmissionError) -> int {
    match error {
        TaskAdmissionError::Runtime(runtime) => 0x1_0000 + runtime_number(runtime),
        TaskAdmissionError::InsufficientTaskSlots { required, available } => 0x100 * capped(
            required as int,
            0xff,
        ) + capped(available as int, 0xff),
        TaskAdmissionError::InsufficientTaskStackMemory { required, available } => 0x8000_0000
            + 0x1_0000 * (capped(required as int / 1024, 0xffff) % 0x8000) + capped(
            available as int / 1024,
            0xffff,
        ),
        TaskAdmissionError::InsufficientTaskGroupSlots { owner, required, available } => 0x4000_0000
            + 0x1_0000 * capped(owner as int, 0xff) + 0x100 * capped(required as int, 0xff)
            + capped(available as int, 0xff),
        TaskAdmissionError::InsufficientTaskGroupStackMemory { owner, required, available, .. } =>
        0xc000_0000 + 0x1_0000 * capped(owner as int, 0xff) + 0x100 * capped(
            required as int / 1024,
            0xff,
        ) + capped(available as int / 1024, 0xff),
    }
}

fn cap_to_byte(value: usize) -> (byte: u32)
    ensures
        byte == capped(value as int, 0xff),
{
    if value <= 0xff {
        value as u32
    } else {
        0xff
    }
}

fn cap_to_half(value: usize) -> (half: u32)
    ensures
        half == capped(value as int, 0xffff),
{
    if value <= 0xffff {
        value as u32
    } else {
        0xffff
    }
}

/// Pack an admission failure into one number.
pub fn task_admission_code(error: TaskAdmissionError) -> (code: u32)
    ensures
        code == admission_number(error),
{
    match error {
        TaskAdmissionError::Runtime(runtime) => {
            let code: u32 = runtime_code(runtime);
            assert(code <= 10 ==> 0x1_0000u32 | code == 0x1_0000 + code) by (bit_vector);
            0x1_0000 | code
        },
        TaskAdmissionError::InsufficientTaskSlots { required, available } => {
            let required: u32 = cap_to_byte(required);
            let available: u32 = cap_to_byte(available);
            assert(required <= 0xff && available <= 0xff ==> (required << 8) | available == 0x100
                * required + available) by (bit_vector);
            (required << 8) | available
        },
        TaskAdmissionError::InsufficientTaskStackMemory { required, available } => {
            let required: u32 = cap_to_half(required / 1024);
            let available: u32 = cap_to_half(available / 1024);
            assert(required <= 0xffff && available <= 0xffff ==> 0x8000_0000u32 | (required << 16)
                | available == 0x8000_0000 + 0x1_0000 * (required % 0x8000) + available)
                by (bit_vector);
            0x8000_0000 | (required << 16) | available
        },
        TaskAdmissionError::InsufficientTaskGroupSlots { owner, required, available } => {
            let owner: u32 = if owner <= 0xff { owner } else { 0xff };
            let required: u32 = cap_to_byte(required);
            let available: u32 = cap_to_byte(available);
            assert(owner <= 0xff && required <= 0xff && available <= 0xff ==> 0x4000_0000u32 | (owner
                << 16) | (required << 8) | available == 0x4000_0000 + 0x1_0000 * owner + 0x100
                * required + available) by (bit_vector);
            0x4000_0000 | (owner << 16) | (required << 8) | available
        },
        TaskAdmissionError::InsufficientTaskGroupStackMemory { owner, required, available, .. } => {
            let owner: u32 = if owner <= 0xff { owner } else { 0xff };
            let required: u32 = cap_to_byte(required / 1024);
            let available: u32 = cap_to_byte(available / 1024);
            assert(owner <= 0xff && required <= 0xff && available <= 0xff ==> 0xc000_0000u32 | (owner
                << 16) | (required << 8) | available == 0xc000_0000 + 0x1_0000 * owner + 0x100
                * required + available) by (bit_vector);
            0xc000_0000 | (owner << 16) | (required << 8) | available
        },
    }
}

/// Below the caps, the number of a slot shortage gives both counts back.
pub proof fn law_slot_shortage_is_lossless(required: usize, available: usize)
    requires
        required <= 0xff,
        available <= 0xff,
    ensures
        ({
            let number = admission_number(
                TaskAdmissionError::InsufficientTaskSlots { required, available },
            );
            number / 0x100 == required && number % 0x100 == available
        }),
{
}

/// The range in which the number of each admission failure lies: slot shortages,
/// runtime failures and group slot shortages lie in ranges of their own, and
/// both stack shortages have the highest bit set.
pub proof fn law_admission_number_ranges(error: TaskAdmissionError)
    ensures
        match error {
            TaskAdmissionError::InsufficientTaskSlots { .. } => 0 <= admission_number(error)
                < 0x1_0000,
            TaskAdmissionError::Runtime(_) => 0x1_0000 < admission_number(error) < 0x1_0010,
            TaskAdmissionError::InsufficientTaskGroupSlots { .. } => 0x4000_0000
                <= admission_number(error) < 0x4100_0000,
            TaskAdmissionError::InsufficientTaskStackMemory { .. } => 0x8000_0000
                <= admission_number(error) <= 0xffff_ffff,
            TaskAdmissionError::InsufficientTaskGroupStackMemory { .. } => 0xc000_0000
                <= admission_number(error) < 0xc100_0000,
        },
{
}

/// A vendor call succeeded exactly with code zero; any other code is kept.
pub proof fn law_vendor_code_is_kept(code: Errcode, result: Result<(), WifiError>)
    requires
        call_ensures(check, (code,), result),
    ensures
        result is Ok <==> code == 0,
        result matches Err(error) ==> error.0 == code,
{
}

/// The numbers of the runtime failures are fixed.
pub proof fn law_runtime_numbers_are_fixed(error: RuntimeError, code: u32)
    requires
        call_ensures(runtime_code, (error,), code),
    ensures
        code == 1 <==> error is NotInstalled,
        code == 2 <==> error is AlreadyInstalled,
        code == 3 <==> error is ResourceExhausted,
        code == 4 <==> error is NoTaskSlots,
        code == 5 <==> error is InvalidHandle,
        code == 6 <==> error is InvalidContext,
        code == 7 <==> error is TimedOut,
        code == 8 <==> error is Runtime,
        code == 9 <==> error is IncompatibleContract,
        code == 10 <==> error is IncompatibleExecutionProfile,
{
}

/// Two bytes, or a byte and what stands above it, can be told apart.
proof fn lemma_bytes_are_told_apart(high: int, middle: int, low: int)
    requires
        0 <= high,
        0 <= middle <= 0xff,
        0 <= low <= 0xff,
    ensures
        (0x1_0000 * high + 0x100 * middle + low) / 0x1_0000 == high,
        (0x1_0000 * high + 0x100 * middle + low) / 0x100 % 0x100 == middle,
        (0x1_0000 * high + 0x100 * middle + low) % 0x100 == low,
{
    assert((0x1_0000 * high + 0x100 * middle + low) / 0x100 == 0x100 * high + middle);
}

/// The number of a slot shortage holds both counts, each in a byte and at most 255.
pub proof fn law_slot_shortage_can_be_taken_apart(required: usize, available: usize, code: u32)
    requires
        call_ensures(
            task_admission_code,
            (TaskAdmissionError::InsufficientTaskSlots { required, available },),
            code,
        ),
    ensures
        code < 0x1_0000,
        code as int / 0x100 == (if required <= 255 {
            required as int
        } else {
            255
        }),
        code as int % 0x100 == (if available <= 255 {
            available as int
        } else {
            255
        }),
{
    lemma_bytes_are_told_apart(0, capped(required as int, 0xff), capped(available as int, 0xff));
}

/// The number of a stack shortage has the highest bit set, and holds both sizes in
/// KiB, the available one at most 65535.
pub proof fn law_stack_shortage_can_be_taken_apart(required: usize, available: usize, code: u32)
    requires
        call_ensures(
            task_admission_code,
            (TaskAdmissionError::InsufficientTaskStackMemory { required, available },),
            code,
        ),
    ensures
        code >= 0x8000_0000,
        required < 0x200_0000 ==> (code - 0x8000_0000) / 0x1_0000 == required as int / 1024,
        code as int % 0x1_0000 == (if available as int / 1024 <= 0xffff {
            available as int / 1024
        } else {
            0xffff
        }),
{
}

/// The number of a group's slot shortage has the second highest bit set alone, and
/// holds the owner and both counts, each in a byte and at most 255.
pub proof fn law_group_slot_shortage_can_be_taken_apart(
    owner: u32,
    required: usize,
    available: usize,
    code: u32,
)
    requires
        call_ensures(
            task_admission_code,
            (TaskAdmissionError::InsufficientTaskGroupSlots { owner, required, available },),
            code,
        ),
    ensures
        0x4000_0000 <= code < 0x8000_0000,
        code as int / 0x1_0000 - 0x4000 == (if owner <= 255 {
            owner as int
        } else {
            255
        }),
        code as int / 0x100 % 0x100 == (if required <= 255 {
            required as int
        } else {
            255
        }),
        code as int % 0x100 == (if available <= 255 {
            available as int
        } else {
            255
        }),
{
    lemma_bytes_are_told_apart(
        0x4000 + capped(owner as int, 0xff),
        capped(required as int, 0xff),
        capped(available as int, 0xff),
    );
}

/// The number of a group's stack shortage has the two highest bits set, and holds the
/// owner and both sizes in KiB, each in a byte and at most 255.
pub proof fn law_group_stack_shortage_can_be_taken_apart(
    owner: u32,
    required: usize,
    available: usize,
    largest_contiguous: usize,
    code: u32,
)
    requires
        call_ensures(
            task_admission_code,
            (
                TaskAdmissionError::InsufficientTaskGroupStackMemory {
                    owner,
                    required,
                    available,
                    largest_contiguous,
                },
            ),
            code,
        ),
    ensures
        code >= 0xc000_0000,
        code as int / 0x1_0000 - 0xc000 == (if owner <= 255 {
            owner as int
        } else {
            255
        }),
        code as int / 0x100 % 0x100 == (if required as int / 1024 <= 255 {
            required as int / 1024
        } else {
            255
        }),
        code as int % 0x100 == (if available as int / 1024 <= 255 {
            available as int / 1024
        } else {
            255
        }),
{
    lemma_bytes_are_told_apart(
        0xc000 + capped(owner as int, 0xff),
        capped(required as int / 1024, 0xff),
        capped(available as int / 1024, 0xff),
    );
}

/// A runtime failure during admission is marked above its own number.
pub proof fn law_runtime_admission_keeps_its_number(error: RuntimeError, number: u32, code: u32)
    requires
        call_ensures(runtime_code, (error,), number),
        call_ensures(task_admission_code, (TaskAdmissionError::Runtime(error),), code),
    ensures
        code - 0x1_0000 == number,
{
}

} // verus!
