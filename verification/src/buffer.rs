//! Buffers and the memory behind them: which memory type a buffer is bound
//! to, and how data is copied from one buffer to another.

use vstd::prelude::*;
use crate::command_pool::{Command, CommandBufferAllocateInfo};
use crate::constants::{
    COMMAND_BUFFER_LEVEL_PRIMARY, COMMAND_BUFFER_USAGE_ONE_TIME_SUBMIT, MAX_MEMORY_TYPES,
    SHARING_MODE_EXCLUSIVE,
};
use crate::queue_family::flags_contain;

verus! {

/// The parameters a buffer is created with.
#[derive(Clone, Copy, Debug, PartialEq, Eq, Structural)]
pub struct BufferCreateInfo {
    pub size: u64,
    pub usage: u32,
    pub sharing_mode: i32,
}

/// What the device demands of the memory behind a buffer.
#[derive(Clone, Copy, Debug, PartialEq, Eq, Structural)]
pub struct MemoryRequirements {
    pub size: u64,
    pub alignment: u64,
    /// Bit `i` is set where memory type `i` can back the buffer.
    pub memory_type_bits: u32,
}

/// The parameters device memory is allocated with.
#[derive(Clone, Copy, Debug, PartialEq, Eq, Structural)]
pub struct MemoryAllocateInfo {
    pub allocation_size: u64,
    pub memory_type_index: u32,
}

/// Why a buffer cannot be set up.
#[derive(Clone, Copy, Debug, PartialEq, Eq, Structural)]
pub enum BufferError {
    /// No memory type is both allowed for the buffer and has the properties asked for.
    NoSuitableMemoryType,
    /// The size of the data does not fit in 64 bits.
    SizeOverflow,
}

/// A one-off copy between two buffers: the allocation of its command buffer
/// and the commands recorded into it. The copy is submitted without a fence
/// and the queue is drained before the command buffer is freed.
pub struct CopyPlan {
    pub allocate_info: CommandBufferAllocateInfo,
    pub commands: Vec<Command>,
}

/// Memory type `index` is allowed by `type_filter` and has all of
/// `required_properties`.
pub open spec fn memory_type_suits(
    type_filter: u32,
    required_properties: u32,
    memory_types: Seq<u32>,
    index: int,
) -> bool {
    &&& 0 <= index < memory_types.len()
    &&& index < MAX_MEMORY_TYPES
    &&& type_filter & (1u32 << (index as u32)) != 0
    &&& flags_contain(memory_types[index], required_properties)
}

/// The commands of a copy of `size` bytes from the start of one buffer to the
/// start of another.
pub open spec fn copy_commands(src_buffer: u64, dst_buffer: u64, size: u64) -> Seq<Command> {
    seq![
        Command::Begin { flags: COMMAND_BUFFER_USAGE_ONE_TIME_SUBMIT },
        Command::CopyBuffer { src_buffer, dst_buffer, src_offset: 0, dst_offset: 0, size },
        Command::End,
    ]
}

/// Calls `ash::vk::MemoryPropertyFlags::contains`, which tells whether every
/// bit of the second flag set is set in the first.
#[verifier::external_body]
fn memory_flags_contain(flags: u32, wanted: u32) -> (contained: bool)
    ensures
        contained == flags_contain(flags, wanted),
{
    ash::vk::MemoryPropertyFlags::from_raw(flags).contains(
        ash::vk::MemoryPropertyFlags::from_raw(wanted),
    )
}

/// Describes an exclusively owned buffer of `size` bytes.
pub fn create_buffer(size: u64, usage: u32) -> (info: BufferCreateInfo)
    ensures
        info == (BufferCreateInfo { size, usage, sharing_mode: SHARING_MODE_EXCLUSIVE }),
{
    BufferCreateInfo { size, usage, sharing_mode: SHARING_MODE_EXCLUSIVE }
}

/// Finds the first memory type that `type_filter` allows and that has all of
/// `required_properties`. `memory_types` holds the property flags of the
/// device's memory types in order.
pub fn find_mem_type(type_filter: u32, required_properties: u32, memory_types: &[u32]) -> (found:
    Option<u32>)
    ensures
        match found {
            Some(index) => {
                &&& memory_type_suits(type_filter, required_properties, memory_types@, index as int)
                &&& forall|j: int|
                    0 <= j < index ==> !memory_type_suits(
                        type_filter,
                        required_properties,
                        memory_types@,
                        j,
                    )
            },
            None => forall|j: int|
                !memory_type_suits(type_filter, required_properties, memory_types@, j),
        },
{
    let mut i: u32 = 0;
    while i < MAX_MEMORY_TYPES && (i as usize) < memory_types.len()
        invariant
            i <= MAX_MEMORY_TYPES,
            i <= memory_types@.len(),
            forall|j: int|
                0 <= j < i ==> !memory_type_suits(
                    type_filter,
                    required_properties,
                    memory_types@,
                    j,
                ),
        decreases MAX_MEMORY_TYPES - i,
    {
        if type_filter & (1u32 << i) != 0 && memory_flags_contain(
            memory_types[i as usize],
            required_properties,
        ) {
            return Some(i);
        }
        i += 1;
    }
    None
}

/// Describes the allocation behind a buffer with `requirements`. Refused when
/// no memory type suits.
pub fn allocate_memory(
    requirements: &MemoryRequirements,
    required_properties: u32,
    memory_types: &[u32],
) -> (info: Result<MemoryAllocateInfo, BufferError>)
    ensures
        match info {
            Ok(allocation) => {
                &&& allocation.allocation_size == requirements.size
                &&& memory_type_suits(
                    requirements.memory_type_bits,
                    required_properties,
                    memory_types@,
                    allocation.memory_type_index as int,
                )
                &&& forall|j: int|
                    0 <= j < allocation.memory_type_index ==> !memory_type_suits(
                        requirements.memory_type_bits,
                        required_properties,
                        memory_types@,
                        j,
                    )
            },
            Err(error) => {
                &&& error == BufferError::NoSuitableMemoryType
                &&& forall|j: int|
                    !memory_type_suits(
                        requirements.memory_type_bits,
                        required_properties,
                        memory_types@,
                        j,
                    )
            },
        },
{
    match find_mem_type(requirements.memory_type_bits, required_properties, memory_types) {
        Some(memory_type_index) => Ok(
            MemoryAllocateInfo { allocation_size: requirements.size, memory_type_index },
        ),
        None => Err(BufferError::NoSuitableMemoryType),
    }
}

/// Describes the one-off copy of `size` bytes from `src_buffer` to `dst_buffer`.
pub fn copy_buffer(command_pool: u64, src_buffer: u64, dst_buffer: u64, size: u64) -> (plan:
    CopyPlan)
    ensures
        plan.allocate_info == (CommandBufferAllocateInfo {
            command_pool,
            level: COMMAND_BUFFER_LEVEL_PRIMARY,
            command_buffer_count: 1,
        }),
        plan.commands@ == copy_commands(src_buffer, dst_buffer, size),
{
    let mut commands: Vec<Command> = Vec::new();
    commands.push(Command::Begin { flags: COMMAND_BUFFER_USAGE_ONE_TIME_SUBMIT });
    commands.push(
        Command::CopyBuffer { src_buffer, dst_buffer, src_offset: 0, dst_offset: 0, size },
    );
    commands.push(Command::End);
    assert(commands@ =~= copy_commands(src_buffer, dst_buffer, size));
    CopyPlan {
        allocate_info: CommandBufferAllocateInfo {
            command_pool,
            level: COMMAND_BUFFER_LEVEL_PRIMARY,
            command_buffer_count: 1,
        },
        commands,
    }
}

} // verus!
