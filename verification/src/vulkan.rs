//! The calls this library makes into `vulkanalia` that need no device: SPIR-V
//! bytecode handling, version packing and the bit values of the Vulkan flags
//! that the decision logic combines.  The functions marked `external_body`
//! are trusted: each contract restates what the `vulkanalia` source shows.
use vstd::prelude::*;
use vulkanalia::vk;

verus! {

/// `vulkanalia::bytecode::Bytecode`: a 4-byte aligned copy of a SPIR-V module.
#[verifier::external_type_specification]
#[verifier::external_body]
pub struct ExBytecode(vulkanalia::bytecode::Bytecode);

/// The 32-bit words that a `Bytecode` holds (what `Bytecode::code` hands out).
pub uninterp spec fn bytecode_words(code: vulkanalia::bytecode::Bytecode) -> Seq<u32>;

/// Why a SPIR-V byte buffer could not be turned into bytecode.
#[derive(Clone, Copy, Debug, PartialEq, Eq, Structural)]
pub enum ShaderCodeError {
    /// The aligned buffer could not be allocated.
    Alloc,
    /// The buffer was empty or its length was not a multiple of 4.
    Length(usize),
}

/// Packs four bytes, least significant first, into a word.
pub open spec fn word_le(b0: u8, b1: u8, b2: u8, b3: u8) -> u32 {
    (b0 as int + 0x100 * b1 as int + 0x10000 * b2 as int + 0x1000000 * b3 as int) as u32
}

/// The words that `bytes` holds when read four at a time in little-endian order.
pub open spec fn words_le(bytes: Seq<u8>) -> Seq<u32> {
    Seq::new(bytes.len() / 4, |i: int| word_le(bytes[4 * i], bytes[4 * i + 1], bytes[4 * i + 2], bytes[4 * i + 3]))
}

/// The words that `bytes` holds when read four at a time in big-endian order.
pub open spec fn words_be(bytes: Seq<u8>) -> Seq<u32> {
    Seq::new(bytes.len() / 4, |i: int| word_le(bytes[4 * i + 3], bytes[4 * i + 2], bytes[4 * i + 1], bytes[4 * i]))
}

/// `Bytecode::new`: rejects an empty buffer or one whose length is not a
/// multiple of 4 with `Length(len)`; otherwise it either fails to allocate
/// (`Alloc`) or copies the bytes into an aligned buffer whose words are the
/// bytes read in the machine's byte order.
#[verifier::external_body]
pub(crate) fn bytecode_new(bytes: &[u8]) -> (r: Result<vulkanalia::bytecode::Bytecode, ShaderCodeError>)
    ensures
        (bytes@.len() == 0 || bytes@.len() % 4 != 0) <==> r matches Err(ShaderCodeError::Length(_)),
        r matches Err(ShaderCodeError::Length(n)) ==> n == bytes@.len(),
        r matches Ok(code) ==> bytecode_words(code) == words_le(bytes@) || bytecode_words(code) == words_be(bytes@),
        r matches Ok(code) ==> bytecode_words(code).len() * 4 == bytes@.len(),
{
    match vulkanalia::bytecode::Bytecode::new(bytes) {
        Ok(code) => Ok(code),
        Err(vulkanalia::bytecode::BytecodeError::Alloc) => Err(ShaderCodeError::Alloc),
        Err(vulkanalia::bytecode::BytecodeError::Length(n)) => Err(ShaderCodeError::Length(n)),
    }
}

/// `Bytecode::code`: the words of the bytecode.
#[verifier::external_body]
pub(crate) fn bytecode_code(code: &vulkanalia::bytecode::Bytecode) -> (r: &[u32])
    ensures
        r@ == bytecode_words(*code),
{
    code.code()
}

/// `Bytecode::code_size`: the length of the bytecode in bytes, four per word.
#[verifier::external_body]
pub(crate) fn bytecode_code_size(code: &vulkanalia::bytecode::Bytecode) -> (r: usize)
    ensures
        r == bytecode_words(*code).len() * 4,
{
    code.code_size()
}

/// `vk::make_version`: `(major << 22) | (minor << 12) | patch`.
#[verifier::external_body]
pub(crate) fn make_version(major: u32, minor: u32, patch: u32) -> (r: u32)
    ensures
        r == (major << 22u32) | (minor << 12u32) | patch,
{
    vk::make_version(major, minor, patch)
}

/// `vk::QueueFlags::bits` of `COMPUTE`, declared as `1 << 1`.
#[verifier::external_body]
pub(crate) fn queue_compute_bit() -> (r: u32)
    ensures
        r == 2,
{
    vk::QueueFlags::COMPUTE.bits()
}

/// `vk::MemoryPropertyFlags::bits` of `DEVICE_LOCAL`, declared as `1`.
#[verifier::external_body]
pub(crate) fn memory_device_local_bit() -> (r: u32)
    ensures
        r == 1,
{
    vk::MemoryPropertyFlags::DEVICE_LOCAL.bits()
}

/// `vk::MemoryPropertyFlags::bits` of `HOST_VISIBLE`, declared as `1 << 1`.
#[verifier::external_body]
pub(crate) fn memory_host_visible_bit() -> (r: u32)
    ensures
        r == 2,
{
    vk::MemoryPropertyFlags::HOST_VISIBLE.bits()
}

/// `vk::BufferUsageFlags::bits` of `TRANSFER_SRC`, declared as `1`.
#[verifier::external_body]
pub(crate) fn usage_transfer_src_bit() -> (r: u32)
    ensures
        r == 1,
{
    vk::BufferUsageFlags::TRANSFER_SRC.bits()
}

/// `vk::BufferUsageFlags::bits` of `TRANSFER_DST`, declared as `1 << 1`.
#[verifier::external_body]
pub(crate) fn usage_transfer_dst_bit() -> (r: u32)
    ensures
        r == 2,
{
    vk::BufferUsageFlags::TRANSFER_DST.bits()
}

/// `vk::BufferUsageFlags::bits` of `STORAGE_BUFFER`, declared as `1 << 5`.
#[verifier::external_body]
pub(crate) fn usage_storage_buffer_bit() -> (r: u32)
    ensures
        r == 32,
{
    vk::BufferUsageFlags::STORAGE_BUFFER.bits()
}

/// `vk::DebugUtilsMessageSeverityFlagsEXT::bits` of `INFO`, declared as `1 << 4`.
#[verifier::external_body]
pub(crate) fn severity_info_bit() -> (r: u32)
    ensures
        r == 0x10,
{
    vk::DebugUtilsMessageSeverityFlagsEXT::INFO.bits()
}

/// `vk::DebugUtilsMessageSeverityFlagsEXT::bits` of `WARNING`, declared as `1 << 8`.
#[verifier::external_body]
pub(crate) fn severity_warning_bit() -> (r: u32)
    ensures
        r == 0x100,
{
    vk::DebugUtilsMessageSeverityFlagsEXT::WARNING.bits()
}

/// `vk::DebugUtilsMessageSeverityFlagsEXT::bits` of `ERROR`, declared as `1 << 12`.
#[verifier::external_body]
pub(crate) fn severity_error_bit() -> (r: u32)
    ensures
        r == 0x1000,
{
    vk::DebugUtilsMessageSeverityFlagsEXT::ERROR.bits()
}

} // verus!
