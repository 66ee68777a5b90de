//! Instruction payload encoder.
//!
//! Each payload is `opcode (8 bytes) || field || field || ...`, every numeric
//! field laid out little-endian at its natural width.  The opcode constants
//! are fixed by the external program's binary interface and are written here
//! as the 64-bit little-endian reading of the 8 opcode bytes.  Encoding never
//! fails: all fields have a fixed width and nothing is parsed.

use vstd::prelude::*;
use vstd::bytes::{
    spec_u128_to_le_bytes, spec_u32_to_le_bytes, spec_u64_from_le_bytes, spec_u64_to_le_bytes,
    u128_to_le_bytes, u32_to_le_bytes, u64_to_le_bytes,
};

verus! {

/// Opcode of the pool-creation operation, read little-endian.
pub const CREATE_POOL_TAG: u64 = 0xBC40_68CF_8ED1_92E9;

/// Opcode of the position-opening operation, read little-endian.
pub const OPEN_POSITION_TAG: u64 = 0xC7F1_5670_D64A_B84D;

/// Opcode of the liquidity-decrease operation the harvest narrows, read
/// little-endian.
pub const HARVEST_TAG: u64 = 0x60C4_524F_3EBC_7F3A;

/// The 8 opcode bytes that open a pool-creation payload.
pub open spec fn create_pool_opcode() -> Seq<u8> {
    spec_u64_to_le_bytes(CREATE_POOL_TAG)
}

/// The 8 opcode bytes that open a position-opening payload.
pub open spec fn open_position_opcode() -> Seq<u8> {
    spec_u64_to_le_bytes(OPEN_POSITION_TAG)
}

/// The 8 opcode bytes that open a harvest payload.
pub open spec fn harvest_opcode() -> Seq<u8> {
    spec_u64_to_le_bytes(HARVEST_TAG)
}

/// The single byte a flag is encoded as.
pub open spec fn bool_byte(b: bool) -> u8 {
    if b {
        1u8
    } else {
        0u8
    }
}

/// A signed 32-bit field, laid out as the little-endian bytes of its two's
/// complement image.
pub open spec fn spec_i32_to_le_bytes(x: i32) -> Seq<u8> {
    spec_u32_to_le_bytes(x as u32)
}

/// Arguments of the position-opening operation, in payload order.
#[derive(Clone, Copy, PartialEq, Eq, Structural, Debug)]
pub struct OpenPositionArgs {
    pub tick_lower_index: i32,
    pub tick_upper_index: i32,
    pub tick_array_lower_start_index: i32,
    pub tick_array_upper_start_index: i32,
    pub liquidity: u128,
    pub amount_max_a: u64,
    pub amount_max_b: u64,
    pub with_metadata: bool,
    pub option_base_flag: u8,
    pub base_flag: bool,
}

/// Full pool-creation payload: opcode, initial square-root price, and a start
/// time pinned to zero.
pub open spec fn create_pool_data(sqrt_price_x64: u128) -> Seq<u8> {
    create_pool_opcode() + spec_u128_to_le_bytes(sqrt_price_x64) + spec_u64_to_le_bytes(0u64)
}

/// Full position-opening payload: opcode followed by every argument at its
/// natural width.
pub open spec fn open_position_data(args: OpenPositionArgs) -> Seq<u8> {
    open_position_opcode() + spec_i32_to_le_bytes(args.tick_lower_index)
        + spec_i32_to_le_bytes(args.tick_upper_index)
        + spec_i32_to_le_bytes(args.tick_array_lower_start_index)
        + spec_i32_to_le_bytes(args.tick_array_upper_start_index)
        + spec_u128_to_le_bytes(args.liquidity) + spec_u64_to_le_bytes(args.amount_max_a)
        + spec_u64_to_le_bytes(args.amount_max_b)
        + seq![bool_byte(args.with_metadata), args.option_base_flag, bool_byte(args.base_flag)]
}

/// Full harvest payload: opcode followed by 32 zero bytes.  The zeros are the
/// liquidity amount and both withdrawal maxima of the wider external
/// operation, pinned to zero by construction: a harvest collects fees only
/// and must never move principal, so these fields are not configurable.
pub open spec fn harvest_data() -> Seq<u8> {
    harvest_opcode() + Seq::new(32, |i: int| 0u8)
}

/// Law: the three opcodes are pairwise distinct, so an encoded payload names
/// exactly one operation at the external program boundary.
pub proof fn lemma_opcodes_distinct()
    ensures
        create_pool_opcode() != open_position_opcode(),
        create_pool_opcode() != harvest_opcode(),
        open_position_opcode() != harvest_opcode(),
{
    vstd::bytes::lemma_auto_spec_u64_to_from_le_bytes();
    assert(spec_u64_from_le_bytes(create_pool_opcode()) == CREATE_POOL_TAG);
    assert(spec_u64_from_le_bytes(open_position_opcode()) == OPEN_POSITION_TAG);
    assert(spec_u64_from_le_bytes(harvest_opcode()) == HARVEST_TAG);
}

/// Encodes the pool-creation payload.
pub fn encode_create_pool(sqrt_price_x64: u128) -> (data: Vec<u8>)
    ensures
        data@ == create_pool_data(sqrt_price_x64),
        data@.len() == 32,
        data@.subrange(0, 8) == create_pool_opcode(),
{
    let mut data = u64_to_le_bytes(CREATE_POOL_TAG);
    let mut price = u128_to_le_bytes(sqrt_price_x64);
    let mut start_time = u64_to_le_bytes(0u64);
    data.append(&mut price);
    data.append(&mut start_time);
    proof {
        assert(data@ =~= create_pool_data(sqrt_price_x64));
        assert(data@.subrange(0, 8) =~= create_pool_opcode());
    }
    data
}

/// Encodes the position-opening payload.
pub fn encode_open_position(args: &OpenPositionArgs) -> (data: Vec<u8>)
    ensures
        data@ == open_position_data(*args),
        data@.len() == 59,
        data@.subrange(0, 8) == open_position_opcode(),
{
    let mut data = u64_to_le_bytes(OPEN_POSITION_TAG);
    let mut part = u32_to_le_bytes(#[verifier::truncate] (args.tick_lower_index as u32));
    data.append(&mut part);
    let mut part = u32_to_le_bytes(#[verifier::truncate] (args.tick_upper_index as u32));
    data.append(&mut part);
    let mut part = u32_to_le_bytes(#[verifier::truncate] (args.tick_array_lower_start_index as u32));
    data.append(&mut part);
    let mut part = u32_to_le_bytes(#[verifier::truncate] (args.tick_array_upper_start_index as u32));
    data.append(&mut part);
    let mut part = u128_to_le_bytes(args.liquidity);
    data.append(&mut part);
    let mut part = u64_to_le_bytes(args.amount_max_a);
    data.append(&mut part);
    let mut part = u64_to_le_bytes(args.amount_max_b);
    data.append(&mut part);
    data.push(if args.with_metadata { 1 } else { 0 });
    data.push(args.option_base_flag);
    data.push(if args.base_flag { 1 } else { 0 });
    proof {
        assert(data@ =~= open_position_data(*args));
        assert(data@.subrange(0, 8) =~= open_position_opcode());
    }
    data
}

/// Encodes the harvest payload.
pub fn encode_harvest() -> (data: Vec<u8>)
    ensures
        data@ == harvest_data(),
        data@.len() == 40,
        data@.subrange(0, 8) == harvest_opcode(),
        forall|i: int| 8 <= i < 40 ==> data@[i] == 0,
{
    let mut data = u64_to_le_bytes(HARVEST_TAG);
    let mut i: usize = 0;
    while i < 32
        invariant
            i <= 32,
            data@ =~= harvest_opcode() + Seq::new(i as nat, |j: int| 0u8),
        decreases 32 - i,
    {
        data.push(0u8);
        i = i + 1;
        proof {
            assert(data@ =~= harvest_opcode() + Seq::new(i as nat, |j: int| 0u8));
        }
    }
    proof {
        assert(data@ =~= harvest_data());
        assert(data@.subrange(0, 8) =~= harvest_opcode());
    }
    data
}

} // verus!
