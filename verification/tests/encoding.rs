use token_deployer::encode::{encode_create_pool, encode_harvest, encode_open_position};
use token_deployer::encode::OpenPositionArgs;

const CREATE_POOL_OPCODE: [u8; 8] = [233, 146, 209, 142, 207, 104, 64, 188];
const OPEN_POSITION_OPCODE: [u8; 8] = [77, 184, 74, 214, 112, 86, 241, 199];
const HARVEST_OPCODE: [u8; 8] = [58, 127, 188, 62, 79, 82, 196, 96];

#[test]
fn create_pool_payload_is_32_bytes_with_opcode() {
    let sqrt_price: u128 = 0x0123_4567_89AB_CDEF_0011_2233_4455_6677;
    let data = encode_create_pool(sqrt_price);
    assert_eq!(data.len(), 32);
    assert_eq!(&data[0..8], &CREATE_POOL_OPCODE);
    assert_eq!(&data[8..24], &sqrt_price.to_le_bytes());
    assert_eq!(&data[24..32], &0u64.to_le_bytes());
}

#[test]
fn create_pool_payload_zero_price() {
    let data = encode_create_pool(0);
    assert_eq!(data.len(), 32);
    assert_eq!(&data[0..8], &CREATE_POOL_OPCODE);
    assert!(data[8..32].iter().all(|&b| b == 0));
}

#[test]
fn open_position_payload_layout() {
    let args = OpenPositionArgs {
        tick_lower_index: -10,
        tick_upper_index: 20,
        tick_array_lower_start_index: -60,
        tick_array_upper_start_index: 60,
        liquidity: 123_456_789_012_345_678_901_234_567u128,
        amount_max_a: 950_000,
        amount_max_b: 1_000_000_000,
        with_metadata: true,
        option_base_flag: 0,
        base_flag: false,
    };
    let data = encode_open_position(&args);
    assert_eq!(data.len(), 59);
    assert_eq!(&data[0..8], &OPEN_POSITION_OPCODE);
    assert_eq!(&data[8..12], &(-10i32).to_le_bytes());
    assert_eq!(&data[8..12], &[0xF6, 0xFF, 0xFF, 0xFF]);
    assert_eq!(&data[12..16], &20i32.to_le_bytes());
    assert_eq!(&data[16..20], &(-60i32).to_le_bytes());
    assert_eq!(&data[20..24], &60i32.to_le_bytes());
    assert_eq!(&data[24..40], &args.liquidity.to_le_bytes());
    assert_eq!(&data[40..48], &950_000u64.to_le_bytes());
    assert_eq!(&data[48..56], &1_000_000_000u64.to_le_bytes());
    assert_eq!(data[56], 1);
    assert_eq!(data[57], 0);
    assert_eq!(data[58], 0);
}

#[test]
fn open_position_payload_flag_bytes() {
    let args = OpenPositionArgs {
        tick_lower_index: 0,
        tick_upper_index: 0,
        tick_array_lower_start_index: 0,
        tick_array_upper_start_index: 0,
        liquidity: 0,
        amount_max_a: 0,
        amount_max_b: 0,
        with_metadata: false,
        option_base_flag: 7,
        base_flag: true,
    };
    let data = encode_open_position(&args);
    assert_eq!(data.len(), 59);
    assert_eq!(data[56], 0);
    assert_eq!(data[57], 7);
    assert_eq!(data[58], 1);
}

#[test]
fn opcodes_are_pairwise_distinct() {
    assert_ne!(CREATE_POOL_OPCODE, OPEN_POSITION_OPCODE);
    assert_ne!(CREATE_POOL_OPCODE, HARVEST_OPCODE);
    assert_ne!(OPEN_POSITION_OPCODE, HARVEST_OPCODE);
    let create_pool = encode_create_pool(0);
    let harvest = encode_harvest();
    assert_ne!(&create_pool[0..8], &harvest[0..8]);
}

#[test]
fn harvest_payload_is_opcode_then_32_zeros() {
    let data = encode_harvest();
    assert_eq!(data.len(), 40);
    assert_eq!(&data[0..8], &HARVEST_OPCODE);
    assert!(data[8..40].iter().all(|&b| b == 0));
}
