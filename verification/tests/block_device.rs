use rvsim::bus::{Addressable, BusError, InterruptLine};
use rvsim::devices::block_device::BlockDevice;

const BLOCK_BASE: u64 = 0x7000_0000;
const BLOCK_BYTES: usize = 16;

#[test]
fn read_command_copies_block_into_staging_window() {
    let mut device = BlockDevice::new(BLOCK_BASE, 4, BLOCK_BYTES, 2);
    device
        .write_block_contents(2, &block_bytes([11, 22, 33, 44]))
        .expect("block image should load");

    write_u32(&mut device, BLOCK_BASE + BlockDevice::BLOCK_INDEX_OFFSET, 2);
    write_u32(
        &mut device,
        BLOCK_BASE + BlockDevice::CONTROL_OFFSET,
        BlockDevice::CONTROL_START_READ | BlockDevice::CONTROL_IRQ_ENABLE,
    );

    assert_eq!(
        read_u32(&mut device, BLOCK_BASE + BlockDevice::CONTROL_OFFSET)
            & BlockDevice::STATUS_BUSY,
        BlockDevice::STATUS_BUSY
    );
    assert_eq!(device.pending_interrupt(), None);

    device.tick();
    assert_eq!(device.pending_interrupt(), None);
    device.tick();

    assert_eq!(
        read_u32(&mut device, BLOCK_BASE + BlockDevice::DATA_WINDOW_OFFSET),
        11
    );
    assert_eq!(
        read_u32(
            &mut device,
            BLOCK_BASE + BlockDevice::DATA_WINDOW_OFFSET + 4
        ),
        22
    );
    assert_eq!(
        device.pending_interrupt(),
        Some(InterruptLine::MachineExternal)
    );
    assert_eq!(
        read_u32(&mut device, BLOCK_BASE + BlockDevice::CONTROL_OFFSET)
            & BlockDevice::STATUS_DONE,
        BlockDevice::STATUS_DONE
    );
}

#[test]
fn write_command_copies_staging_window_into_backing_store() {
    let mut device = BlockDevice::new(BLOCK_BASE, 4, BLOCK_BYTES, 1);

    write_u32(&mut device, BLOCK_BASE + BlockDevice::BLOCK_INDEX_OFFSET, 1);
    write_u32(
        &mut device,
        BLOCK_BASE + BlockDevice::DATA_WINDOW_OFFSET,
        0x1122_3344,
    );
    write_u32(
        &mut device,
        BLOCK_BASE + BlockDevice::DATA_WINDOW_OFFSET + 4,
        0x5566_7788,
    );
    write_u32(
        &mut device,
        BLOCK_BASE + BlockDevice::CONTROL_OFFSET,
        BlockDevice::CONTROL_START_WRITE,
    );

    device.tick();

    let block = device.block(1).expect("block 1 should exist");
    assert_eq!(
        &block[..8],
        &[0x44, 0x33, 0x22, 0x11, 0x88, 0x77, 0x66, 0x55]
    );
    assert_eq!(
        read_u32(&mut device, BLOCK_BASE + BlockDevice::CONTROL_OFFSET)
            & BlockDevice::STATUS_DONE,
        BlockDevice::STATUS_DONE
    );
}

#[test]
fn invalid_block_index_sets_error_and_interrupt() {
    let mut device = BlockDevice::new(BLOCK_BASE, 2, BLOCK_BYTES, 0);

    write_u32(&mut device, BLOCK_BASE + BlockDevice::BLOCK_INDEX_OFFSET, 9);
    write_u32(
        &mut device,
        BLOCK_BASE + BlockDevice::CONTROL_OFFSET,
        BlockDevice::CONTROL_START_READ | BlockDevice::CONTROL_IRQ_ENABLE,
    );

    assert_eq!(
        read_u32(&mut device, BLOCK_BASE + BlockDevice::CONTROL_OFFSET)
            & BlockDevice::STATUS_ERROR,
        BlockDevice::STATUS_ERROR
    );
    assert_eq!(
        device.pending_interrupt(),
        Some(InterruptLine::MachineExternal)
    );
}

#[test]
fn block_count_and_block_size_registers_are_read_only() {
    let mut device = BlockDevice::new(BLOCK_BASE, 2, BLOCK_BYTES, 0);

    let error = device
        .store8(BLOCK_BASE + BlockDevice::BLOCK_COUNT_OFFSET, 0)
        .expect_err("block count register should be read-only");
    assert_eq!(
        error,
        BusError::ReadOnlyAddress {
            addr: BLOCK_BASE + BlockDevice::BLOCK_COUNT_OFFSET
        }
    );

    assert_eq!(
        read_u32(&mut device, BLOCK_BASE + BlockDevice::BLOCK_COUNT_OFFSET),
        2
    );
    assert_eq!(
        read_u32(&mut device, BLOCK_BASE + BlockDevice::BLOCK_BYTES_OFFSET),
        BLOCK_BYTES as u32
    );
}

fn block_bytes(words: [u32; 4]) -> [u8; BLOCK_BYTES] {
    let mut bytes = [0; BLOCK_BYTES];
    for (index, word) in words.into_iter().enumerate() {
        bytes[index * 4..(index + 1) * 4].copy_from_slice(&word.to_le_bytes());
    }
    bytes
}

fn read_u32(device: &mut BlockDevice, addr: u64) -> u32 {
    let mut bytes = [0; 4];
    for (offset, byte) in bytes.iter_mut().enumerate() {
        *byte = device
            .load8(addr + offset as u64)
            .expect("device read should succeed");
    }
    u32::from_le_bytes(bytes)
}

fn write_u32(device: &mut BlockDevice, addr: u64, value: u32) {
    for (offset, byte) in value.to_le_bytes().into_iter().enumerate() {
        device
            .store8(addr + offset as u64, byte)
            .expect("device write should succeed");
    }
}

#[test]
fn write_then_read_command_restores_staging_window() {
    let mut device = BlockDevice::new(BLOCK_BASE, 2, BLOCK_BYTES, 0);
    write_u32(&mut device, BLOCK_BASE + BlockDevice::BLOCK_INDEX_OFFSET, 1);
    write_u32(&mut device, BLOCK_BASE + BlockDevice::DATA_WINDOW_OFFSET, 0xdead_beef);
    write_u32(&mut device, BLOCK_BASE + BlockDevice::CONTROL_OFFSET, BlockDevice::CONTROL_START_WRITE);
    write_u32(&mut device, BLOCK_BASE + BlockDevice::DATA_WINDOW_OFFSET, 0);
    write_u32(&mut device, BLOCK_BASE + BlockDevice::CONTROL_OFFSET, BlockDevice::CONTROL_START_READ);

    assert_eq!(read_u32(&mut device, BLOCK_BASE + BlockDevice::DATA_WINDOW_OFFSET), 0xdead_beef);
    assert_eq!(device.block(0).expect("block 0 should exist"), &[0u8; BLOCK_BYTES][..]);
}

#[test]
fn write_block_contents_rejects_wrong_size_and_index() {
    let mut device = BlockDevice::new(BLOCK_BASE, 2, BLOCK_BYTES, 0);

    let size_error = device.write_block_contents(0, &[1, 2, 3]).expect_err("short image should be refused");
    assert!(matches!(size_error, BusError::DeviceFault { addr, .. } if addr == BLOCK_BASE + BlockDevice::DATA_WINDOW_OFFSET));

    let index_error = device
        .write_block_contents(2, &[0; BLOCK_BYTES])
        .expect_err("block 2 should be out of range");
    assert!(matches!(index_error, BusError::DeviceFault { addr, .. } if addr == BLOCK_BASE));
    assert!(device.block(2).is_none());
}

#[test]
fn busy_command_rejects_a_second_start() {
    let mut device = BlockDevice::new(BLOCK_BASE, 2, BLOCK_BYTES, 3);
    write_u32(&mut device, BLOCK_BASE + BlockDevice::CONTROL_OFFSET, BlockDevice::CONTROL_START_READ);
    write_u32(&mut device, BLOCK_BASE + BlockDevice::CONTROL_OFFSET, BlockDevice::CONTROL_START_WRITE);

    let control = read_u32(&mut device, BLOCK_BASE + BlockDevice::CONTROL_OFFSET);
    assert_eq!(control & BlockDevice::STATUS_ERROR, BlockDevice::STATUS_ERROR);
    assert_eq!(control & BlockDevice::STATUS_BUSY, BlockDevice::STATUS_BUSY);
}

#[test]
fn write_command_leaves_other_blocks_untouched() {
    let mut device = BlockDevice::new(BLOCK_BASE, 3, BLOCK_BYTES, 0);
    device
        .write_block_contents(0, &block_bytes([1, 2, 3, 4]))
        .expect("block 0 image should load");
    device
        .write_block_contents(2, &block_bytes([5, 6, 7, 8]))
        .expect("block 2 image should load");

    write_u32(&mut device, BLOCK_BASE + BlockDevice::BLOCK_INDEX_OFFSET, 1);
    write_u32(&mut device, BLOCK_BASE + BlockDevice::DATA_WINDOW_OFFSET, 0xabcd_ef01);
    write_u32(&mut device, BLOCK_BASE + BlockDevice::CONTROL_OFFSET, BlockDevice::CONTROL_START_WRITE);

    assert_eq!(device.block(0).expect("block 0 should exist"), &block_bytes([1, 2, 3, 4])[..]);
    assert_eq!(device.block(2).expect("block 2 should exist"), &block_bytes([5, 6, 7, 8])[..]);
    assert_eq!(&device.block(1).expect("block 1 should exist")[..4], &[0x01, 0xef, 0xcd, 0xab]);
}
