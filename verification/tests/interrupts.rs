use mcu_peripherals::device::{BusWrite, Device};
use mcu_peripherals::interrupts::{
    disable_interrupt, enable_interrupt, set_irq_level, IRQLevel, NVIC_IPR_REGISTERS,
    NVIC_ISER_REGISTERS,
};
use mcu_peripherals::registers;

#[test]
fn levels_count_from_zero_to_fifteen() {
    assert_eq!(IRQLevel::Level0.value(), 0);
    assert_eq!(IRQLevel::Level3.value(), 3);
    assert_eq!(IRQLevel::Level10.value(), 10);
    assert_eq!(IRQLevel::Level15.value(), 15);
    assert!(IRQLevel::Level0 < IRQLevel::Level1);
}

#[test]
fn register_lists_follow_the_map() {
    assert_eq!(NVIC_ISER_REGISTERS.len(), 5);
    assert_eq!(NVIC_IPR_REGISTERS.len(), 40);
    assert_eq!(NVIC_ISER_REGISTERS[0], registers::NVIC_ISER0);
    assert_eq!(NVIC_ISER_REGISTERS[4], registers::NVIC_ISER4);
    assert_eq!(NVIC_IPR_REGISTERS[1], registers::NVIC_IPR1);
    assert_eq!(NVIC_IPR_REGISTERS[39], registers::NVIC_IPR39);
    for index in 1..40 {
        assert_eq!(NVIC_IPR_REGISTERS[index], NVIC_IPR_REGISTERS[index - 1] + 4);
    }
}

#[test]
fn enable_sets_the_bit_of_the_line() {
    let mut device = Device::new();
    enable_interrupt(&mut device, 28);
    assert_eq!(device.read(registers::NVIC_ISER0), 1 << 28);
    enable_interrupt(&mut device, 50);
    assert_eq!(device.read(registers::NVIC_ISER1), 1 << 18);
    enable_interrupt(&mut device, 159);
    assert_eq!(device.read(registers::NVIC_ISER4), 1 << 31);
    assert_eq!(device.read(registers::NVIC_ISER0), 1 << 28);
}

#[test]
fn enable_then_disable_restores_the_enable_register() {
    let mut device = Device::new();
    device.load(registers::NVIC_ISER1, 0x00F0_0001);
    enable_interrupt(&mut device, 50);
    assert_eq!(device.read(registers::NVIC_ISER1), 0x00F4_0001);
    disable_interrupt(&mut device, 50);
    assert_eq!(device.read(registers::NVIC_ISER1), 0x00F0_0001);
}

#[test]
fn disable_then_enable_restores_an_enabled_line() {
    let mut device = Device::new();
    device.load(registers::NVIC_ISER0, 0x0000_0008);
    disable_interrupt(&mut device, 3);
    assert_eq!(device.read(registers::NVIC_ISER0), 0);
    enable_interrupt(&mut device, 3);
    assert_eq!(device.read(registers::NVIC_ISER0), 0x0000_0008);
}

#[test]
fn priority_of_line_five_goes_into_byte_one_of_register_one() {
    let mut device = Device::new();
    device.load(registers::NVIC_IPR1, 0xAABB_CCDD);
    set_irq_level(&mut device, 5, IRQLevel::Level3);
    assert_eq!(device.read(registers::NVIC_IPR1), 0xAABB_30DD);
    assert_eq!(
        device.journal(),
        &vec![BusWrite { address: registers::NVIC_IPR1, value: 0xAABB_30DD }]
    );
    assert_eq!(device.read(registers::NVIC_IPR0), 0);
}

#[test]
fn priority_bytes_of_the_four_lines_of_a_register() {
    let mut device = Device::new();
    set_irq_level(&mut device, 8, IRQLevel::Level1);
    set_irq_level(&mut device, 9, IRQLevel::Level2);
    set_irq_level(&mut device, 10, IRQLevel::Level15);
    set_irq_level(&mut device, 11, IRQLevel::Level8);
    assert_eq!(device.read(registers::NVIC_IPR2), 0x80F0_2010);
    set_irq_level(&mut device, 10, IRQLevel::Level0);
    assert_eq!(device.read(registers::NVIC_IPR2), 0x8000_2010);
    set_irq_level(&mut device, 159, IRQLevel::Level4);
    assert_eq!(device.read(registers::NVIC_IPR39), 0x4000_0000);
}
