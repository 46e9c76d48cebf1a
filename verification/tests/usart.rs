use mcu_peripherals::device::{BusWrite, Device};
use mcu_peripherals::gpio::{GpioAlternate, GpioMode, GpioPin, GpioRegister, GpioSpeed};
use mcu_peripherals::registers;
use mcu_peripherals::usart::{
    baud_divisor, cleanup_usart, cleanup_usart2, cleanup_usart3, disable_usart2_tx_interrupt,
    disable_usart3_tx_interrupt, disable_usart_tx_interrupt, enable_usart2_tx_interrupt,
    enable_usart3_tx_interrupt, enable_usart_tx_interrupt, get_apb1lenr_usart_clock_enable_field,
    get_cr_usart_control_register, is_usart2_setup, is_usart3_setup, is_usart_setup, rx_gpio,
    setup_usart, setup_usart2, setup_usart3, tx_gpio, write_usart2_character,
    write_usart2_string, write_usart3_character, write_usart3_string, write_usart_character,
    write_usart_string, write_usart_string_step, TransmitStatus, USART,
};

const TXE: u32 = 1 << 7;

#[test]
fn baud_divisor_of_115200_at_16_mhz() {
    assert_eq!(baud_divisor(16_000_000, 115_200), (8, 11));
}

#[test]
fn baud_divisor_rounds_to_the_nearest_sixteenth() {
    // 1 / 16 = 0.0625: no sixteenths at all.
    assert_eq!(baud_divisor(16, 1), (1, 0));
    // 8_000_000 / (16 * 9600) = 52.0833..: 1.33 sixteenths.
    assert_eq!(baud_divisor(8_000_000, 9_600), (52, 1));
    // 24 / 16 = 1.5: eight sixteenths exactly.
    assert_eq!(baud_divisor(24, 1), (1, 8));
    // 25 / 32 = 0.78125: 12.5 sixteenths round upwards.
    assert_eq!(baud_divisor(25, 2), (0, 13));
    // 23 / 32 = 0.71875: 11.5 sixteenths round upwards.
    assert_eq!(baud_divisor(23, 2), (0, 12));
    // 31 / 32: 15.5 sixteenths round to sixteen.
    assert_eq!(baud_divisor(31, 2), (0, 16));
    assert_eq!(baud_divisor(0, 115_200), (0, 0));
    assert_eq!(baud_divisor(u32::MAX, 1), (268_435_455, 15));
    assert_eq!(baud_divisor(u32::MAX, u32::MAX), (0, 1));
}

#[test]
fn pins_of_the_ports() {
    let tx2 = tx_gpio(&USART::USART2);
    assert_eq!((tx2.register, tx2.pin), (GpioRegister::GpioA, GpioPin::P2));
    let rx2 = rx_gpio(&USART::USART2);
    assert_eq!((rx2.register, rx2.pin), (GpioRegister::GpioA, GpioPin::P3));
    let tx3 = tx_gpio(&USART::USART3);
    assert_eq!((tx3.register, tx3.pin), (GpioRegister::GpioD, GpioPin::P8));
    let rx3 = rx_gpio(&USART::USART3);
    assert_eq!((rx3.register, rx3.pin), (GpioRegister::GpioD, GpioPin::P9));
    for pin in [tx2, rx2, tx3, rx3] {
        assert_eq!(pin.mode, GpioMode::Alternate);
        assert_eq!(pin.speed, GpioSpeed::HighSpeed);
        assert_eq!(pin.alternate, GpioAlternate::AF7);
    }
}

#[test]
fn register_selection_of_the_ports() {
    assert_eq!(get_cr_usart_control_register(&USART::USART2), registers::USART2_CR1);
    assert_eq!(get_cr_usart_control_register(&USART::USART3), registers::USART3_CR1);
    assert_eq!(get_apb1lenr_usart_clock_enable_field(&USART::USART2), 17);
    assert_eq!(get_apb1lenr_usart_clock_enable_field(&USART::USART3), 18);
}

#[test]
fn start_of_port_two_writes_in_order() {
    let mut device = Device::new();
    setup_usart2(&mut device, 16_000_000, 115_200);
    let ahb4 = registers::RCC_AHB4ENR;
    assert_eq!(
        device.journal(),
        &vec![
            BusWrite { address: registers::USART2_CR1, value: 0 },
            BusWrite { address: registers::RCC_APB1LENR, value: 1 << 17 },
            BusWrite { address: ahb4, value: 1 },
            // The transmit pin, A2.
            BusWrite { address: ahb4, value: 1 },
            BusWrite { address: registers::GPIOA_MODER, value: 0b10 << 4 },
            BusWrite { address: registers::GPIOA_OTYPER, value: 0 },
            BusWrite { address: registers::GPIOA_PUPDR, value: 0 },
            BusWrite { address: registers::GPIOA_AFRL, value: 7 << 8 },
            // The receive pin, A3.
            BusWrite { address: ahb4, value: 1 },
            BusWrite { address: registers::GPIOA_MODER, value: 0b1010 << 4 },
            BusWrite { address: registers::GPIOA_OTYPER, value: 0 },
            BusWrite { address: registers::GPIOA_PUPDR, value: 0 },
            BusWrite { address: registers::GPIOA_AFRL, value: 0x77 << 8 },
            // Mantissa 8, then fraction 11.
            BusWrite { address: registers::USART2_BRR, value: 8 << 4 },
            BusWrite { address: registers::USART2_BRR, value: (8 << 4) | 11 },
            BusWrite { address: registers::USART2_CR1, value: 1 << 3 },
            BusWrite { address: registers::USART2_CR1, value: (1 << 3) | 1 },
        ]
    );
    assert!(is_usart2_setup(&device));
    assert!(!is_usart3_setup(&device));
}

#[test]
fn start_of_port_three_uses_port_d_pins_eight_and_nine() {
    let mut device = Device::new();
    device.load(registers::USART3_CR1, 0x0000_0081);
    device.load(registers::USART3_BRR, 0xFFFF_FFFF);
    setup_usart3(&mut device, 64_000_000, 9_600);
    // 64_000_000 / 153_600 = 416.67: mantissa 416, fraction 11.
    assert_eq!(baud_divisor(64_000_000, 9_600), (416, 11));
    assert_eq!(device.read(registers::USART3_BRR), 0xFFFF_0000 | (416 << 4) | 11);
    assert_eq!(device.read(registers::USART3_CR1), 0x0000_0089);
    assert_eq!(device.read(registers::RCC_APB1LENR), 1 << 18);
    assert_eq!(device.read(registers::RCC_AHB4ENR), 1 << 3);
    assert_eq!(device.read(registers::GPIOD_MODER), 0b1010 << 16);
    assert_eq!(device.read(registers::GPIOD_AFRH), 0x77);
    assert_eq!(device.read(registers::GPIOD_AFRL), 0);
    assert_eq!(device.journal()[0], BusWrite { address: registers::USART3_CR1, value: 0x80 });
    assert!(is_usart_setup(&device, &USART::USART3));
}

#[test]
fn ready_needs_both_transmitter_and_port() {
    let mut device = Device::new();
    assert!(!is_usart2_setup(&device));
    device.load(registers::USART2_CR1, 1 << 3);
    assert!(!is_usart2_setup(&device));
    device.load(registers::USART2_CR1, 1);
    assert!(!is_usart2_setup(&device));
    device.load(registers::USART2_CR1, (1 << 3) | 1);
    assert!(is_usart2_setup(&device));
    device.load(registers::USART3_CR1, 0xFFFF_FFF6);
    assert!(!is_usart3_setup(&device));
}

#[test]
fn stop_disables_clock_transmitter_and_port() {
    let mut device = Device::new();
    setup_usart(&mut device, 16_000_000, 115_200, &USART::USART2);
    setup_usart(&mut device, 16_000_000, 115_200, &USART::USART3);
    device.clear_journal();
    cleanup_usart2(&mut device);
    assert_eq!(
        device.journal(),
        &vec![
            BusWrite { address: registers::RCC_APB1LENR, value: 1 << 18 },
            BusWrite { address: registers::USART2_CR1, value: 1 },
            BusWrite { address: registers::USART2_CR1, value: 0 },
        ]
    );
    assert!(!is_usart2_setup(&device));
    assert!(is_usart3_setup(&device));
    cleanup_usart3(&mut device);
    assert!(!is_usart3_setup(&device));
    assert_eq!(device.read(registers::RCC_APB1LENR), 0);
    cleanup_usart(&mut device, &USART::USART3);
    assert_eq!(device.read(registers::USART3_CR1), 0);
}

#[test]
fn transmit_interrupt_is_one_bit_of_the_control_register() {
    let mut device = Device::new();
    device.load(registers::USART2_CR1, 0x0000_0009);
    enable_usart2_tx_interrupt(&mut device);
    assert_eq!(device.read(registers::USART2_CR1), 0x0000_0089);
    disable_usart2_tx_interrupt(&mut device);
    assert_eq!(device.read(registers::USART2_CR1), 0x0000_0009);
    enable_usart3_tx_interrupt(&mut device);
    assert_eq!(device.read(registers::USART3_CR1), 0x0000_0080);
    enable_usart_tx_interrupt(&mut device, &USART::USART3);
    assert_eq!(device.read(registers::USART3_CR1), 0x0000_0080);
    disable_usart3_tx_interrupt(&mut device);
    assert_eq!(device.read(registers::USART3_CR1), 0);
    disable_usart_tx_interrupt(&mut device, &USART::USART2);
    assert_eq!(device.read(registers::USART2_CR1), 0x0000_0009);
}

#[test]
fn character_on_a_port_that_is_not_started_is_dropped() {
    let mut device = Device::new();
    device.load(registers::USART2_ISR, TXE);
    assert_eq!(write_usart2_character(&mut device, 'a'), TransmitStatus::NotReady);
    assert!(device.journal().is_empty());
    assert_eq!(device.read(registers::USART2_TDR), 0);
}

#[test]
fn character_waits_for_the_transmitter() {
    let mut device = Device::new();
    setup_usart2(&mut device, 16_000_000, 115_200);
    device.clear_journal();
    assert_eq!(write_usart2_character(&mut device, 'a'), TransmitStatus::Busy);
    assert!(device.journal().is_empty());
    device.load(registers::USART2_ISR, TXE);
    assert_eq!(write_usart2_character(&mut device, 'a'), TransmitStatus::Sent);
    assert_eq!(device.journal(), &vec![BusWrite { address: registers::USART2_TDR, value: 97 }]);
}

#[test]
fn character_is_sent_as_its_code_point() {
    let mut device = Device::new();
    setup_usart3(&mut device, 16_000_000, 115_200);
    device.load(registers::USART3_ISR, 0xFFFF_FFFF);
    assert_eq!(write_usart3_character(&mut device, '\u{e9}'), TransmitStatus::Sent);
    assert_eq!(device.read(registers::USART3_TDR), 0xE9);
    assert_eq!(
        write_usart_character(&mut device, '\u{1F600}', &USART::USART3),
        TransmitStatus::Sent
    );
    assert_eq!(device.read(registers::USART3_TDR), 0x1F600);
    assert_eq!(device.read(registers::USART2_TDR), 0);
}

#[test]
fn string_is_sent_character_by_character() {
    let mut device = Device::new();
    setup_usart2(&mut device, 16_000_000, 115_200);
    device.load(registers::USART2_ISR, TXE);
    device.clear_journal();
    assert_eq!(write_usart2_string(&mut device, "ok\u{e9}\n"), 4);
    assert_eq!(
        device.journal(),
        &vec![
            BusWrite { address: registers::USART2_TDR, value: 111 },
            BusWrite { address: registers::USART2_TDR, value: 107 },
            BusWrite { address: registers::USART2_TDR, value: 0xE9 },
            BusWrite { address: registers::USART2_TDR, value: 10 },
        ]
    );
}

#[test]
fn string_on_a_port_that_is_not_started_or_busy_sends_nothing() {
    let mut device = Device::new();
    device.load(registers::USART3_ISR, TXE);
    assert_eq!(write_usart3_string(&mut device, "hello"), 0);
    assert!(device.journal().is_empty());
    setup_usart3(&mut device, 16_000_000, 115_200);
    device.load(registers::USART3_ISR, 0);
    device.clear_journal();
    assert_eq!(write_usart_string(&mut device, "hello", &USART::USART3), 0);
    assert!(device.journal().is_empty());
}

#[test]
fn empty_string_sends_nothing() {
    let mut device = Device::new();
    setup_usart2(&mut device, 16_000_000, 115_200);
    device.load(registers::USART2_ISR, TXE);
    device.clear_journal();
    assert_eq!(write_usart2_string(&mut device, ""), 0);
    assert!(device.journal().is_empty());
}

#[test]
fn step_hands_over_one_character_at_a_time() {
    let mut device = Device::new();
    setup_usart2(&mut device, 16_000_000, 115_200);
    device.load(registers::USART2_ISR, TXE);
    device.clear_journal();
    assert_eq!(write_usart_string_step(&mut device, "h\u{e9}", 0, &USART::USART2), Some(1));
    assert_eq!(device.journal(), &vec![BusWrite { address: registers::USART2_TDR, value: 104 }]);
    assert_eq!(write_usart_string_step(&mut device, "h\u{e9}", 1, &USART::USART2), Some(2));
    assert_eq!(device.read(registers::USART2_TDR), 0xE9);
    assert_eq!(device.journal().len(), 2);
    // No character is left.
    assert_eq!(write_usart_string_step(&mut device, "h\u{e9}", 2, &USART::USART2), None);
    assert_eq!(write_usart_string_step(&mut device, "h\u{e9}", 9, &USART::USART2), None);
    assert_eq!(write_usart_string_step(&mut device, "", 0, &USART::USART2), None);
    assert_eq!(device.journal().len(), 2);
}

#[test]
fn step_on_a_busy_transmitter_asks_to_be_made_again() {
    let mut device = Device::new();
    setup_usart3(&mut device, 16_000_000, 115_200);
    device.clear_journal();
    assert_eq!(write_usart_string_step(&mut device, "ab", 1, &USART::USART3), Some(1));
    assert!(device.journal().is_empty());
    device.load(registers::USART3_ISR, TXE);
    assert_eq!(write_usart_string_step(&mut device, "ab", 1, &USART::USART3), Some(2));
    assert_eq!(device.journal(), &vec![BusWrite { address: registers::USART3_TDR, value: 98 }]);
}

#[test]
fn step_on_a_port_that_is_not_started_ends_the_transmission() {
    let mut device = Device::new();
    device.load(registers::USART2_ISR, TXE);
    assert_eq!(write_usart_string_step(&mut device, "ab", 0, &USART::USART2), None);
    device.load(registers::USART2_CR1, 1);
    assert_eq!(write_usart_string_step(&mut device, "ab", 0, &USART::USART2), None);
    assert!(device.journal().is_empty());
    assert_eq!(device.read(registers::USART2_TDR), 0);
}

#[test]
fn steps_send_what_the_whole_string_sends() {
    let text = "line 1\n";
    let mut whole = Device::new();
    setup_usart2(&mut whole, 16_000_000, 115_200);
    whole.load(registers::USART2_ISR, TXE);
    let mut stepped = Device::new();
    setup_usart2(&mut stepped, 16_000_000, 115_200);
    stepped.load(registers::USART2_ISR, TXE);

    assert_eq!(write_usart2_string(&mut whole, text), 7);
    let mut written = 0;
    while let Some(next) = write_usart_string_step(&mut stepped, text, written, &USART::USART2) {
        written = next;
    }
    assert_eq!(written, 7);
    assert_eq!(stepped.journal(), whole.journal());
}
