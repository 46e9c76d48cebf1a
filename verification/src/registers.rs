//! The register map: where each register lies on the bus, and at which bit
//! each of its fields starts.

use vstd::prelude::*;

verus! {

// Reset and clock control.

/// Clock enables of the GPIO ports.
pub const RCC_AHB4ENR: u32 = 0x5802_44E0;

/// Clock enables of the timers and serial ports.
pub const RCC_APB1LENR: u32 = 0x5802_44E8;

// Bits of RCC_AHB4ENR.
pub const AHB4ENR_GPIOAEN: u8 = 0;
pub const AHB4ENR_GPIOBEN: u8 = 1;
pub const AHB4ENR_GPIOCEN: u8 = 2;
pub const AHB4ENR_GPIODEN: u8 = 3;
pub const AHB4ENR_GPIOEEN: u8 = 4;
pub const AHB4ENR_GPIOHEN: u8 = 7;
pub const AHB4ENR_GPIOIEN: u8 = 8;
pub const AHB4ENR_GPIOJEN: u8 = 9;
pub const AHB4ENR_GPIOKEN: u8 = 10;

// Bits of RCC_APB1LENR.
pub const APB1LENR_TIM2EN: u8 = 0;
pub const APB1LENR_TIM3EN: u8 = 1;
pub const APB1LENR_TIM4EN: u8 = 2;
pub const APB1LENR_TIM5EN: u8 = 3;
pub const APB1LENR_USART2EN: u8 = 17;
pub const APB1LENR_USART3EN: u8 = 18;

// GPIO ports.

pub const GPIOA_MODER: u32 = 0x5802_0000;
pub const GPIOA_OTYPER: u32 = 0x5802_0004;
pub const GPIOA_PUPDR: u32 = 0x5802_000C;
pub const GPIOA_IDR: u32 = 0x5802_0010;
pub const GPIOA_ODR: u32 = 0x5802_0014;
pub const GPIOA_AFRL: u32 = 0x5802_0020;
pub const GPIOA_AFRH: u32 = 0x5802_0024;
pub const GPIOB_MODER: u32 = 0x5802_0400;
pub const GPIOB_OTYPER: u32 = 0x5802_0404;
pub const GPIOB_PUPDR: u32 = 0x5802_040C;
pub const GPIOB_IDR: u32 = 0x5802_0410;
pub const GPIOB_ODR: u32 = 0x5802_0414;
pub const GPIOB_AFRL: u32 = 0x5802_0420;
pub const GPIOB_AFRH: u32 = 0x5802_0424;
pub const GPIOC_MODER: u32 = 0x5802_0800;
pub const GPIOC_OTYPER: u32 = 0x5802_0804;
pub const GPIOC_PUPDR: u32 = 0x5802_080C;
pub const GPIOC_IDR: u32 = 0x5802_0810;
pub const GPIOC_ODR: u32 = 0x5802_0814;
pub const GPIOC_AFRL: u32 = 0x5802_0820;
pub const GPIOC_AFRH: u32 = 0x5802_0824;
pub const GPIOD_MODER: u32 = 0x5802_0C00;
pub const GPIOD_OTYPER: u32 = 0x5802_0C04;
pub const GPIOD_PUPDR: u32 = 0x5802_0C0C;
pub const GPIOD_IDR: u32 = 0x5802_0C10;
pub const GPIOD_ODR: u32 = 0x5802_0C14;
pub const GPIOD_AFRL: u32 = 0x5802_0C20;
pub const GPIOD_AFRH: u32 = 0x5802_0C24;
pub const GPIOE_MODER: u32 = 0x5802_1000;
pub const GPIOE_OTYPER: u32 = 0x5802_1004;
pub const GPIOE_PUPDR: u32 = 0x5802_100C;
pub const GPIOE_IDR: u32 = 0x5802_1010;
pub const GPIOE_ODR: u32 = 0x5802_1014;
pub const GPIOE_AFRL: u32 = 0x5802_1020;
pub const GPIOE_AFRH: u32 = 0x5802_1024;
pub const GPIOH_MODER: u32 = 0x5802_1C00;
pub const GPIOH_OTYPER: u32 = 0x5802_1C04;
pub const GPIOH_PUPDR: u32 = 0x5802_1C0C;
pub const GPIOH_IDR: u32 = 0x5802_1C10;
pub const GPIOH_ODR: u32 = 0x5802_1C14;
pub const GPIOH_AFRL: u32 = 0x5802_1C20;
pub const GPIOH_AFRH: u32 = 0x5802_1C24;
pub const GPIOI_MODER: u32 = 0x5802_2000;
pub const GPIOI_OTYPER: u32 = 0x5802_2004;
pub const GPIOI_PUPDR: u32 = 0x5802_200C;
pub const GPIOI_IDR: u32 = 0x5802_2010;
pub const GPIOI_ODR: u32 = 0x5802_2014;
pub const GPIOI_AFRL: u32 = 0x5802_2020;
pub const GPIOI_AFRH: u32 = 0x5802_2024;
pub const GPIOJ_MODER: u32 = 0x5802_2400;
pub const GPIOJ_OTYPER: u32 = 0x5802_2404;
pub const GPIOJ_PUPDR: u32 = 0x5802_240C;
pub const GPIOJ_IDR: u32 = 0x5802_2410;
pub const GPIOJ_ODR: u32 = 0x5802_2414;
pub const GPIOJ_AFRL: u32 = 0x5802_2420;
pub const GPIOJ_AFRH: u32 = 0x5802_2424;
pub const GPIOK_MODER: u32 = 0x5802_2800;
pub const GPIOK_OTYPER: u32 = 0x5802_2804;
pub const GPIOK_PUPDR: u32 = 0x5802_280C;
pub const GPIOK_IDR: u32 = 0x5802_2810;
pub const GPIOK_ODR: u32 = 0x5802_2814;
pub const GPIOK_AFRL: u32 = 0x5802_2820;
pub const GPIOK_AFRH: u32 = 0x5802_2824;

// Timers.

pub const TIM2_CR1: u32 = 0x4000_0000;
pub const TIM2_DIER: u32 = 0x4000_000C;
pub const TIM2_SR: u32 = 0x4000_0010;
pub const TIM2_EGR: u32 = 0x4000_0014;
pub const TIM2_CNT: u32 = 0x4000_0024;
pub const TIM2_PSC: u32 = 0x4000_0028;
pub const TIM2_ARR: u32 = 0x4000_002C;
pub const TIM3_CR1: u32 = 0x4000_0400;
pub const TIM3_DIER: u32 = 0x4000_040C;
pub const TIM3_SR: u32 = 0x4000_0410;
pub const TIM3_EGR: u32 = 0x4000_0414;
pub const TIM3_CNT: u32 = 0x4000_0424;
pub const TIM3_PSC: u32 = 0x4000_0428;
pub const TIM3_ARR: u32 = 0x4000_042C;
pub const TIM4_CR1: u32 = 0x4000_0800;
pub const TIM4_DIER: u32 = 0x4000_080C;
pub const TIM4_SR: u32 = 0x4000_0810;
pub const TIM4_EGR: u32 = 0x4000_0814;
pub const TIM4_CNT: u32 = 0x4000_0824;
pub const TIM4_PSC: u32 = 0x4000_0828;
pub const TIM4_ARR: u32 = 0x4000_082C;
pub const TIM5_CR1: u32 = 0x4000_0C00;
pub const TIM5_DIER: u32 = 0x4000_0C0C;
pub const TIM5_SR: u32 = 0x4000_0C10;
pub const TIM5_EGR: u32 = 0x4000_0C14;
pub const TIM5_CNT: u32 = 0x4000_0C24;
pub const TIM5_PSC: u32 = 0x4000_0C28;
pub const TIM5_ARR: u32 = 0x4000_0C2C;

/// Counter enable.
pub const TIM_CR1_CEN: u8 = 0;

/// Update interrupt enable.
pub const TIM_DIER_UIE: u8 = 0;

/// Update interrupt pending.
pub const TIM_SR_UIF: u8 = 0;

/// Update generation.
pub const TIM_EGR_UG: u8 = 0;

// Serial ports.

pub const USART2_CR1: u32 = 0x4000_4400;
pub const USART2_BRR: u32 = 0x4000_440C;
pub const USART2_ISR: u32 = 0x4000_441C;
pub const USART2_TDR: u32 = 0x4000_4428;
pub const USART3_CR1: u32 = 0x4000_4800;
pub const USART3_BRR: u32 = 0x4000_480C;
pub const USART3_ISR: u32 = 0x4000_481C;
pub const USART3_TDR: u32 = 0x4000_4828;

/// Port enable.
pub const USART_CR1_UE: u8 = 0;

/// Transmit enable.
pub const USART_CR1_TE: u8 = 3;

/// Transmit interrupt enable.
pub const USART_CR1_TXEIE: u8 = 7;

/// Transmit data register empty.
pub const USART_ISR_TXE: u8 = 7;

/// Fraction of the baud divisor.
pub const USART_BRR_0_3: u8 = 0;

/// Mantissa of the baud divisor.
pub const USART_BRR_4_15: u8 = 4;

// Interrupt controller.

pub const NVIC_ISER0: u32 = 0xE000_E100;
pub const NVIC_ISER1: u32 = 0xE000_E104;
pub const NVIC_ISER2: u32 = 0xE000_E108;
pub const NVIC_ISER3: u32 = 0xE000_E10C;
pub const NVIC_ISER4: u32 = 0xE000_E110;
pub const NVIC_IPR0: u32 = 0xE000_E400;
pub const NVIC_IPR1: u32 = 0xE000_E404;
pub const NVIC_IPR2: u32 = 0xE000_E408;
pub const NVIC_IPR3: u32 = 0xE000_E40C;
pub const NVIC_IPR4: u32 = 0xE000_E410;
pub const NVIC_IPR5: u32 = 0xE000_E414;
pub const NVIC_IPR6: u32 = 0xE000_E418;
pub const NVIC_IPR7: u32 = 0xE000_E41C;
pub const NVIC_IPR8: u32 = 0xE000_E420;
pub const NVIC_IPR9: u32 = 0xE000_E424;
pub const NVIC_IPR10: u32 = 0xE000_E428;
pub const NVIC_IPR11: u32 = 0xE000_E42C;
pub const NVIC_IPR12: u32 = 0xE000_E430;
pub const NVIC_IPR13: u32 = 0xE000_E434;
pub const NVIC_IPR14: u32 = 0xE000_E438;
pub const NVIC_IPR15: u32 = 0xE000_E43C;
pub const NVIC_IPR16: u32 = 0xE000_E440;
pub const NVIC_IPR17: u32 = 0xE000_E444;
pub const NVIC_IPR18: u32 = 0xE000_E448;
pub const NVIC_IPR19: u32 = 0xE000_E44C;
pub const NVIC_IPR20: u32 = 0xE000_E450;
pub const NVIC_IPR21: u32 = 0xE000_E454;
pub const NVIC_IPR22: u32 = 0xE000_E458;
pub const NVIC_IPR23: u32 = 0xE000_E45C;
pub const NVIC_IPR24: u32 = 0xE000_E460;
pub const NVIC_IPR25: u32 = 0xE000_E464;
pub const NVIC_IPR26: u32 = 0xE000_E468;
pub const NVIC_IPR27: u32 = 0xE000_E46C;
pub const NVIC_IPR28: u32 = 0xE000_E470;
pub const NVIC_IPR29: u32 = 0xE000_E474;
pub const NVIC_IPR30: u32 = 0xE000_E478;
pub const NVIC_IPR31: u32 = 0xE000_E47C;
pub const NVIC_IPR32: u32 = 0xE000_E480;
pub const NVIC_IPR33: u32 = 0xE000_E484;
pub const NVIC_IPR34: u32 = 0xE000_E488;
pub const NVIC_IPR35: u32 = 0xE000_E48C;
pub const NVIC_IPR36: u32 = 0xE000_E490;
pub const NVIC_IPR37: u32 = 0xE000_E494;
pub const NVIC_IPR38: u32 = 0xE000_E498;
pub const NVIC_IPR39: u32 = 0xE000_E49C;

// Interrupt lines.

pub const TIM2_IRQ: u32 = 28;
pub const TIM3_IRQ: u32 = 29;
pub const TIM4_IRQ: u32 = 30;
pub const TIM5_IRQ: u32 = 50;

} // verus!
