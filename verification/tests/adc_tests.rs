use nucleo_rust::adc::{
    adc_clear_flag_value, adc_enable_it_value, adc_stabilization_cycles, adc_stabilization_delay,
    adc_start_dma_enable_step, adc_start_dma_state, modify_reg, sample_tick, ADCState, FunctionalState,
    ADC_CR1_JAUTO, ADC_FLAG_EOC, ADC_FLAG_OVR, ADC_IT_OVR, ADC_STATE_CLR_SET, READ_BIT, RESET,
};

const ALL_STATES: [(ADCState, u32); 9] = [
    (ADCState::Reset, 0x0000_0000),
    (ADCState::Ready, 0x0000_0001),
    (ADCState::Busy_Internal, 0x0000_0002),
    (ADCState::Timeout, 0x0000_0004),
    (ADCState::Reg_Busy, 0x0000_0100),
    (ADCState::Reg_EOC, 0x0000_0200),
    (ADCState::Reg_OVR, 0x0000_0400),
    (ADCState::INJ_Busy, 0x0000_1000),
    (ADCState::INJ_EOC, 0x0000_2000),
];

#[test]
fn jauto_mask_is_bit_ten() {
    assert_eq!(ADC_CR1_JAUTO(), 0x400);
    assert_eq!(ADC_CR1_JAUTO(), 1 << 10);
}

#[test]
fn modify_reg_clears_then_sets() {
    assert_eq!(modify_reg(0, 0x0601, 0x0100), 0x0100);
    assert_eq!(modify_reg(0xFFFF, 0x0601, 0x0100), 0xF9FE);
    assert_eq!(modify_reg(0x0000_0601, 0x0601, 0), 0);
    assert_eq!(modify_reg(0x8000_0000, 0, 0x1), 0x8000_0001);
    // a bit both cleared and set ends up set
    assert_eq!(modify_reg(0, 0x1, 0x1), 0x1);
}

#[test]
fn modify_reg_twice_is_once() {
    let once = modify_reg(0x1234_5678, 0x00FF_0000, 0x0000_0F00);
    assert_eq!(modify_reg(once, 0x00FF_0000, 0x0000_0F00), once);
}

#[test]
fn adc_state_clr_set_is_modify_reg() {
    assert_eq!(ADC_STATE_CLR_SET(0x2001, 0x2000, 0x1000), 0x1001);
    assert_eq!(ADC_STATE_CLR_SET(0x0601, 0x0601, 0x0100), 0x0100);
}

#[test]
fn read_bit_selects_bits() {
    assert_eq!(READ_BIT(0x1234, 0x30), 0x30);
    assert_eq!(READ_BIT(0x1204, 0x30), 0);
    assert_eq!(READ_BIT(0, ADC_CR1_JAUTO()), RESET);
    let reg = modify_reg(0, 0x2000, 0x1000);
    assert_eq!(READ_BIT(reg, 0x1000), 0x1000);
}

#[test]
fn adc_state_codes_round_trip() {
    for (state, code) in ALL_STATES {
        assert_eq!(state.code(), code);
        assert_eq!(u32::from(state), code);
        assert_eq!(ADCState::from_code(code), state);
        assert_eq!(ADCState::try_from_code(code), Some(state));
    }
}

#[test]
fn adc_state_unknown_codes_are_refused() {
    for code in [0x3u32, 0x8, 0x101, 0x800, 0x4000, 0xFFFF_FFFF] {
        assert_eq!(ADCState::try_from_code(code), None);
    }
}

#[test]
fn functional_state_codes_round_trip() {
    assert_eq!(u32::from(FunctionalState::DISABLE), 0);
    assert_eq!(u32::from(FunctionalState::ENABLE), 1);
    assert_eq!(FunctionalState::from_code(0), FunctionalState::DISABLE);
    assert_eq!(FunctionalState::from_code(1), FunctionalState::ENABLE);
    assert_eq!(FunctionalState::try_from_code(1), Some(FunctionalState::ENABLE));
    assert_eq!(FunctionalState::try_from_code(2), None);
    assert_eq!(FunctionalState::ENABLE.code(), 1);
}

#[test]
fn stabilization_cycles_follow_sysclk() {
    assert_eq!(adc_stabilization_cycles(84_000_000), 252);
    assert_eq!(adc_stabilization_cycles(16_000_000), 48);
    assert_eq!(adc_stabilization_cycles(999_999), 0);
    assert_eq!(adc_stabilization_cycles(u32::MAX), 3 * 4294);
}

#[test]
fn stabilization_delay_spins_the_count() {
    assert_eq!(adc_stabilization_delay(0), 0);
    assert_eq!(adc_stabilization_delay(252), 252);
}

#[test]
fn enable_step_only_when_adc_is_off() {
    assert_eq!(adc_start_dma_enable_step(false, 84_000_000), Some(252));
    assert_eq!(adc_start_dma_enable_step(true, 84_000_000), None);
}

#[test]
fn dma_start_state_marks_busy() {
    // JAUTO set: the injected group is updated too
    assert_eq!(adc_start_dma_state(true, 0, 0x400), Some(0x1100));
    assert_eq!(adc_start_dma_state(true, 0x2601, ADC_CR1_JAUTO()), Some(0x1100));
    assert_eq!(adc_start_dma_state(true, 0x8000_0001, 0x0400_0400), Some(0x8000_1100));
    // JAUTO clear: the injected group's state is kept
    assert_eq!(adc_start_dma_state(true, 0, 0), Some(0x0100));
    assert_eq!(adc_start_dma_state(true, 0x2601, 0x0400_0000), Some(0x2100));
    assert_eq!(adc_start_dma_state(false, 0x0001, 0x400), None);
}

#[test]
fn sample_tick_samples_every_tick() {
    assert_eq!(sample_tick(0), (0, true));
    assert_eq!(sample_tick(2), (4, false));
    assert_eq!(sample_tick(-2), (0, false));
}

#[test]
fn flag_and_interrupt_values() {
    assert_eq!(adc_clear_flag_value(ADC_FLAG_EOC | ADC_FLAG_OVR), 0xFFFF_FFDD);
    assert_eq!(adc_enable_it_value(0x0000_0100, ADC_IT_OVR), 0x0400_0100);
    assert_eq!(adc_enable_it_value(ADC_IT_OVR, ADC_IT_OVR), ADC_IT_OVR);
}
