//! ADC state bookkeeping: the `ADCState` and `FunctionalState` encodings, the
//! register helpers `modify_reg`, `ADC_STATE_CLR_SET`, `READ_BIT`, and the
//! decisions taken when a DMA-driven ADC conversion is started.
use vstd::prelude::*;

verus! {

/// Stabilization time of the ADC after it is switched on, in microseconds.
pub const ADC_STAB_DELAY_US: u32 = 3;

/// Value of a cleared register bit.
pub const RESET: u32 = 0;

/// Bit position of JAUTO (automatic injected group conversion) in ADC_CR1.
pub const ADC_CR1_JAUTO_POS: u32 = 10;

/// Mask of JAUTO (automatic injected group conversion) in ADC_CR1.
pub fn ADC_CR1_JAUTO() -> (mask: u32)
    ensures
        mask == 0x400,
{
    let mask: u32 = 0x1u32 << ADC_CR1_JAUTO_POS;
    assert(0x1u32 << 10u32 == 0x400) by (bit_vector);
    mask
}

/// The spec of `modify_reg`: the bits of `clear_mask` are cleared, then the
/// bits of `set_mask` are set.
pub open spec fn modified(reg: u32, clear_mask: u32, set_mask: u32) -> u32 {
    (reg & !clear_mask) | set_mask
}

/// Clears the bits of `clearmask` in `reg`, then sets the bits of `setmask`.
pub fn modify_reg(reg: u32, clearmask: u32, setmask: u32) -> (r: u32)
    ensures
        r == modified(reg, clearmask, setmask),
{
    (reg & !clearmask) | setmask
}


/// `ADC_STATE_CLR_SET`: the new ADC state word after clearing `clear_mask`
/// and setting `set_mask` in `reg`.
pub fn ADC_STATE_CLR_SET(reg: u32, clear_mask: u32, set_mask: u32) -> (r: u32)
    ensures
        r == modified(reg, clear_mask, set_mask),
{
    modify_reg(reg, clear_mask, set_mask)
}

/// The bits of `reg` selected by `bit`.
pub fn READ_BIT(reg: u32, bit: u32) -> (r: u32)
    ensures
        r == reg & bit,
{
    reg & bit
}

/// State of the ADC, as kept in the HAL's state word.
#[derive(Debug, PartialEq, Eq, Structural, Copy, Clone)]
pub enum ADCState {
    Reset,
    Ready,
    Busy_Internal,
    Timeout,
    Reg_Busy,
    Reg_EOC,
    Reg_OVR,
    INJ_Busy,
    INJ_EOC,
}

/// The code of each ADC state in the state word.
pub open spec fn adc_state_code(s: ADCState) -> u32 {
    match s {
        ADCState::Reset => 0x0000_0000,
        ADCState::Ready => 0x0000_0001,
        ADCState::Busy_Internal => 0x0000_0002,
        ADCState::Timeout => 0x0000_0004,
        ADCState::Reg_Busy => 0x0000_0100,
        ADCState::Reg_EOC => 0x0000_0200,
        ADCState::Reg_OVR => 0x0000_0400,
        ADCState::INJ_Busy => 0x0000_1000,
        ADCState::INJ_EOC => 0x0000_2000,
    }
}

/// Whether `code` is the code of some ADC state.
pub open spec fn is_adc_state_code(code: u32) -> bool {
    ||| code == 0x0000_0000
    ||| code == 0x0000_0001
    ||| code == 0x0000_0002
    ||| code == 0x0000_0004
    ||| code == 0x0000_0100
    ||| code == 0x0000_0200
    ||| code == 0x0000_0400
    ||| code == 0x0000_1000
    ||| code == 0x0000_2000
}

/// The ADC state whose code is `code` (meaningful only for a valid code).
pub open spec fn adc_state_of_code(code: u32) -> ADCState {
    if code == 0x0000_0001 {
        ADCState::Ready
    } else if code == 0x0000_0002 {
        ADCState::Busy_Internal
    } else if code == 0x0000_0004 {
        ADCState::Timeout
    } else if code == 0x0000_0100 {
        ADCState::Reg_Busy
    } else if code == 0x0000_0200 {
        ADCState::Reg_EOC
    } else if code == 0x0000_0400 {
        ADCState::Reg_OVR
    } else if code == 0x0000_1000 {
        ADCState::INJ_Busy
    } else if code == 0x0000_2000 {
        ADCState::INJ_EOC
    } else {
        ADCState::Reset
    }
}

impl ADCState {
    /// The state whose code is `code`; the code must be one of the nine.
    pub fn from_code(code: u32) -> (s: ADCState)
        requires
            is_adc_state_code(code),
        ensures
            adc_state_code(s) == code,
            s == adc_state_of_code(code),
    {
        match code {
            0x0000_0000 => ADCState::Reset,
            0x0000_0001 => ADCState::Ready,
            0x0000_0002 => ADCState::Busy_Internal,
            0x0000_0004 => ADCState::Timeout,
            0x0000_0100 => ADCState::Reg_Busy,
            0x0000_0200 => ADCState::Reg_EOC,
            0x0000_0400 => ADCState::Reg_OVR,
            0x0000_1000 => ADCState::INJ_Busy,
            _ => ADCState::INJ_EOC,
        }
    }

    /// The state whose code is `code`, or `None` where `code` is no state's code.
    pub fn try_from_code(code: u32) -> (r: Option<ADCState>)
        ensures
            r is Some <==> is_adc_state_code(code),
            r is Some ==> r->0 == adc_state_of_code(code) && adc_state_code(r->0) == code,
    {
        if code == 0x0000_0000 || code == 0x0000_0001 || code == 0x0000_0002
            || code == 0x0000_0004 || code == 0x0000_0100 || code == 0x0000_0200
            || code == 0x0000_0400 || code == 0x0000_1000 || code == 0x0000_2000 {
            Some(ADCState::from_code(code))
        } else {
            None
        }
    }

    /// The code of this state in the state word.
    pub fn code(self) -> (c: u32)
        ensures
            c == adc_state_code(self),
    {
        match self {
            ADCState::Reset => 0x0000_0000,
            ADCState::Ready => 0x0000_0001,
            ADCState::Busy_Internal => 0x0000_0002,
            ADCState::Timeout => 0x0000_0004,
            ADCState::Reg_Busy => 0x0000_0100,
            ADCState::Reg_EOC => 0x0000_0200,
            ADCState::Reg_OVR => 0x0000_0400,
            ADCState::INJ_Busy => 0x0000_1000,
            ADCState::INJ_EOC => 0x0000_2000,
        }
    }
}

impl From<ADCState> for u32 {
    fn from(l: ADCState) -> (r: u32) {
        l.code()
    }
}

impl vstd::std_specs::convert::FromSpecImpl<ADCState> for u32 {
    open spec fn obeys_from_spec() -> bool {
        true
    }

    open spec fn from_spec(l: ADCState) -> u32 {
        adc_state_code(l)
    }
}


/// Whether a conversion mode, a DMA request mode or another option is on.
#[derive(Debug, PartialEq, Eq, Structural, Copy, Clone)]
pub enum FunctionalState {
    DISABLE,
    ENABLE,
}

/// The code of each functional state.
pub open spec fn functional_state_code(s: FunctionalState) -> u32 {
    match s {
        FunctionalState::DISABLE => 0x0000_0000,
        FunctionalState::ENABLE => 0x0000_0001,
    }
}

/// Whether `code` is the code of a functional state.
pub open spec fn is_functional_state_code(code: u32) -> bool {
    code == 0x0000_0000 || code == 0x0000_0001
}

/// The functional state whose code is `code` (meaningful only for a valid code).
pub open spec fn functional_state_of_code(code: u32) -> FunctionalState {
    if code == 0x0000_0001 {
        FunctionalState::ENABLE
    } else {
        FunctionalState::DISABLE
    }
}

impl FunctionalState {
    /// The functional state whose code is `code`; the code must be 0 or 1.
    pub fn from_code(code: u32) -> (s: FunctionalState)
        requires
            is_functional_state_code(code),
        ensures
            functional_state_code(s) == code,
            s == functional_state_of_code(code),
    {
        if code == 0x0000_0000 {
            FunctionalState::DISABLE
        } else {
            FunctionalState::ENABLE
        }
    }

    /// The functional state whose code is `code`, or `None` for any other code.
    pub fn try_from_code(code: u32) -> (r: Option<FunctionalState>)
        ensures
            r is Some <==> is_functional_state_code(code),
            r is Some ==> r->0 == functional_state_of_code(code) && functional_state_code(r->0)
                == code,
    {
        if code == 0x0000_0000 || code == 0x0000_0001 {
            Some(FunctionalState::from_code(code))
        } else {
            None
        }
    }

    /// The code of this functional state.
    pub fn code(self) -> (c: u32)
        ensures
            c == functional_state_code(self),
    {
        match self {
            FunctionalState::DISABLE => 0x0000_0000,
            FunctionalState::ENABLE => 0x0000_0001,
        }
    }
}

impl From<FunctionalState> for u32 {
    fn from(l: FunctionalState) -> (r: u32) {
        l.code()
    }
}

impl vstd::std_specs::convert::FromSpecImpl<FunctionalState> for u32 {
    open spec fn obeys_from_spec() -> bool {
        true
    }

    open spec fn from_spec(l: FunctionalState) -> u32 {
        functional_state_code(l)
    }
}

/// End of conversion flag of the regular group, in ADC_SR.
pub const ADC_FLAG_EOC: u32 = 0x0000_0002;

/// Overrun flag, in ADC_SR.
pub const ADC_FLAG_OVR: u32 = 0x0000_0020;

/// Overrun interrupt enable (OVRIE), in ADC_CR1.
pub const ADC_IT_OVR: u32 = 0x0400_0000;

/// Number of CPU cycles to wait for the ADC to stabilize at `sysclk_hz`.
pub open spec fn stabilization_cycles(sysclk_hz: u32) -> u32 {
    (ADC_STAB_DELAY_US * (sysclk_hz / 1_000_000)) as u32
}

/// The number of CPU cycles to wait after the ADC has been switched on,
/// for a system clock of `sysclk_hz` hertz.
pub fn adc_stabilization_cycles(sysclk_hz: u32) -> (cycles: u32)
    ensures
        cycles == ADC_STAB_DELAY_US * (sysclk_hz / 1_000_000),
        cycles == stabilization_cycles(sysclk_hz),
{
    ADC_STAB_DELAY_US * (sysclk_hz / 1_000_000)
}

/// Busy-waits by counting `cycles` down to zero; returns the number of
/// iterations spent.
pub fn adc_stabilization_delay(cycles: u32) -> (spins: u32)
    ensures
        spins == cycles,
{
    let mut counter: u32 = cycles;
    let mut spins: u32 = 0;
    while counter != 0
        invariant
            spins + counter == cycles,
        decreases counter,
    {
        counter -= 1;
        spins += 1;
    }
    spins
}


/// The ADC state word once a DMA-driven conversion has been started from
/// `state` with ADC_CR1 at `cr1`: Ready, Reg_EOC and Reg_OVR are cleared and
/// Reg_Busy is set; then, where conversions of the regular group also trigger
/// the injected group (JAUTO set in `cr1`), INJ_EOC is cleared and INJ_Busy is
/// set.
pub open spec fn dma_start_state(state: u32, cr1: u32) -> u32 {
    let regular = modified(state, 0x0601, 0x0100);
    if cr1 & 0x400 != RESET {
        modified(regular, 0x2000, 0x1000)
    } else {
        regular
    }
}

/// First decision of a DMA-driven ADC start: where the ADC is off, it must be
/// switched on and the returned number of cycles waited; where it is already
/// on, nothing is to be done (`None`).
pub fn adc_start_dma_enable_step(is_enabled: bool, sysclk_hz: u32) -> (r: Option<u32>)
    ensures
        is_enabled ==> r is None,
        !is_enabled ==> r == Some(stabilization_cycles(sysclk_hz)),
{
    if !is_enabled {
        Some(adc_stabilization_cycles(sysclk_hz))
    } else {
        None
    }
}

/// Second decision of a DMA-driven ADC start, once the ADC has been looked at
/// again: where it is on, the conversion is started and the new state word is
/// returned, `cr1` being the value of ADC_CR1; where it is still off, nothing
/// is started (`None`).
pub fn adc_start_dma_state(is_enabled: bool, state: u32, cr1: u32) -> (r: Option<u32>)
    ensures
        is_enabled ==> r == Some(dma_start_state(state, cr1)),
        !is_enabled ==> r is None,
{
    if is_enabled {
        let regular = ADC_STATE_CLR_SET(
            state,
            u32::from(ADCState::Ready) | u32::from(ADCState::Reg_EOC) | u32::from(ADCState::Reg_OVR),
            u32::from(ADCState::Reg_Busy),
        );
        assert(0x1u32 | 0x200u32 | 0x400u32 == 0x601u32) by (bit_vector);
        // Where conversions of the regular group also trigger the injected
        // group, update the state of the injected group too.
        if READ_BIT(cr1, ADC_CR1_JAUTO()) != RESET {
            let injected = ADC_STATE_CLR_SET(
                regular,
                u32::from(ADCState::INJ_EOC),
                u32::from(ADCState::INJ_Busy),
            );
            Some(injected)
        } else {
            Some(regular)
        }
    } else {
        None
    }
}

/// The value written to ADC_SR to clear the status flags `flags` (the flags
/// are cleared by writing 0 to them and 1 to every other bit), as the STM32
/// C HAL's `__HAL_ADC_CLEAR_FLAG` writes it.
pub fn adc_clear_flag_value(flags: u32) -> (sr: u32)
    ensures
        sr == !flags,
{
    !flags
}

/// ADC_CR1 with the interrupt enable bits `it` set, as the STM32 C HAL's
/// `__HAL_ADC_ENABLE_IT` sets them.
pub fn adc_enable_it_value(cr1: u32, it: u32) -> (r: u32)
    ensures
        r == cr1 | it,
{
    cr1 | it
}

/// The main loop's tick counter: each tick adds 2 to `count`; where it then
/// reaches 2, the ADC is sampled and the counter goes back to 0. Returns the
/// new counter and whether to sample.
pub fn sample_tick(count: i32) -> (r: (i32, bool))
    requires
        count <= i32::MAX - 2,
    ensures
        r.1 == (count + 2 == 2),
        r.0 == (if count + 2 == 2 { 0 } else { count + 2 }),
{
    let count: i32 = count + 2;
    if count == 2 {
        (0, true)
    } else {
        (count, false)
    }
}

/// Law of the sampling rhythm: from a cleared counter, every tick samples
/// and leaves the counter cleared.
pub proof fn lemma_sample_every_tick(count: i32)
    requires
        count == 0,
    ensures
        count + 2 == 2,
        (if count + 2 == 2 { 0 } else { count + 2 }) == 0,
{
}

/// Law of `modify_reg`: every bit of the set mask ends up set, every bit of
/// the clear mask that is not in the set mask ends up cleared, and every
/// other bit keeps its value.
pub proof fn lemma_modify_reg_bits(reg: u32, clear_mask: u32, set_mask: u32)
    ensures
        modified(reg, clear_mask, set_mask) & set_mask == set_mask,
        modified(reg, clear_mask, set_mask) & (clear_mask & !set_mask) == 0,
        modified(reg, clear_mask, set_mask) & !(clear_mask | set_mask) == reg & !(clear_mask
            | set_mask),
{
    assert(((reg & !clear_mask) | set_mask) & set_mask == set_mask) by (bit_vector);
    assert(((reg & !clear_mask) | set_mask) & (clear_mask & !set_mask) == 0) by (bit_vector);
    assert(((reg & !clear_mask) | set_mask) & !(clear_mask | set_mask) == reg & !(clear_mask
        | set_mask)) by (bit_vector);
}

/// Law of `modify_reg`: applying the same modification twice changes nothing
/// more than applying it once.
pub proof fn lemma_modify_reg_idempotent(reg: u32, clear_mask: u32, set_mask: u32)
    ensures
        modified(modified(reg, clear_mask, set_mask), clear_mask, set_mask) == modified(
            reg,
            clear_mask,
            set_mask,
        ),
{
    assert((((reg & !clear_mask) | set_mask) & !clear_mask) | set_mask == (reg & !clear_mask)
        | set_mask) by (bit_vector);
}

/// Law of `READ_BIT` over `ADC_STATE_CLR_SET`: reading back the bits that were
/// set gives them back.
pub proof fn lemma_read_bit_after_set(reg: u32, clear_mask: u32, set_mask: u32)
    ensures
        modified(reg, clear_mask, set_mask) & set_mask == set_mask,
{
    lemma_modify_reg_bits(reg, clear_mask, set_mask);
}

/// Law of the ADC state encoding: every state has a valid code, and decoding
/// its code gives the state back.
pub proof fn lemma_adc_state_code_round_trip(s: ADCState)
    ensures
        is_adc_state_code(adc_state_code(s)),
        adc_state_of_code(adc_state_code(s)) == s,
{
}

/// Law of the ADC state encoding: a valid code is the code of the state it
/// decodes to.
pub proof fn lemma_adc_state_of_code_round_trip(code: u32)
    requires
        is_adc_state_code(code),
    ensures
        adc_state_code(adc_state_of_code(code)) == code,
{
}

/// Law of the ADC state encoding: distinct states have distinct codes.
pub proof fn lemma_adc_state_code_injective(a: ADCState, b: ADCState)
    requires
        adc_state_code(a) == adc_state_code(b),
    ensures
        a == b,
{
    lemma_adc_state_code_round_trip(a);
    lemma_adc_state_code_round_trip(b);
}

/// Law of the functional state encoding: decoding the code of a state gives
/// the state back, and a valid code is the code of the state it decodes to.
pub proof fn lemma_functional_state_code_round_trip(s: FunctionalState, code: u32)
    ensures
        is_functional_state_code(functional_state_code(s)),
        functional_state_of_code(functional_state_code(s)) == s,
        is_functional_state_code(code) ==> functional_state_code(functional_state_of_code(code))
            == code,
{
}

/// Law of the DMA start: in the new state word Reg_Busy is set and Ready,
/// Reg_EOC and Reg_OVR are cleared; where JAUTO is set, INJ_Busy is set and
/// INJ_EOC cleared, and where it is not, both keep their value; every other
/// bit of the old state word is kept.
pub proof fn lemma_dma_start_state_bits(state: u32, cr1: u32)
    ensures
        dma_start_state(state, cr1) & 0x0100 == 0x0100,
        dma_start_state(state, cr1) & 0x0001 == 0,
        dma_start_state(state, cr1) & 0x0200 == 0,
        dma_start_state(state, cr1) & 0x0400 == 0,
        cr1 & 0x400 != 0 ==> dma_start_state(state, cr1) & 0x1000 == 0x1000,
        cr1 & 0x400 != 0 ==> dma_start_state(state, cr1) & 0x2000 == 0,
        cr1 & 0x400 == 0 ==> dma_start_state(state, cr1) & 0x3000 == state & 0x3000,
        dma_start_state(state, cr1) & !0x3701u32 == state & !0x3701u32,
{
    let r = modified(state, 0x0601, 0x0100);
    let i = modified(r, 0x2000, 0x1000);
    assert({
        &&& r & 0x0100 == 0x0100
        &&& r & 0x0001 == 0
        &&& r & 0x0200 == 0
        &&& r & 0x0400 == 0
        &&& r & 0x3000 == state & 0x3000
        &&& r & !0x3701u32 == state & !0x3701u32
        &&& i & 0x0100 == 0x0100
        &&& i & 0x0001 == 0
        &&& i & 0x0200 == 0
        &&& i & 0x0400 == 0
        &&& i & 0x1000 == 0x1000
        &&& i & 0x2000 == 0
        &&& i & !0x3701u32 == state & !0x3701u32
    }) by (bit_vector)
        requires
            r == (state & !0x0601u32) | 0x0100u32,
            i == (r & !0x2000u32) | 0x1000u32,
    ;
}

} // verus!
