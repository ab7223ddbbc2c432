//! DMA2 stream 0: the register images of the stream, the `DmaStream`,
//! `DmaStreamTransfer` and `Transfer` interfaces over them, one-shot and
//! double-buffered transfers, and the clock enabling of the DMA2 controller.
//!
//! Each register is a `u32` image. A field of `width` bits at bit `offset` is
//! written as the register access layer writes it: the field is cleared, then
//! the value, cut to the field's width, is placed there.
use core::marker::PhantomData;
use vstd::prelude::*;

verus! {

/// DMA2 clock enable (DMA2EN) in RCC_AHB1ENR.
pub const RCC_AHB1ENR_DMA2EN: u32 = 0x0040_0000;

/// DMA2 reset (DMA2RST) in RCC_AHB1RSTR.
pub const RCC_AHB1RSTR_DMA2RST: u32 = 0x0040_0000;

/// Interrupt number of DMA2 stream 0.
pub const DMA2_STREAM0_IRQN: u32 = 56;

/// The field of `reg` that is `mask` wide (a mask of ones) at bit `offset`.
pub open spec fn field(reg: u32, offset: u32, mask: u32) -> u32 {
    (reg >> offset) & mask
}

/// `reg` with the field that is `mask` wide at bit `offset` replaced by
/// `value` cut to that width.
pub open spec fn with_field(reg: u32, offset: u32, mask: u32, value: u32) -> u32 {
    (reg & !(mask << offset)) | ((value & mask) << offset)
}

/// Writes `value` into the field that is `mask` wide at bit `offset` of `reg`.
fn write_field(reg: u32, offset: u32, mask: u32, value: u32) -> (r: u32)
    requires
        offset < 32,
    ensures
        r == with_field(reg, offset, mask, value),
{
    (reg & !(mask << offset)) | ((value & mask) << offset)
}

/// Sets DMA2EN in RCC_AHB1ENR, as the register access layer writes a one-bit
/// field.
fn __HAL_RCC_DMA2_CLK_ENABLE(ahb1enr: u32) -> (r: u32)
    ensures
        r == ahb1enr | RCC_AHB1ENR_DMA2EN,
{
    let r = write_field(ahb1enr, 22, 1, 1);
    assert((ahb1enr & !(1u32 << 22u32)) | ((1u32 & 1u32) << 22u32) == ahb1enr | 0x0040_0000u32)
        by (bit_vector);
    r
}

/// Initializes the DMA: the value of RCC_AHB1ENR that switches the DMA2
/// controller's clock on, from its current value.
pub fn dma_init(ahb1enr: u32) -> (r: u32)
    ensures
        r == ahb1enr | RCC_AHB1ENR_DMA2EN,
{
    __HAL_RCC_DMA2_CLK_ENABLE(ahb1enr)
}

/// The value of RCC_AHB1RSTR that holds the DMA2 controller in reset.
pub fn dma2_reset_assert(ahb1rstr: u32) -> (r: u32)
    ensures
        r == ahb1rstr | RCC_AHB1RSTR_DMA2RST,
{
    let r = write_field(ahb1rstr, 22, 1, 1);
    assert((ahb1rstr & !(1u32 << 22u32)) | ((1u32 & 1u32) << 22u32) == ahb1rstr | 0x0040_0000u32)
        by (bit_vector);
    r
}

/// The value of RCC_AHB1RSTR that releases the DMA2 controller from reset.
pub fn dma2_reset_release(ahb1rstr: u32) -> (r: u32)
    ensures
        r == ahb1rstr & !RCC_AHB1RSTR_DMA2RST,
{
    let r = write_field(ahb1rstr, 22, 1, 0);
    assert((ahb1rstr & !(1u32 << 22u32)) | ((0u32 & 1u32) << 22u32) == ahb1rstr & !0x0040_0000u32)
        by (bit_vector);
    r
}

/// DMA channel, implemented by the types `C0`, `C1`, `C2`, …
pub trait DmaChannel {
    /// The number of the channel.
    spec fn number() -> u8;

    /// Numeric channel number
    fn channel() -> (c: u8)
        ensures
            c == Self::number(),
            c < 8,
    ;
}

/// DMA channel 0
pub struct C0;

impl DmaChannel for C0 {
    open spec fn number() -> u8 {
        0
    }

    fn channel() -> (c: u8)
        ensures
            c == 0,
    {
        0
    }
}

/// Events to enable interrupts for.
#[derive(Debug, PartialEq, Eq, Structural, Copy, Clone)]
pub enum Event {
    /// Half transfer
    HalfTransfer,
    /// Transfer complete
    TransferComplete,
}

/// One of the two memory buffers of a double-buffered transfer.
#[derive(Debug, PartialEq, Eq, Structural, Copy, Clone)]
pub enum DoubleBuffer {
    Memory0,
    Memory1,
}

/// The other buffer of the pair.
pub open spec fn other_buffer(b: DoubleBuffer) -> DoubleBuffer {
    match b {
        DoubleBuffer::Memory0 => DoubleBuffer::Memory1,
        DoubleBuffer::Memory1 => DoubleBuffer::Memory0,
    }
}

/// The index of a buffer: 0 for memory 0, 1 for memory 1.
pub open spec fn buffer_index(b: DoubleBuffer) -> int {
    match b {
        DoubleBuffer::Memory0 => 0,
        DoubleBuffer::Memory1 => 1,
    }
}

impl DoubleBuffer {
    /// The index of this buffer: 0 for memory 0, 1 for memory 1.
    pub fn index(self) -> (i: usize)
        ensures
            i == buffer_index(self),
    {
        match self {
            DoubleBuffer::Memory0 => 0,
            DoubleBuffer::Memory1 => 1,
        }
    }
}

impl core::ops::Not for DoubleBuffer {
    type Output = Self;

    fn not(self) -> (r: Self::Output) {
        match self {
            DoubleBuffer::Memory0 => DoubleBuffer::Memory1,
            DoubleBuffer::Memory1 => DoubleBuffer::Memory0,
        }
    }
}

impl vstd::std_specs::ops::NotSpecImpl for DoubleBuffer {
    open spec fn obeys_not_spec() -> bool {
        true
    }

    open spec fn not_req(self) -> bool {
        true
    }

    open spec fn not_spec(self) -> Self::Output {
        other_buffer(self)
    }
}

/// Law of `!` on buffers: it always names the other buffer, and taking it
/// twice gives the buffer back.
pub proof fn lemma_double_buffer_not(b: DoubleBuffer)
    ensures
        other_buffer(b) != b,
        other_buffer(other_buffer(b)) == b,
        buffer_index(other_buffer(b)) == 1 - buffer_index(b),
{
}

/// Whether elements of `n` bytes can be moved by the DMA.
pub open spec fn is_data_size(n: nat) -> bool {
    n == 1 || n == 2 || n == 4
}

/// The MSIZE/PSIZE code of elements of `n` bytes.
pub open spec fn data_size_code(n: nat) -> u8 {
    if n == 1 {
        0b00
    } else if n == 2 {
        0b01
    } else {
        0b10
    }
}

/// The MSIZE/PSIZE code of the element type `T`: 0b00 for a byte, 0b01 for a
/// half-word, 0b10 for a word. Other sizes have no code.
pub fn data_size<T>() -> (code: u8)
    requires
        is_data_size(vstd::layout::size_of::<T>()),
    ensures
        code == data_size_code(vstd::layout::size_of::<T>()),
{
    let n: usize = core::mem::size_of::<T>();
    if n == 1 {
        0b00
    } else if n == 2 {
        0b01
    } else {
        0b10
    }
}


/// Whether the one-bit field at `offset` of `reg` is set.
pub open spec fn bit_set(reg: u32, offset: u32) -> bool {
    field(reg, offset, 1) == 1
}

/// Reads the one-bit field at `offset` of `reg`.
fn read_bit(reg: u32, offset: u32) -> (b: bool)
    requires
        offset < 32,
    ensures
        b == bit_set(reg, offset),
{
    assert(((reg >> offset) & 1u32 != 0) == ((reg >> offset) & 1u32 == 1)) by (bit_vector);
    (reg >> offset) & 1 != 0
}

/// Offset of the interrupt enable bit of `event` in DMA_SxCR: HTIE (bit 3)
/// or TCIE (bit 4).
pub open spec fn event_offset(event: Event) -> u32 {
    match event {
        Event::HalfTransfer => 3,
        Event::TransferComplete => 4,
    }
}

/// Offset of TCIF0 (transfer complete of stream 0) in DMA_LISR.
pub const LISR_TCIF0: u32 = 5;

/// Offset of TEIF0 (transfer error of stream 0) in DMA_LISR.
pub const LISR_TEIF0: u32 = 3;

/// The value written to DMA_LIFCR to clear the transfer complete (CTCIF0,
/// bit 5) and transfer error (CTEIF0, bit 3) flags of stream 0.
pub const LIFCR_CLEAR_TC_TE0: u32 = 0x0000_0028;

/// Register images of DMA2 stream 0: its configuration (S0CR), number of
/// data items (S0NDTR), peripheral address (S0PAR), memory addresses (S0M0AR,
/// S0M1AR), the interrupt status of the low streams as last read (LISR), and
/// the value to be written to the interrupt flag clear register (LIFCR).
#[derive(Debug, PartialEq, Eq, Structural, Copy, Clone)]
pub struct S0 {
    pub cr: u32,
    pub ndtr: u32,
    pub par: u32,
    pub m0ar: u32,
    pub m1ar: u32,
    pub lisr: u32,
    pub lifcr: u32,
}

/// DMA stream peripheral
pub trait DmaStream {
    /// The transfer complete flag of the stream.
    spec fn complete_flag(&self) -> bool;

    /// The transfer error flag of the stream.
    spec fn error_flag(&self) -> bool;

    /// Enable interrupt
    fn listen(&mut self, event: Event);

    /// Disable interrupt
    fn unlisten(&mut self, event: Event);

    /// Transfer is complete?
    fn is_complete(&self) -> (b: bool)
        ensures
            b == self.complete_flag(),
    ;

    /// Transfer has error?
    fn has_error(&self) -> (b: bool)
        ensures
            b == self.error_flag(),
    ;

    /// Reset after a transfer
    fn reset(&mut self);
}

/// The stream registers once a transfer has been reset: the stream is
/// disabled with its configuration register written from its reset value,
/// and its transfer complete and error flags are to be cleared.
pub open spec fn reset_stream(s: S0) -> S0 {
    S0 { cr: with_field(0, 0, 1, 0), lifcr: LIFCR_CLEAR_TC_TE0, ..s }
}

impl DmaStream for S0 {
    open spec fn complete_flag(&self) -> bool {
        bit_set(self.lisr, LISR_TCIF0)
    }

    open spec fn error_flag(&self) -> bool {
        bit_set(self.lisr, LISR_TEIF0)
    }

    fn listen(&mut self, event: Event)
        ensures
            *final(self) == (S0 { cr: with_field(old(self).cr, event_offset(event), 1, 1), ..*old(self) }),
    {
        match event {
            Event::HalfTransfer => self.cr = write_field(self.cr, 3, 1, 1),
            Event::TransferComplete => self.cr = write_field(self.cr, 4, 1, 1),
        }
    }

    fn unlisten(&mut self, event: Event)
        ensures
            *final(self) == (S0 { cr: with_field(old(self).cr, event_offset(event), 1, 0), ..*old(self) }),
    {
        match event {
            Event::HalfTransfer => self.cr = write_field(self.cr, 3, 1, 0),
            Event::TransferComplete => self.cr = write_field(self.cr, 4, 1, 0),
        }
    }

    fn is_complete(&self) -> (b: bool) {
        read_bit(self.lisr, LISR_TCIF0)
    }

    fn has_error(&self) -> (b: bool) {
        read_bit(self.lisr, LISR_TEIF0)
    }

    fn reset(&mut self)
        ensures
            *final(self) == reset_stream(*old(self)),
    {
        // Disable the stream, writing the configuration from its reset value.
        self.cr = write_field(0, 0, 1, 0);
        // Clear the status bits.
        self.lifcr = LIFCR_CLEAR_TC_TE0;
    }
}


/// DMA transfer
pub trait Transfer<STREAM>: Sized {
    /// The transfer complete flag of the transfer's stream.
    spec fn transfer_complete(&self) -> bool;

    /// The transfer error flag of the transfer's stream.
    spec fn transfer_error(&self) -> bool;

    /// The stream handed back once the transfer has been reset.
    spec fn stream_after_reset(self) -> STREAM;

    /// Transfer is complete?
    fn is_complete(&self) -> (b: bool)
        ensures
            b == self.transfer_complete(),
    ;

    /// Transfer has error?
    fn has_error(&self) -> (b: bool)
        ensures
            b == self.transfer_error(),
    ;

    /// Reset after a transfer
    ///
    /// Consumes the finished transfer and returns the stream.
    fn reset(self) -> (s: STREAM)
        ensures
            s == self.stream_after_reset(),
    ;

    /// Ends a transfer that is either complete or has an error: the stream,
    /// reset, is `Ok` where the transfer is complete and `Err` otherwise.
    /// The flags are polled until one of them is raised before this is called.
    fn wait(self) -> (r: Result<STREAM, STREAM>)
        requires
            self.transfer_complete() || self.transfer_error(),
        ensures
            r is Ok <==> self.transfer_complete(),
            r matches Ok(s) ==> s == self.stream_after_reset(),
            r matches Err(s) ==> s == self.stream_after_reset(),
    {
        if self.is_complete() {
            Ok(self.reset())
        } else {
            Err(self.reset())
        }
    }
}

/// What one look at a transfer's stream finds.
#[derive(Debug, PartialEq, Eq, Structural, Copy, Clone)]
pub enum TransferPoll {
    /// Neither the transfer complete nor the transfer error flag is up: keep
    /// polling.
    Pending,
    /// The transfer is complete.
    Complete,
    /// The transfer has an error and is not complete.
    Error,
}

/// One step of waiting for a transfer, over the stream's registers as just
/// read: waiting goes on while neither flag is up, and then ends with `Ok`
/// where the transfer is complete and `Err` otherwise.
pub fn poll_transfer(s: &S0) -> (p: TransferPoll)
    ensures
        p == TransferPoll::Complete <==> s.complete_flag(),
        p == TransferPoll::Error <==> !s.complete_flag() && s.error_flag(),
        p == TransferPoll::Pending <==> !s.complete_flag() && !s.error_flag(),
{
    if s.is_complete() {
        TransferPoll::Complete
    } else if s.has_error() {
        TransferPoll::Error
    } else {
        TransferPoll::Pending
    }
}

/// A memory buffer of `len` elements of type `E` starting at address `addr`.
pub struct Buffer<E> {
    pub addr: u32,
    pub len: u32,
    pub elem: PhantomData<E>,
}

impl<E> Buffer<E> {
    /// The buffer of `len` elements at address `addr`.
    pub fn new(addr: u32, len: u32) -> (b: Buffer<E>)
        ensures
            b.addr == addr,
            b.len == len,
    {
        Buffer { addr, len, elem: PhantomData }
    }
}

/// A peripheral data register at address `addr`, holding elements of type `E`.
pub struct Target<E> {
    pub addr: u32,
    pub elem: PhantomData<E>,
}

impl<E> Target<E> {
    /// The peripheral data register at address `addr`.
    pub fn new(addr: u32) -> (t: Target<E>)
        ensures
            t.addr == addr,
    {
        Target { addr, elem: PhantomData }
    }
}

/// DMA stream that can start DMA transfer `X`
pub trait DmaStreamTransfer<S, T, X: Transfer<Self>>: DmaStream + Sized {
    /// Whether a transfer from `source` can be started.
    spec fn can_start(&self, source: S) -> bool;

    /// Start DMA transfer
    fn start_transfer<CHANNEL: DmaChannel>(self, source: S, target: &mut T) -> (x: X)
        requires
            self.can_start(source),
    ;
}

/// S0CR once configured for a memory-to-peripheral transfer of elements of
/// size code `size` on channel `channel`, double-buffered and circular where
/// `double` holds, then enabled: MSIZE (bits 13-14) and PSIZE (bits 11-12)
/// are `size`, MINC (bit 10) is set, PINC (bit 9) is cleared, DBM (bit 18)
/// and CIRC (bit 8) are `double`, CT (bit 19) is cleared, DIR (bits 6-7) is
/// 0b01, CHSEL (bits 25-27) is `channel`, and EN (bit 0) is set.
pub open spec fn configured_cr(cr: u32, size: u32, channel: u32, double: bool) -> u32 {
    let flag: u32 = if double { 1 } else { 0 };
    let c = with_field(cr, 13, 3, size);
    let c = with_field(c, 10, 1, 1);
    let c = with_field(c, 11, 3, size);
    let c = with_field(c, 9, 1, 0);
    let c = with_field(c, 18, 1, flag);
    let c = with_field(c, 19, 1, 0);
    let c = with_field(c, 8, 1, flag);
    let c = with_field(c, 6, 3, 1);
    let c = with_field(c, 25, 7, channel);
    with_field(c, 0, 1, 1)
}

/// Configures S0CR for a memory-to-peripheral transfer, then enables it.
fn configure_cr(cr: u32, size: u8, channel: u8, double: bool) -> (r: u32)
    ensures
        r == configured_cr(cr, size as u32, channel as u32, double),
{
    let flag: u32 = if double { 1 } else { 0 };
    let c = write_field(cr, 13, 3, size as u32);
    let c = write_field(c, 10, 1, 1);
    let c = write_field(c, 11, 3, size as u32);
    let c = write_field(c, 9, 1, 0);
    let c = write_field(c, 18, 1, flag);
    let c = write_field(c, 19, 1, 0);
    let c = write_field(c, 8, 1, flag);
    // Memory to peripheral
    let c = write_field(c, 6, 3, 1);
    let c = write_field(c, 25, 7, channel as u32);
    // Enable stream
    write_field(c, 0, 1, 1)
}

/// The `sent` marks after polling with `writable()` while the stream is `s`:
/// the front buffer is marked as sent.
pub open spec fn sent_after_poll(sent: Seq<bool>, s: S0) -> Seq<bool> {
    sent.update(buffer_index(front_of(s)), true)
}

/// What `writable()` answers while the stream is `s`: whether the back buffer
/// is marked as sent once the front buffer has been marked.
pub open spec fn poll_result(sent: Seq<bool>, s: S0) -> bool {
    sent_after_poll(sent, s)[buffer_index(other_buffer(front_of(s)))]
}

/// The `sent` marks after the back buffer has been written while the stream
/// is `s`: the back buffer is marked as not sent.
pub open spec fn sent_after_write(sent: Seq<bool>, s: S0) -> Seq<bool> {
    sent.update(buffer_index(other_buffer(front_of(s))), false)
}

/// The stream once the back buffer's address has been set to `addr`.
pub open spec fn stream_after_write(s: S0, addr: u32) -> S0 {
    match other_buffer(front_of(s)) {
        DoubleBuffer::Memory0 => S0 { m0ar: addr, ..s },
        DoubleBuffer::Memory1 => S0 { m1ar: addr, ..s },
    }
}

/// Double-buffered DMA transfer
pub struct DoubleBufferedTransfer<E> {
    /// So that `writable()` can detect a buffer switch
    pub sent: [bool; 2],
    pub elem: PhantomData<E>,
    pub stream: S0,
}

/// The buffer the stream currently reads from: memory 1 where CT (bit 19)
/// of S0CR is set, memory 0 otherwise.
pub open spec fn front_of(s: S0) -> DoubleBuffer {
    if bit_set(s.cr, 19) {
        DoubleBuffer::Memory1
    } else {
        DoubleBuffer::Memory0
    }
}

impl<E> DoubleBufferedTransfer<E> {
    /// Construct a new DMA transfer state, returned by `start_transfer`
    /// which configures and enables the stream before.
    pub fn new(stream: S0) -> (t: Self)
        ensures
            t.stream == stream,
            t.sent@ == seq![false, false],
    {
        DoubleBufferedTransfer { sent: [false, false], elem: PhantomData, stream }
    }

    /// Return the index of the buffer currently being sent
    pub fn front_buffer(&self) -> (b: DoubleBuffer)
        ensures
            b == front_of(self.stream),
    {
        if read_bit(self.stream.cr, 19) {
            DoubleBuffer::Memory1
        } else {
            DoubleBuffer::Memory0
        }
    }

    /// Return the index of the buffer **not** currently being sent
    pub fn back_buffer(&self) -> (b: DoubleBuffer)
        ensures
            b == other_buffer(front_of(self.stream)),
    {
        core::ops::Not::not(self.front_buffer())
    }

    /// Has the back buffer been sent?
    ///
    /// As this is used for polling, the function updates the `sent` status
    /// of the front buffer.
    pub fn writable(&mut self) -> (r: bool)
        ensures
            final(self).stream == old(self).stream,
            final(self).sent@ == sent_after_poll(old(self).sent@, old(self).stream),
            r == poll_result(old(self).sent@, old(self).stream),
    {
        // Mark front buffer as being sent
        let front = self.front_buffer();
        self.sent[front.index()] = true;
        let back = self.back_buffer();
        self.sent[back.index()]
    }

    /// Update the back buffer with `source`; fails where the stream has a
    /// transfer error.
    pub fn write(&mut self, source: &Buffer<E>) -> (r: Result<(), ()>)
        requires
            old(self).stream.error_flag() || source.len > 0,
        ensures
            r is Err <==> old(self).stream.error_flag(),
            r is Err ==> *final(self) == *old(self),
            r is Ok ==> final(self).stream == stream_after_write(old(self).stream, source.addr),
            r is Ok ==> final(self).sent@ == sent_after_write(old(self).sent@, old(self).stream),
    {
        if self.stream.has_error() {
            return Err(());
        }
        let bb = self.back_buffer();
        match bb {
            DoubleBuffer::Memory0 => self.stream.m0ar = source.addr,
            DoubleBuffer::Memory1 => self.stream.m1ar = source.addr,
        }
        // Let `writable()` mark it when it becomes the `front_buffer()`
        self.sent[bb.index()] = false;
        Ok(())
    }
}

impl<E> Transfer<S0> for DoubleBufferedTransfer<E> {
    open spec fn transfer_complete(&self) -> bool {
        self.stream.complete_flag()
    }

    open spec fn transfer_error(&self) -> bool {
        self.stream.error_flag()
    }

    open spec fn stream_after_reset(self) -> S0 {
        reset_stream(self.stream)
    }

    fn is_complete(&self) -> (b: bool) {
        self.stream.is_complete()
    }

    fn has_error(&self) -> (b: bool) {
        self.stream.has_error()
    }

    fn reset(self) -> (s: S0) {
        let mut stream = self.stream;
        stream.reset();
        stream
    }
}

/// One-shot DMA transfer
pub struct OneShotTransfer<E> {
    pub source: Buffer<E>,
    pub stream: S0,
}

impl<E> OneShotTransfer<E> {
    /// Construct a new DMA transfer state, returned by `start_transfer`
    /// which configures and enables the stream before.
    pub fn new(stream: S0, source: Buffer<E>) -> (t: Self)
        ensures
            t.stream == stream,
            t.source == source,
    {
        OneShotTransfer { source, stream }
    }

    /// The configuration register of the stream.
    pub fn status(&self) -> (bits: u32)
        ensures
            bits == self.stream.cr,
    {
        self.stream.cr
    }
}

impl<E> Transfer<S0> for OneShotTransfer<E> {
    open spec fn transfer_complete(&self) -> bool {
        self.stream.complete_flag()
    }

    open spec fn transfer_error(&self) -> bool {
        self.stream.error_flag()
    }

    open spec fn stream_after_reset(self) -> S0 {
        reset_stream(self.stream)
    }

    fn is_complete(&self) -> (b: bool) {
        self.stream.is_complete()
    }

    fn has_error(&self) -> (b: bool) {
        self.stream.has_error()
    }

    fn reset(self) -> (s: S0) {
        let mut stream = self.stream;
        stream.reset();
        stream
    }
}

impl<E> DmaStreamTransfer<(Buffer<E>, Buffer<E>), Target<E>, DoubleBufferedTransfer<E>> for S0 {
    open spec fn can_start(&self, source: (Buffer<E>, Buffer<E>)) -> bool {
        &&& source.0.len == source.1.len
        &&& source.0.len > 0
        &&& is_data_size(vstd::layout::size_of::<E>())
    }

    /// Configure, enable, and return a double-buffered DMA transfer.
    fn start_transfer<CHANNEL: DmaChannel>(
        self,
        source: (Buffer<E>, Buffer<E>),
        target: &mut Target<E>,
    ) -> (x: DoubleBufferedTransfer<E>)
        ensures
            x.sent@ == seq![false, false],
            x.stream == (S0 {
                cr: configured_cr(
                    self.cr,
                    data_size_code(vstd::layout::size_of::<E>()) as u32,
                    CHANNEL::number() as u32,
                    true,
                ),
                m0ar: source.0.addr,
                m1ar: source.1.addr,
                ndtr: source.0.len,
                par: old(target).addr,
                ..self
            }),
            *final(target) == *old(target),
    {
        let mut stream = self;
        let size = data_size::<E>();
        let channel = CHANNEL::channel();
        stream.m0ar = source.0.addr;
        stream.m1ar = source.1.addr;
        stream.ndtr = source.0.len;
        stream.par = target.addr;
        stream.cr = configure_cr(stream.cr, size, channel, true);
        DoubleBufferedTransfer::new(stream)
    }
}

impl<E> DmaStreamTransfer<Buffer<E>, Target<E>, OneShotTransfer<E>> for S0 {
    open spec fn can_start(&self, source: Buffer<E>) -> bool {
        is_data_size(vstd::layout::size_of::<E>())
    }

    /// Configure, enable, and return a one-shot DMA transfer.
    fn start_transfer<CHANNEL: DmaChannel>(
        self,
        source: Buffer<E>,
        target: &mut Target<E>,
    ) -> (x: OneShotTransfer<E>)
        ensures
            x.source == source,
            x.stream == (S0 {
                cr: configured_cr(
                    self.cr,
                    data_size_code(vstd::layout::size_of::<E>()) as u32,
                    CHANNEL::number() as u32,
                    false,
                ),
                m0ar: source.addr,
                ndtr: source.len,
                par: old(target).addr,
                ..self
            }),
            *final(target) == *old(target),
    {
        let mut stream = self;
        let size = data_size::<E>();
        let channel = CHANNEL::channel();
        stream.m0ar = source.addr;
        stream.ndtr = source.len;
        stream.par = target.addr;
        stream.cr = configure_cr(stream.cr, size, channel, false);
        OneShotTransfer::new(stream, source)
    }
}


/// The value written to DMA_LIFCR to clear every interrupt flag of stream 0
/// (CFEIF0, CDMEIF0, CTEIF0, CHTIF0, CTCIF0).
pub const LIFCR_CLEAR_ALL0: u32 = 0x0000_003D;

/// Interrupt enable bits set when a transfer is started with interrupts:
/// TCIE (bit 4), HTIE (bit 3), TEIE (bit 2) and DMEIE (bit 1) of S0CR.
pub const CR_TRANSFER_IRQS: u32 = 0x0000_001E;

/// The stream registers once a single-buffer transfer of `length` items from
/// `src_addr` to `dst_addr` has been started with its interrupts: double
/// buffering is switched off, the peripheral address is the destination
/// where the stream is set for memory-to-peripheral (DIR is 0b01) and the
/// source otherwise, the memory address is the other one, every flag of the
/// stream is to be cleared, and the transfer interrupts and the stream are
/// enabled.
pub open spec fn started_it(s: S0, src_addr: u32, dst_addr: u32, length: u32) -> S0 {
    let to_peripheral = field(s.cr, 6, 3) == 1;
    S0 {
        cr: with_field(with_field(s.cr, 18, 1, 0) | CR_TRANSFER_IRQS, 0, 1, 1),
        ndtr: length,
        par: if to_peripheral { dst_addr } else { src_addr },
        m0ar: if to_peripheral { src_addr } else { dst_addr },
        lifcr: LIFCR_CLEAR_ALL0,
        ..s
    }
}

impl S0 {
    /// Starts a single-buffer transfer of `length` items from `src_addr` to
    /// `dst_addr`, with the transfer complete, half transfer, transfer error
    /// and direct mode error interrupts enabled. This follows the STM32 C
    /// HAL's `HAL_DMA_Start_IT` for a stream with a half transfer callback,
    /// except that the FIFO control register (its FIFO error interrupt) is
    /// not handled here.
    pub fn start_it(self, src_addr: u32, dst_addr: u32, length: u32) -> (s: S0)
        ensures
            s == started_it(self, src_addr, dst_addr, length),
    {
        let mut s = self;
        let cr0: u32 = self.cr;
        // Single buffer
        let cr1: u32 = write_field(cr0, 18, 1, 0);
        s.cr = cr1;
        s.ndtr = length;
        assert(((cr1 >> 6u32) & 3u32 == 1u32) == (((cr0 >> 6u32) & 3u32) == 1u32)) by (bit_vector)
            requires
                cr1 == (cr0 & !(1u32 << 18u32)) | ((0u32 & 1u32) << 18u32),
        ;
        if (cr1 >> 6) & 3 == 1 {
            // Memory to peripheral
            s.par = dst_addr;
            s.m0ar = src_addr;
        } else {
            s.par = src_addr;
            s.m0ar = dst_addr;
        }
        s.lifcr = LIFCR_CLEAR_ALL0;
        s.cr = write_field(s.cr | CR_TRANSFER_IRQS, 0, 1, 1);
        s
    }
}

/// Split the DMA device into separate streams.
pub trait DmaExt {
    /// Target type
    type Streams;

    /// Split into separate streams.
    fn split(self) -> Self::Streams;
}

/// Register images of the DMA2 controller's streams.
#[derive(Debug, PartialEq, Eq, Structural, Copy, Clone)]
pub struct DMA2 {
    pub s0: S0,
}

/// The numbered DMA streams of a device that you can use separately.
#[derive(Debug, PartialEq, Eq, Structural, Copy, Clone)]
pub struct Streams {
    /// DMA stream 0
    pub s0: S0,
}

impl DmaExt for DMA2 {
    type Streams = Streams;

    /// Resets the control register of every stream, which stops all ongoing
    /// transfers, and hands the streams out. The controller's clock is
    /// enabled and its reset pulsed beforehand, with `dma_init`,
    /// `dma2_reset_assert` and `dma2_reset_release`.
    fn split(self) -> (streams: Streams)
        ensures
            streams.s0 == (S0 { cr: 0, ..self.s0 }),
    {
        let mut s0 = self.s0;
        s0.cr = 0;
        Streams { s0 }
    }
}

/// Law of `listen` and `unlisten`: listening sets the event's interrupt
/// enable bit, unlistening clears it, each leaves every other bit of S0CR as
/// it was, listening twice is listening once, and unlistening after
/// listening gives back S0CR with only that bit cleared.
pub proof fn lemma_listen_unlisten(cr: u32, event: Event)
    ensures
        bit_set(with_field(cr, event_offset(event), 1, 1), event_offset(event)),
        !bit_set(with_field(cr, event_offset(event), 1, 0), event_offset(event)),
        with_field(cr, event_offset(event), 1, 1) & !(1u32 << event_offset(event)) == cr & !(1u32
            << event_offset(event)),
        with_field(cr, event_offset(event), 1, 0) & !(1u32 << event_offset(event)) == cr & !(1u32
            << event_offset(event)),
        with_field(with_field(cr, event_offset(event), 1, 1), event_offset(event), 1, 1)
            == with_field(cr, event_offset(event), 1, 1),
        with_field(with_field(cr, event_offset(event), 1, 1), event_offset(event), 1, 0) == cr
            & !(1u32 << event_offset(event)),
{
    let o = event_offset(event);
    assert(o < 32);
    assert(o < 32 ==> {
        &&& ((((cr & !(1u32 << o)) | ((1u32 & 1u32) << o)) >> o) & 1u32) == 1u32
        &&& ((((cr & !(1u32 << o)) | ((0u32 & 1u32) << o)) >> o) & 1u32) != 1u32
        &&& ((cr & !(1u32 << o)) | ((1u32 & 1u32) << o)) & !(1u32 << o) == cr & !(1u32 << o)
        &&& ((cr & !(1u32 << o)) | ((0u32 & 1u32) << o)) & !(1u32 << o) == cr & !(1u32 << o)
        &&& ((((cr & !(1u32 << o)) | ((1u32 & 1u32) << o)) & !(1u32 << o)) | ((1u32 & 1u32) << o))
            == (cr & !(1u32 << o)) | ((1u32 & 1u32) << o)
        &&& ((((cr & !(1u32 << o)) | ((1u32 & 1u32) << o)) & !(1u32 << o)) | ((0u32 & 1u32) << o))
            == cr & !(1u32 << o)
    }) by (bit_vector);
}

/// Law of `listen`: the interrupt enable bits of the two events are apart,
/// so listening to one event leaves the other's bit as it was.
pub proof fn lemma_listen_other_event(cr: u32, event: Event, other: Event)
    requires
        event != other,
    ensures
        bit_set(with_field(cr, event_offset(event), 1, 1), event_offset(other)) == bit_set(
            cr,
            event_offset(other),
        ),
        bit_set(with_field(cr, event_offset(event), 1, 0), event_offset(other)) == bit_set(
            cr,
            event_offset(other),
        ),
{
    let o = event_offset(event);
    let p = event_offset(other);
    assert(o < 32 && p < 32 && o != p ==> {
        &&& ((((cr & !(1u32 << o)) | ((1u32 & 1u32) << o)) >> p) & 1u32) == ((cr >> p) & 1u32)
        &&& ((((cr & !(1u32 << o)) | ((0u32 & 1u32) << o)) >> p) & 1u32) == ((cr >> p) & 1u32)
    }) by (bit_vector);
}

/// Law of `start_transfer`: once configured, S0CR holds in each field the
/// value that the transfer asks for (the element size code in MSIZE and
/// PSIZE, memory increment on, peripheral increment off, DBM and CIRC as the
/// kind of transfer, CT cleared, memory-to-peripheral direction, the channel
/// in CHSEL, and the stream enabled), and every bit outside these fields
/// keeps its value.
pub proof fn lemma_configured_cr_fields(cr: u32, size: u32, channel: u32, double: bool)
    requires
        size < 4,
        channel < 8,
    ensures
        field(configured_cr(cr, size, channel, double), 13, 3) == size,
        field(configured_cr(cr, size, channel, double), 11, 3) == size,
        bit_set(configured_cr(cr, size, channel, double), 10),
        !bit_set(configured_cr(cr, size, channel, double), 9),
        bit_set(configured_cr(cr, size, channel, double), 18) == double,
        !bit_set(configured_cr(cr, size, channel, double), 19),
        bit_set(configured_cr(cr, size, channel, double), 8) == double,
        field(configured_cr(cr, size, channel, double), 6, 3) == 1,
        field(configured_cr(cr, size, channel, double), 25, 7) == channel,
        bit_set(configured_cr(cr, size, channel, double), 0),
        configured_cr(cr, size, channel, double) & !0x0E0C_7FC1u32 == cr & !0x0E0C_7FC1u32,
{
    let f: u32 = if double { 1 } else { 0 };
    let c1 = with_field(cr, 13, 3, size);
    let c2 = with_field(c1, 10, 1, 1);
    let c3 = with_field(c2, 11, 3, size);
    let c4 = with_field(c3, 9, 1, 0);
    let c5 = with_field(c4, 18, 1, f);
    let c6 = with_field(c5, 19, 1, 0);
    let c7 = with_field(c6, 8, 1, f);
    let c8 = with_field(c7, 6, 3, 1);
    let c9 = with_field(c8, 25, 7, channel);
    let c = with_field(c9, 0, 1, 1);
    assert(c == configured_cr(cr, size, channel, double));
    assert({
        &&& (c >> 13u32) & 3u32 == size
        &&& (c >> 11u32) & 3u32 == size
        &&& (c >> 10u32) & 1u32 == 1u32
        &&& (c >> 9u32) & 1u32 == 0u32
        &&& (c >> 18u32) & 1u32 == f
        &&& (c >> 19u32) & 1u32 == 0u32
        &&& (c >> 8u32) & 1u32 == f
        &&& (c >> 6u32) & 3u32 == 1u32
        &&& (c >> 25u32) & 7u32 == channel
        &&& (c >> 0u32) & 1u32 == 1u32
        &&& c & !0x0E0C_7FC1u32 == cr & !0x0E0C_7FC1u32
    }) by (bit_vector)
        requires
            size < 4,
            channel < 8,
            f <= 1,
            c1 == (cr & !(3u32 << 13u32)) | ((size & 3u32) << 13u32),
            c2 == (c1 & !(1u32 << 10u32)) | ((1u32 & 1u32) << 10u32),
            c3 == (c2 & !(3u32 << 11u32)) | ((size & 3u32) << 11u32),
            c4 == (c3 & !(1u32 << 9u32)) | ((0u32 & 1u32) << 9u32),
            c5 == (c4 & !(1u32 << 18u32)) | ((f & 1u32) << 18u32),
            c6 == (c5 & !(1u32 << 19u32)) | ((0u32 & 1u32) << 19u32),
            c7 == (c6 & !(1u32 << 8u32)) | ((f & 1u32) << 8u32),
            c8 == (c7 & !(3u32 << 6u32)) | ((1u32 & 3u32) << 6u32),
            c9 == (c8 & !(7u32 << 25u32)) | ((channel & 7u32) << 25u32),
            c == (c9 & !(1u32 << 0u32)) | ((1u32 & 1u32) << 0u32),
    ;
}

/// Law of `reset`: the stream is disabled with a configuration register of
/// all zeros, and the transfer complete and error flags of stream 0 are
/// cleared; the other registers are kept.
pub proof fn lemma_reset_stream(s: S0)
    ensures
        reset_stream(s).cr == 0,
        bit_set(reset_stream(s).lifcr, 5),
        bit_set(reset_stream(s).lifcr, 3),
        reset_stream(s).ndtr == s.ndtr,
        reset_stream(s).par == s.par,
        reset_stream(s).m0ar == s.m0ar,
        reset_stream(s).m1ar == s.m1ar,
        reset_stream(s).lisr == s.lisr,
{
    assert((0u32 & !(1u32 << 0u32)) | ((0u32 & 1u32) << 0u32) == 0u32) by (bit_vector);
    assert(((0x28u32 >> 5u32) & 1u32) == 1u32 && ((0x28u32 >> 3u32) & 1u32) == 1u32)
        by (bit_vector);
}

/// Law of the double-buffered protocol: once the back buffer has been
/// written, `writable()` answers `false` as long as the stream has not
/// switched buffers.
pub proof fn lemma_write_then_poll(sent: Seq<bool>, s: S0, later: S0)
    requires
        sent.len() == 2,
        front_of(later) == front_of(s),
    ensures
        !poll_result(sent_after_write(sent, s), later),
{
}

/// Law of the double-buffered protocol: a buffer polled while it was the
/// front one is reported as sent by `writable()` once the stream has
/// switched to the other buffer.
pub proof fn lemma_poll_after_switch(sent: Seq<bool>, s: S0, later: S0)
    requires
        sent.len() == 2,
        front_of(later) == other_buffer(front_of(s)),
    ensures
        poll_result(sent_after_poll(sent, s), later),
{
}

/// Law of `start_it`: the started stream is enabled, single-buffered, with
/// the four transfer interrupts enabled, and its direction and every other
/// configuration bit kept.
pub proof fn lemma_started_it(s: S0, src_addr: u32, dst_addr: u32, length: u32)
    ensures
        bit_set(started_it(s, src_addr, dst_addr, length).cr, 0),
        !bit_set(started_it(s, src_addr, dst_addr, length).cr, 18),
        started_it(s, src_addr, dst_addr, length).cr & CR_TRANSFER_IRQS == CR_TRANSFER_IRQS,
        field(started_it(s, src_addr, dst_addr, length).cr, 6, 3) == field(s.cr, 6, 3),
        started_it(s, src_addr, dst_addr, length).cr & !0x0004_001Fu32 == s.cr & !0x0004_001Fu32,
{
    let cr = s.cr;
    let c = started_it(s, src_addr, dst_addr, length).cr;
    assert({
        &&& (c >> 0u32) & 1u32 == 1u32
        &&& (c >> 18u32) & 1u32 == 0u32
        &&& c & 0x1Eu32 == 0x1Eu32
        &&& (c >> 6u32) & 3u32 == (cr >> 6u32) & 3u32
        &&& c & !0x0004_001Fu32 == cr & !0x0004_001Fu32
    }) by (bit_vector)
        requires
            c == ((((cr & !(1u32 << 18u32)) | ((0u32 & 1u32) << 18u32)) | 0x1Eu32) & !(1u32
                << 0u32)) | ((1u32 & 1u32) << 0u32),
    ;
}

/// Law of the double-buffered transfer: the stream reads memory 1 exactly
/// when CT (bit 19 of S0CR) is set, whatever DBM (bit 18) or any other bit
/// holds; so writing the back buffer sets M1AR and keeps M0AR while CT is
/// clear, and sets M0AR and keeps M1AR while CT is set, every other register
/// being kept.
pub proof fn lemma_front_buffer_is_ct(s: S0, addr: u32)
    ensures
        (front_of(s) == DoubleBuffer::Memory1) == (s.cr & 0x0008_0000 != 0),
        (front_of(s) == DoubleBuffer::Memory0) == (s.cr & 0x0008_0000 == 0),
        s.cr & 0x0008_0000 == 0 ==> stream_after_write(s, addr) == (S0 {
            cr: s.cr,
            ndtr: s.ndtr,
            par: s.par,
            m0ar: s.m0ar,
            m1ar: addr,
            lisr: s.lisr,
            lifcr: s.lifcr,
        }),
        s.cr & 0x0008_0000 != 0 ==> stream_after_write(s, addr) == (S0 {
            cr: s.cr,
            ndtr: s.ndtr,
            par: s.par,
            m0ar: addr,
            m1ar: s.m1ar,
            lisr: s.lisr,
            lifcr: s.lifcr,
        }),
{
    let cr = s.cr;
    assert((((cr >> 19u32) & 1u32) == 1u32) == (cr & 0x0008_0000u32 != 0u32)) by (bit_vector);
}

/// Law of the stream flags: a transfer is complete exactly when TCIF0 (bit 5
/// of LISR) is set and has an error exactly when TEIF0 (bit 3) is set; no
/// other bit of LISR (the half transfer flag HTIF0 at bit 4, the flags of the
/// other streams) counts.
pub proof fn lemma_stream_flags(s: S0)
    ensures
        s.complete_flag() == (s.lisr & 0x20 != 0),
        s.error_flag() == (s.lisr & 0x08 != 0),
        s.lisr & 0x28 == 0 ==> !s.complete_flag() && !s.error_flag(),
{
    let l = s.lisr;
    assert({
        &&& (((l >> 5u32) & 1u32) == 1u32) == (l & 0x20u32 != 0u32)
        &&& (((l >> 3u32) & 1u32) == 1u32) == (l & 0x08u32 != 0u32)
        &&& (l & 0x28u32 == 0u32 ==> l & 0x20u32 == 0u32 && l & 0x08u32 == 0u32)
    }) by (bit_vector);
}

/// Law of the transfers: a one-shot or a double-buffered transfer is
/// complete exactly when TCIF0 (bit 5) of its stream's LISR is set and has an
/// error exactly when TEIF0 (bit 3) is set; so `wait` on a transfer with
/// TEIF0 set and TCIF0 clear ends in `Err`.
pub proof fn lemma_transfer_flags<E>(t: OneShotTransfer<E>, d: DoubleBufferedTransfer<E>)
    ensures
        t.transfer_complete() == (t.stream.lisr & 0x20 != 0),
        t.transfer_error() == (t.stream.lisr & 0x08 != 0),
        d.transfer_complete() == (d.stream.lisr & 0x20 != 0),
        d.transfer_error() == (d.stream.lisr & 0x08 != 0),
{
    lemma_stream_flags(t.stream);
    lemma_stream_flags(d.stream);
}

/// Law of resetting a transfer: whatever the transfer and its configuration
/// (double-buffered or not), the stream handed back has S0CR all zeros, so
/// it is disabled, LIFCR set to clear TCIF0 and TEIF0 (0x28), and every other
/// register as it was.
pub proof fn lemma_transfer_reset<E>(t: OneShotTransfer<E>, d: DoubleBufferedTransfer<E>)
    ensures
        t.stream_after_reset() == (S0 {
            cr: 0,
            ndtr: t.stream.ndtr,
            par: t.stream.par,
            m0ar: t.stream.m0ar,
            m1ar: t.stream.m1ar,
            lisr: t.stream.lisr,
            lifcr: 0x28,
        }),
        d.stream_after_reset() == (S0 {
            cr: 0,
            ndtr: d.stream.ndtr,
            par: d.stream.par,
            m0ar: d.stream.m0ar,
            m1ar: d.stream.m1ar,
            lisr: d.stream.lisr,
            lifcr: 0x28,
        }),
{
    lemma_reset_stream(t.stream);
    lemma_reset_stream(d.stream);
}

} // verus!
