use nucleo_rust::dma::{
    data_size, dma2_reset_assert, dma2_reset_release, dma_init, Buffer, DmaChannel, DmaExt,
    DmaStream, DmaStreamTransfer, DoubleBuffer, DoubleBufferedTransfer, Event, OneShotTransfer,
    Target, Transfer, TransferPoll, C0, DMA2, poll_transfer, LIFCR_CLEAR_TC_TE0, RCC_AHB1ENR_DMA2EN, S0,
};

fn stream(cr: u32, lisr: u32) -> S0 {
    S0 { cr, ndtr: 7, par: 0x11, m0ar: 0x22, m1ar: 0x33, lisr, lifcr: 0 }
}

#[test]
fn dma_init_enables_dma2_clock() {
    assert_eq!(dma_init(0), 0x0040_0000);
    assert_eq!(dma_init(0x0000_0001), 0x0040_0001);
    assert_eq!(dma_init(RCC_AHB1ENR_DMA2EN), RCC_AHB1ENR_DMA2EN);
}

#[test]
fn dma2_reset_pulse() {
    assert_eq!(dma2_reset_assert(0x1), 0x0040_0001);
    assert_eq!(dma2_reset_release(0x0040_0001), 0x1);
}

#[test]
fn channel_zero() {
    assert_eq!(C0::channel(), 0);
}

#[test]
fn data_sizes() {
    assert_eq!(data_size::<u8>(), 0b00);
    assert_eq!(data_size::<u16>(), 0b01);
    assert_eq!(data_size::<u32>(), 0b10);
    assert_eq!(data_size::<i32>(), 0b10);
}

#[test]
fn double_buffer_not_and_index() {
    assert_eq!(!DoubleBuffer::Memory0, DoubleBuffer::Memory1);
    assert_eq!(!DoubleBuffer::Memory1, DoubleBuffer::Memory0);
    assert_eq!(!!DoubleBuffer::Memory1, DoubleBuffer::Memory1);
    assert_eq!(DoubleBuffer::Memory0.index(), 0);
    assert_eq!(DoubleBuffer::Memory1.index(), 1);
}

#[test]
fn listen_and_unlisten() {
    let mut s = stream(0, 0);
    s.listen(Event::HalfTransfer);
    assert_eq!(s.cr, 0x08);
    s.listen(Event::TransferComplete);
    assert_eq!(s.cr, 0x18);
    s.listen(Event::TransferComplete);
    assert_eq!(s.cr, 0x18);
    s.unlisten(Event::HalfTransfer);
    assert_eq!(s.cr, 0x10);
    s.unlisten(Event::TransferComplete);
    assert_eq!(s.cr, 0);
    assert_eq!(s.ndtr, 7);
}

#[test]
fn status_flags() {
    assert!(stream(0, 0x20).is_complete());
    assert!(!stream(0, 0x20).has_error());
    assert!(stream(0, 0x08).has_error());
    assert!(!stream(0, 0x08).is_complete());
    // flags of the other low streams do not count
    assert!(!stream(0, 0x0800_0800).is_complete());
    assert!(!stream(0, 0x0200_0200).has_error());
}

#[test]
fn reset_disables_and_clears_flags() {
    let mut s = stream(0x42D41, 0x28);
    DmaStream::reset(&mut s);
    assert_eq!(s.cr, 0);
    assert_eq!(s.lifcr, LIFCR_CLEAR_TC_TE0);
    assert_eq!(s.lifcr, 0x28);
    assert_eq!(s.m0ar, 0x22);
}

#[test]
fn start_double_buffered_transfer() {
    let s = stream(0, 0);
    let mut target: Target<u16> = Target::new(0x4000_4404);
    let t: DoubleBufferedTransfer<u16> = s.start_transfer::<C0>(
        (Buffer::new(0x2000_0000, 4), Buffer::new(0x2000_0010, 4)),
        &mut target,
    );
    assert_eq!(t.stream.cr, 0x0004_2D41);
    assert_eq!(t.stream.m0ar, 0x2000_0000);
    assert_eq!(t.stream.m1ar, 0x2000_0010);
    assert_eq!(t.stream.ndtr, 4);
    assert_eq!(t.stream.par, 0x4000_4404);
    assert_eq!(t.sent, [false, false]);
    assert_eq!(target.addr, 0x4000_4404);
}

#[test]
fn start_one_shot_transfer() {
    // CT set and other bits outside the configured fields are kept
    let s = stream(0x0008_0000 | 0x0001_0000, 0);
    let mut target: Target<u8> = Target::new(0x4001_1004);
    let t: OneShotTransfer<u8> = s.start_transfer::<C0>(Buffer::new(0x2000_0100, 16), &mut target);
    assert_eq!(t.stream.cr, 0x0001_0441);
    assert_eq!(t.status(), 0x0001_0441);
    assert_eq!(t.stream.m0ar, 0x2000_0100);
    assert_eq!(t.stream.m1ar, 0x33);
    assert_eq!(t.stream.ndtr, 16);
    assert_eq!(t.stream.par, 0x4001_1004);
    assert_eq!(t.source.addr, 0x2000_0100);

    let mut target: Target<u32> = Target::new(0x4001_1004);
    let t: OneShotTransfer<u32> = stream(0, 0).start_transfer::<C0>(Buffer::new(0x2000_0100, 2), &mut target);
    assert_eq!(t.stream.cr, 0x5441);
}

#[test]
fn double_buffered_writable_and_write() {
    // CT clear: memory 0 is the front buffer
    let mut t: DoubleBufferedTransfer<u16> = DoubleBufferedTransfer::new(stream(0, 0));
    assert_eq!(t.front_buffer(), DoubleBuffer::Memory0);
    assert_eq!(t.back_buffer(), DoubleBuffer::Memory1);
    assert!(!t.writable());
    assert_eq!(t.sent, [true, false]);
    // the stream switches to memory 1
    t.stream.cr |= 1 << 19;
    assert!(t.writable());
    assert_eq!(t.sent, [true, true]);
    // write the back buffer (memory 0)
    assert_eq!(t.write(&Buffer::new(0x2000_0400, 4)), Ok(()));
    assert_eq!(t.stream.m0ar, 0x2000_0400);
    assert_eq!(t.sent, [false, true]);
    assert!(!t.writable());
}

#[test]
fn double_buffered_write_fails_on_error() {
    let mut t: DoubleBufferedTransfer<u16> = DoubleBufferedTransfer::new(stream(0, 0x08));
    assert_eq!(t.write(&Buffer::new(0x2000_0400, 0)), Err(()));
    assert_eq!(t.stream.m1ar, 0x33);
    assert_eq!(t.sent, [false, false]);
}

#[test]
fn wait_ends_with_ok_or_err() {
    let t: OneShotTransfer<u8> = OneShotTransfer::new(stream(0x441, 0x20), Buffer::new(0x10, 1));
    assert!(Transfer::is_complete(&t));
    let s = t.wait().unwrap();
    assert_eq!(s.cr, 0);
    assert_eq!(s.lifcr, 0x28);

    let t: DoubleBufferedTransfer<u8> = DoubleBufferedTransfer::new(stream(0x441, 0x08));
    assert!(Transfer::has_error(&t));
    let s = t.wait().unwrap_err();
    assert_eq!(s.cr, 0);
    assert_eq!(s.lifcr, 0x28);
}

#[test]
fn split_resets_stream_configuration() {
    let dma = DMA2 { s0: stream(0x42D41, 0) };
    let streams = dma.split();
    assert_eq!(streams.s0.cr, 0);
    assert_eq!(streams.s0.m0ar, 0x22);
}

#[test]
fn start_it_peripheral_to_memory() {
    // DIR 0b00, DBM set: the source is the peripheral
    let s = stream(0x0004_0000, 0x3D);
    let started = s.start_it(0x4001_204C, 0x2000_0000, 2);
    assert_eq!(started.cr, 0x0000_001F);
    assert_eq!(started.par, 0x4001_204C);
    assert_eq!(started.m0ar, 0x2000_0000);
    assert_eq!(started.ndtr, 2);
    assert_eq!(started.lifcr, 0x3D);
    assert_eq!(started.m1ar, 0x33);
}

#[test]
fn start_it_memory_to_peripheral() {
    // DIR 0b01: the destination is the peripheral
    let s = stream(0x0200_0040, 0);
    let started = s.start_it(0x2000_0000, 0x4000_4404, 8);
    assert_eq!(started.cr, 0x0200_005F);
    assert_eq!(started.par, 0x4000_4404);
    assert_eq!(started.m0ar, 0x2000_0000);
    assert_eq!(started.ndtr, 8);
}

#[test]
fn poll_transfer_steps() {
    assert_eq!(poll_transfer(&stream(0, 0)), TransferPoll::Pending);
    assert_eq!(poll_transfer(&stream(0, 0x0800_0800)), TransferPoll::Pending);
    assert_eq!(poll_transfer(&stream(0, 0x20)), TransferPoll::Complete);
    assert_eq!(poll_transfer(&stream(0, 0x28)), TransferPoll::Complete);
    assert_eq!(poll_transfer(&stream(0, 0x08)), TransferPoll::Error);
}
