# nucleo_rust

Firmware for the NUCLEO-F401RE board: the user LED on PA5 blinks from the
SysTick interrupt, ADC1 samples PA0 and the voltage is printed on USART2.

- `src/` is the verified library. Every peripheral register it deals with is a
  plain `u32` image: `adc` (ADC state word, its encodings, the decisions of a
  DMA-driven ADC start), `dma` (DMA2 stream 0: interrupts, one-shot and
  double-buffered transfers, DMA2 clock enabling), `led` (the user LED and the
  level of its pin).
- `app/` is the firmware around it: it reads the hardware registers, hands
  their values to the library, and writes back what the library computed.
- `tests/` runs the library on concrete register values.
