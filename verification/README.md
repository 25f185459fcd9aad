# rphal

Verified logic of a hardware abstraction layer for the RP2350x microcontroller.

The library (`src/`) computes everything the device is told — register values, register
access sequences, queue updates and service decisions — and proves it against contracts
written in Verus. It never touches the hardware: each operation returns the register
accesses (`register::RegisterOp`) to carry out, and takes the register values it needs to
read as arguments.

- `clocks`: clock tree, crystal and ring oscillators, PLL configuration search.
- `cortex`: system control, coprocessor access and the Memory Protection Unit.
- `gpio`: pin lists, outputs, inputs and the GPIO interrupt.
- `interrupts`: vector tables, NVIC control and the ISR service queues.
- `adc`, `crypto::trng`, `dma`: peripheral drivers built on the queues.

`app/` carries out the accesses with volatile reads and writes, holds the global state and
provides the interrupt service routines and futures.
