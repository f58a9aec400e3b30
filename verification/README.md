# rnes

The logic of a Nintendo Entertainment System emulator, verified with Verus:
the 6502 CPU and its bus (`system`, `instructions`), the picture processing
unit with its palette and object memories (`ppu`), the audio processing unit
and the controller ports (`chip`), cartridge mappers 0 and 1 (`mapper`), iNES
image parsing (`parse_ines`), controller input (`input`), the emulated clock
(`clock`) and the pause switch (`system_control`).

Each device exposes its state through a view, and each operation is specified
by a spec function over it; proof functions named `lemma_*` state the
properties that hold across operations, such as read-after-write of the
memories, the arithmetic of ADC and SBC, and the MMC1 serial load.

`app/` holds the program around the library: the window, sound output, game
controller events and the loop that runs the CPU, PPU and APU tasks on the
emulated clock.
