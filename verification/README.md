# usb_audio

The logic of a USB audio class 1.0 speaker (STM32H5 with an I2S DAC) and of
its DSP control protocol, verified with Verus.

- `src/` is the verified library:
  - `stream`: streamed USB packets to blocks of 32 bit samples;
  - `feedback`: the start-of-frame tick counter behind the sample-rate
    feedback, its laws, and the 3-byte wire format of the feedback value;
  - `routing`: the decisions of the audio routing loops;
  - `board`: board constants and the I2S frame layout;
  - `buffers`: the `heapless` buffers the firmware fills;
  - `protocol`, `host`: the DSP protocol's data model and the GUI's
    device matching and channel initialisation;
  - `audio`: shared error and source kinds.
- `app/` holds the firmware tasks, the USB and SAI I/O, the postcard-rpc
  client, the egui GUI and the floating-point signal processing.
- `tests/` exercises the library on concrete values.
