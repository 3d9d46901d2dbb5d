# dasp

Fundamentals for PCM audio DSP — sample types and conversions, frames, slices of frames and
samples, ring buffers, peak rectifiers and signals — as a library verified with Verus.

## Layout

- `src/` — the verified library.
  - `sample` — the `Sample` trait family, the padded (`I24`, `U48`, ...) and packed (`I24LE3`,
    `U24BE3`, ...) integer sample types, and the conversions between every pair of integer
    sample types. A sample is modelled by its bit depth and its amplitude measured from
    equilibrium; a conversion rescales the amplitude by a power of two.
  - `frame` — the `Frame` trait for fixed-size arrays of samples and for single samples.
  - `slice` — conversions between slices (borrowed, mutable and boxed) of samples and of frames,
    modelled by their interleaved samples, and slice utilities.
  - `ring_buffer` — the `Fixed` and `Bounded` ring buffers, modelled by their elements from front
    to back.
  - `peak`, `envelope` — rectifiers and the `Peak` detector.
  - `interpolate` — the frame-keeping part of the `Floor` and `Linear` interpolators.
  - `window` — the `Windower`, which cuts a slice of frames into overlapping chunks.
  - `signal` — the `Signal` trait, modelled by the frames a signal will yield, with its sources
    and adaptors, the buffered signal, the fork and the bus.
- `tests/` — tests of the library on concrete values.
- `app/` — the floating-point processing (float conversions, oscillators, window weights,
  interpolation and rate conversion, RMS, envelope detection, biquad filter, autocorrelation) and
  the shared handles over forks and buses.
