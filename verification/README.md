# spotlight

Hardwave Spotlight analyses the audio passing through a plugin (energy per
band, drum onsets, tempo, spectral flux, musical section) and streams the
results to a light-show view.

- `src/` is the library, verified with Verus: frame collection and one-time
  hand-off of spectra (`frame`), histories of recent values (`ring`), periodic
  counters and the packet schedule (`schedule`), the lag range of the tempo
  estimate (`beat`), trigger cooldowns (`onset`), the section state machine
  (`section`), parameter names (`params`) and the token read from disk (`auth`).
  Each module states its laws as proof functions named `law_*`.
- `app/` is the plugin around it: host glue (nih-plug), the floating-point DSP
  (FFT, band energies, correlation, spectral flux), file I/O and the message
  types exchanged with the view.
- `tests/` runs the library on concrete values.
