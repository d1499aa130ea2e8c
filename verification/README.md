# Quest scrcpy

The logic of a client that mirrors a Meta Quest in a window of its own, with a
live crop, lens flattening, screenshots, recordings and live outputs. It is
written and proved in Verus.

- `src/` is the library. Every function states what it does and is verified, but
  for five small ones that call rayon (three in `warp`), image (in `capture`) and
  `str::to_lowercase` (in `devices`): Verus believes their contracts, and their
  doc comments say what is believed.
  - `view`, `scalar`, `mesh`, `warp`: the view of the panel and its pictures
  - `stream`, `session`: the stream thread, its recordings and its reconnects
  - `devices`, `remotes`, `settings`: headsets, displays and what is kept
  - `app`, `live`, `panel`, `streamer`: the state behind the window
  - `capture`, `outputs`, `audioplay`, `obsdetect`, `text`: the rest
- `app/` draws the window, runs the threads and does the floating-point
  geometry around the library.
- `tests/` runs the library on concrete values.

Real parameters (crop edges, lens coefficients, tilt) travel through the library
as the bits of their single-precision encoding; `scalar` says what they mean
where a decision depends on them. Functions whose names start with `law_` state
what holds across calls.
