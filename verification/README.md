# tiantan_acoustics

The backend of the Temple of Heaven acoustic simulation and speech
intelligibility service, split into a library verified with Verus and the
service around it.

## Layout

- `src/` — the verified library (`tiantan_acoustics`):
  - `text` — string equality, substring search, concatenation and decimal
    rendering on characters;
  - `site` — the three temple sites, their ids and display names;
  - `measurement` — admission of sensor measurements and the site-id check;
  - `history` — the bounded history of published alerts;
  - `store` — the in-memory record store, queried newest first by site;
  - `select` — the specification of position selections;
  - `comparison` — comparators, the catalogue of compared metrics, where a
    compared id comes from and which buildings belong to a dynasty;
  - `vr` — playback settings of the virtual Echo Wall and echo selection;
  - `noise` — grouping of noise sources and the basis of the noise-free STI;
  - `sti` — the STI weighting scheme and tone-boost bands;
  - `alerts` — alert kinds, severities and MQTT topics;
  - `models`, `routes` — the API envelope, configuration defaults and the
    listing query parameters.
- `app/` — the service: HTTP routes, MQTT publishing, channels and tasks, and
  the floating-point acoustics (ray tracing, wave fields, binaural rendering,
  STI analysis, noise maps), which Verus does not take.
- `tests/` — tests of the library and the acoustic scenario checks.
