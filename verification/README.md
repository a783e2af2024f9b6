# terrain_streaming

The streaming core of a planetary terrain renderer, written in Verus: every function in
`src/` carries a contract. Verus proves them all except those of the few wrappers marked
`external_body`, which call `std`, `image` or `tiff` and whose contracts are trusted.

What the library decides:

- `tiles`: the WebMercator quadtree index (parents, children, tiles per axis).
- `coordinate`, `paths`: tile addressing on a cube-mapped terrain, and where starter and
  cached tiles live on disk.
- `cache_manifest`, `cache_writer`: the cached-tile sidecar metadata, when a cached tile may
  stand in for a fresh fetch, and how a terrain's manifest registers streamed sources.
- `source_contract`: what a streamed-tile request names and how providers answer and fail.
- `scheduler`: the bounded, deduplicating, priority-ordered request queue.
- `streaming_jobs`, `height_derivation`: which job a request becomes, the ancestor chains a
  job walks, where locally derived height comes from, and how outcomes are booked.
- `tile_source`: cache-first resolution of a tile to a local file.
- `http_body`, `gibs`, `opentopography`: the imagery and elevation providers' request checks,
  response recognition, error texts, imagery tile encoding and tile metadata.
- `terrain`: tile availability and the renderer's streaming settings.

`app/` holds what the library hands off: RON files, HTTP, TIFF encoding and decoding of
height rasters, floating-point resampling and geodesy-dependent geometry, and the worker
threads.

`tests/` exercises the library on concrete values.
