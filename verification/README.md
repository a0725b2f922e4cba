# skinhelm

A Minecraft skin service and viewer core, written in Verus. The library in
`src/` holds the logic, each function with a contract proved by Verus:

- `types`, `routes`: player and size validation for `/helm/{player}` and the
  viewer routes (usernames, compact and hyphenated UUIDs, sizes rounded to
  multiples of 8 between 8 and 512).
- `mojang`: Mojang endpoint URLs and the interpretation of every answer
  (status codes, the base64 `textures` property, skin and cape URLs).
- `cache`: the three expiring caches (username to UUID, UUID to skin URL,
  skin URL and size to PNG), with read-after-write and expiry laws.
- `helm`: the `/helm/{player}` request as a sequence of steps: each step
  consults and fills the caches and names the next Mojang call or the answer.
- `pixels`, `render`: face cropping, helmet compositing with exact integer
  alpha blending, and the helmeted-head PNG.
- `skin`, `viewer`, `cape`, `frame`, `layout`: skin and cape decoding and
  validation, slim-arm detection, the generated default skin, head export,
  cape visibility, per-frame rendering decisions and the model's cuboid
  layout on the skin texture.
- `codec`, `text`: the calls into `image` and `base64` (with standard base64
  written out as a spec), and string helpers.
- `error`: the service and viewer error types, their messages and HTTP
  statuses.

`app/` is the HTTP server (axum, tokio, reqwest) around the library, and the
floating-point geometry, camera and animation code of the viewer.
