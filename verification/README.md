# srvcs-distance3d

An orchestrating service: the distance between two 3D points, computed by
asking `srvcs-floatsubtract`, `srvcs-floatmultiply`, `srvcs-floatadd` and
`srvcs-sqrt` in turn.

- `src/` is the verified library: the service identity (`identity`), the
  replies it gives (`reply`), the nine calls of an evaluation and what they
  compose to (`plan`), the step machine that judges each dependency's answer
  (including, through `serde_json`, whether a `200` body holds a numeric
  `result`) and decides the next call or the reply (`run`), the request shape
  (`request`) and the OpenAPI document (`apidoc`).
- `app/` is the HTTP server: it performs the calls that the step machine asks
  for, keeps the floating-point numbers that the dependencies answer (floats
  stay out of the library), and renders replies as JSON.
