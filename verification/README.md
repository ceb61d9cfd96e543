# audiocloud

Shared definitions and decision logic of the audio cloud services, written in
Verus with contracts that the verifier proves.

- `src/` is the verified library: identifiers and their text forms, processor
  models and value types, instance power state, time stamps and ranges, the
  binary page codec of instance drivers, the choice of a media file's sample
  rate from probe metadata, instance allocation for tasks, and the decisions
  of the instance, driver and task services.
- `app/` holds what runs around it: calling `ffprobe`, the floating point
  side of parameter values, models and play states, the binding to the
  r8brain resampler, and the JSON text forms of ids.
- `tests/` exercises the library on concrete values.
