# smithay_color

The decisions behind two Wayland protocols, verified with Verus:

- `wp_color_management_v1`, version 2: image descriptions and their identities, the creators,
  what surfaces use and what clients are told;
- `wp_color_representation_v1`, version 1: alpha mode, coefficients, range and chroma location.

It also holds the HDR signaling values of a display connector.

## Layout

- `src/` is the verified library. It holds no live protocol object: requests come in as
  values, and errors, events and the data of new objects leave as values. The numbers that
  clients send are decoded by the `wayland-protocols` crate.
- `app/` connects the library to `wayland-server`: it dispatches requests, reads profiles
  from file descriptors, and sends errors and events.
- `tests/` runs the library on given values, among them the numbers of the protocol
  descriptions.
