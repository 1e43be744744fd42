# openfx_driver

A scriptable host for OpenFX image effect plugins, suitable for
automated testing. The host loads a plugin bundle, describes the
plugin, creates instances, sets parameters and renders frames read
from EXR files, following a JSON file of commands.

## Layout

- `src/` is the verified library (Verus). It holds the host's
  bookkeeping and decisions, each with a contract:
  - `strings`: C strings crossing the API (`OfxStr`);
  - `strmap`: a map keyed by text, used for every name-indexed store;
  - `properties`: property sets and typed property reads and writes;
  - `params`: parameter values and their defaults from descriptors;
  - `handles`: shared objects and the registry of their handles;
  - `images`: rectangles, strides, cropping, and the images lent to
    plugins;
  - `layouts`, `arguments`: the property sets the host creates and
    passes to actions;
  - `steps`: the order of the actions and value updates of SetParams;
  - `host`, `messages`, `status`, `paths`, `frames`, `timer`: suite
    lookup, context checks, message replies, status codes, bundle
    paths, output file names and action timings.
- `app/` is the program around it: the command line, JSON commands,
  plugin loading, the C suites handed to plugins, EXR files,
  floating-point geometry and render threads.
- `tests/` exercise the library.
