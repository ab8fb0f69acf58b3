# allegro

A binding to the Allegro 5 game programming library, split in two:

- `src/` is the verified library. It holds every decision the binding takes:
  status codes read as results, the drawing flags and blending enums mapped
  onto Allegro's integer constants (display option importances too), version numbers packed, unpacked and
  printed, the start-up sequence as a state machine, the caching of input
  event sources, and the arguments of the font addon's calls.
- `app/` declares liballegro's C functions and performs the calls, handing
  their answers to the library. What it keeps beyond the calls is what the
  library cannot hold: C strings, raw pointers, threads and the shared mutex,
  floating-point arguments, and the panics of the original on a device that
  is not installed.
