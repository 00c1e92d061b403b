# blackheap

A blackbox modeller for I/O classification. It benchmarks a file system with
many access sizes and access patterns, keeps the measurements, and fits
prediction models (constant below the page size, linear above it) that tell
how long an access of a given size should take.

## Layout

- `src/` is the library, verified with Verus. It holds the decisions of the
  program, each with a contract:
  - `benchmarker`: access patterns, error codes and benchmark configurations
    with their numeric encodings for the C benchmarker;
  - `runner`: the standard benchmarks and their access sizes, the progress
    kept between runs, the validation of the command line (a step function
    driven by the answers of the machine), and where measurements are kept;
  - `modeller`, `process_modeller`, `io_modeller`: the benchmarks of the
    modellers, the command lines handed to the benchmarker, the frontend
    files and where they go, the intervals the models hold on, and the
    counting of classified accesses;
  - `analysis`: where a sampled density has its extrema and which samples
    each cluster spans;
  - `text`: decimal rendering, joining and replacing of strings.
- `app/` is the program around it: command line parsing, the file system,
  the call into the C benchmarker, serialisation, and the floating point
  analysis (densities, clusters and regressions).
- `tests/` exercises the library on concrete values.

## Assets

The program copies analysis scripts and the web frontend next to its
results. It reads them from the directory named by `BLACKHEAP_ASSETS`, or
from `assets` in the working directory.
