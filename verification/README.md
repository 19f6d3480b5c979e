# hexa_client

A terminal client for a job commander: it lists the job definitions found
in a directory, submits the chosen one over gRPC and follows the job's log
output live.

- `src/` is the verified library (Verus): the job list and log view state
  machines (`job_list`, `job_detail`), the application's decisions
  (`app`), reading job definitions out of directory entries (`jobs`),
  the framing of streamed log messages (`log_stream`), screen splitting
  (`layout`) and properties that span several steps (`laws`).
- `app/` is the program around it: terminal drawing and input with
  ratatui and crossterm, reading the job directory, the gRPC client and
  the event loop.
- `tests/` runs the library on concrete inputs.

The commander's address comes from `COMMANDER_ADDR`, the job directory from
`JOB_DIR`.
