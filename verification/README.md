# sisar

SISAR turns a request for an area and a time range into ground-motion products:
a server searches for Sentinel-1 bursts and writes the files of a job, a scheduler
takes the job from container to container, and the containers download, process
and draw.

- `src/` is the library: the rules that the programs go by and what they compute
  of texts and integers, written in Verus. Each function states what it returns,
  and Verus proves it.
- `tests/` runs the library on concrete values.
- `app/` is the programs around the library: HTTP, database, Docker, files and
  processes, and the queries that the database answers.

Where work on the outside and decisions alternate, the library holds a state
machine: a submission (`server::submit`), the run of a step's container
(`scheduler::runner`) and of a results container (`server::results`), a download
(`download::earthdata`), an identification (`server::auth`) and a time series
(`artifacts`). The program performs the action that the machine names and
hands the event back.

What is believed without proof is marked `external_body` or
`assume_specification`: calls of `uuid`, `chrono`, `url`, `serde_json` and of a
few functions of the standard library, each with its contract, in `ids`, `time`,
`urls`, `json` and `text`.

Floating-point numbers appear in the library by their bits (`float64`), which is
enough to compare them; sums and products are left to the programs.
