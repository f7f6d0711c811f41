# osc_servo

Servo control core and host tooling for MG90-class servos, written in Verus: the
executable code under `src/` is proved against the contracts it carries.

- `estimator`, `kernel`: the state observer, the profile generator, the position
  loop and the tick sequence of a cascaded controller. The signal blocks of a
  board (windows, back-EMF, current and velocity loops, limits, faults) are asked
  through one trait; what is asked of them, and what is done with their answers,
  is part of the contract of a tick. A board that shows its fault latch keeps it
  as one, and a raised fault then disables the very tick it is raised in.
- `regions`, `regs`: the register table, its seeding at boot, and the host's map
  of it.
- `exp`: the bench experiments as state machines without I/O, the script of
  writes that each of their runs keeps to, and the safety envelope around them.
- `cal`: cutting a capture into runs, surveying a recorded stream, the motions
  around a capture, and the order of a calibration.
- `driver`: bytes on the wire, the pump that carries an experiment out, the
  telemetry read, saved tables and verified write-back, and the record files. A
  saved table is JSON: `driver/saved.rs` calls `serde_json` for it and states what
  it takes those two calls to do. Everything else in `src/` is proved.
- `lut`, `slip`, `gains`, `kinematics`, `units`: what is stored of a calibration
  and an identification, and the bookkeeping behind it.
- `cli`, `text`: the operator tool's arguments and decisions.
- `app/`: the operator tool itself. It owns the adapter link, prompts, files and
  everything in floating point (ripple, stitching, pole placement, units).

Statements about several calls stand beside the code as proof functions whose
names begin with `law_`.

`app/link.rs` is the only file that names the workspace's client, protocol and
stream crates.
