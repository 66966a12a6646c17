# etheride

Motion-control decisions for VEX V5 robots, verified with Verus.

- `src/manager.rs` — exit-condition manager: settle timers for a small and a
  large error band and a timeout; proved laws on settling and timing out.
- `src/pid.rs` — PID step timing (one second on the first step, elapsed time
  after) and integral gating (clear outside the summation range, restart on a
  sign change).
- `src/tbh.rs` — take-back-half gain schedule (halve on a sign change, reset on
  a new goal) and the law that the gain halves once per crossing.
- `src/motor_group.rs` — order of a motor group's voltage settings and of its
  ports.
- `src/time.rs` — elapsed milliseconds between timer stamps.

The real-valued arithmetic (controller outputs, odometry, angle wrapping) and
all hardware access live in `app/`, the robot program, which hands the library
timer stamps, error signs and band checks and applies the decisions it returns.
