# pellxd

Monitors the error signal of a pellets burner (a GPIO pin, or a dummy
source that cycles through readings) and pushes notifications when the
burner fails, stays failed, or manages (or fails) to start back up.
Notifications go to Slack webhooks, Batsign, external commands or the
terminal.

- `src/` is the library, verified with Verus: message composition
  (unescaping, placeholders, trimming), the scheduling of reminders and
  retries, the decisions of the monitor loop, settings and configuration,
  and the building of notifiers.
- `app/` is the program around it: command-line parsing, the configuration
  file on disk, the GPIO pin, HTTP requests and external commands, and the
  loop that sleeps between readings.
- `tests/` exercises the library on concrete values.
