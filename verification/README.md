# cc-sonde

HTTP monitoring and level-based auto-scaling, with its decision logic verified by Verus.

- `src/` — the verified library:
  - `config` — probe configuration (health-check, WarpScript and agent probes), derived
    settings, the agent scaling decision, the declared agent apps, validation;
  - `scaling` — the scaling engine: a state machine over one scaling cycle
    (lock, state refresh, cooldowns, metrics, commands, persistence);
  - `healthcheck` — response checks and the failure-command schedule of health-check probes;
  - `web` — token masking for the configuration UI, Basic-Auth, routing, ingest admission;
  - `supervisor` — expansion of WarpScript and agent probes into one task per application;
  - `runtime` — values derived from the environment (Redis URL, Warp token, scripts, agent URL);
  - `text`, `levels` — verified string and level-number helpers;
  - `outside` — the calls into `regex`, `base64`, `percent-encoding` and `String::from_utf8`.
- `app/` — the program around it: configuration files, HTTP server and client,
  process execution, timers, persistence, and the metrics agent.
- `tests/` — tests of the library.

## What the program does not include

- Persistence is in memory only: no Redis client is part of this build, so state,
  locks and agent samples live in the process, and multi-instance mode (which needs a
  shared Redis) is refused at start-up.
- The configuration UI's static assets are not embedded: the `web/dist` folder is not
  part of the sources, so asset requests answer `404`. The JSON configuration API, the
  liveness endpoint and the agent ingest endpoint are served.
- Agent probes list their levels explicitly in the configuration file
  (`[[agent_probes.levels]]` with `level`, `flavor` and `instances`); a probe without
  levels is stateless and only runs its commands on threshold crossings.
