# plugin_manager

Decides how Warp installs, checks and updates the notification plugins of
command-line coding agents (Walcode, ZeroClaw), which agents get a plugin
manager under which feature flags, how dotted plugin versions compare, and
how the AI settings page draws the agent-attribution toggle and the plugin
status of each agent.

- `src/` is the verified library (Verus). `version` compares versions,
  `paths` joins paths and resolves an agent's home directory, `config` holds
  parsed JSON/TOML documents (parsed by serde_json and toml), `plugin` the
  pieces every manager shares, `walcode` and `zeroclaw` the two managers,
  `agents` the agent list and feature flags, `settings` the settings page.
- `app/` reads the environment and the agents' files, runs their commands,
  and hands what it found to the library.
- `tests/` exercises the library on concrete values.
