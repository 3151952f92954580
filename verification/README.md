# spanner_adapter

The Spanner part of a dbt-style engine, verified with Verus.

- `auth` reads a profile target and gives the options for the `adbc-spanner`
  driver; `auth_laws` states what holds of those options as a whole.
- `profile` and `interactive` hold the questions of the interactive setup and
  turn the answers into a profile target; `profile_laws` states what holds of
  the setup as a whole.
- `yaml` is the boundary to `dbt_yaml` and `serde_json`. Everything that is
  trusted without proof stands there.
- `app/` runs the setup against whatever puts the questions to the user.
