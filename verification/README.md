# air_controller

A desktop controller for a Home Assistant climate device (an air conditioner):
it reads the device state, turns it on or off, sets the temperature, powers it
on automatically after a system start, and keeps its settings in a JSON file
and its access token in the system keychain.

`src/` is the verified library (Verus):

- `models` — operation results, the configuration, the device state, and
  temperatures held as IEEE 754 bit patterns with their ordering.
- `config` — the configuration rules and what loading and saving report.
- `ha_client` — Home Assistant endpoints, the authorization header, and the
  meaning of each HTTP reply.
- `auto_power_on` — the retry procedure after a system start, as a state
  machine, with its laws (bounded requests, termination, success only on an
  operable device).
- `commands` — saving the settings with rollback, as a state machine, with
  its laws.
- `secure_store` — the keychain requests for the token and what each answer
  of the keychain means, with a model of the keychain and its laws (a read
  gives back what a store wrote, a rollback restores the entry).
- `startup` — the registration request for launch at system start and what
  each answer means, with a model of the registrations; whether to power on
  after a launch.
- `tray` — close-to-tray state.
- `text` — character-level string operations with their specifications.

`app/` performs the file, keychain (`keyring`), autostart (`auto-launch`),
network and timer work the library asks for, and hands the outcomes back. `tests/` exercises the library on concrete values.
