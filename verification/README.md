# sem

Software for a home-built scanning electron microscope, with its logic
verified by Verus.

- `src/` is the verified library:
  - `usb_tmc`: USBTMC message framing, response reassembly, and the choice of
    device and interface.
  - `controller_error`, `host::controller`: the vacuum system controller's
    command lines, responses and error names.
  - `host::adc`, `host::tmp`, `host::power_supply`, `host::oscilloscope`: the
    instruments' commands, telegrams, checksums and response checks.
  - `host::vacuum_control`: the vacuum control screen's decisions.
  - `firmware`: the controller firmware's command and response framing and
    routing, and its fixed-capacity string buffer.
  - `link`: laws that tie the host's framing to the firmware's.
  - `characteriser`: the filament characterisation application's step tree,
    its layout as lines of text, scrolling and key handling, the end of a run,
    and the rules the hardware adapters keep.
  - `solver`: the electron gun solver's mask, its checks, and the numbering of
    the unknowns.
- `app/` is the programs around it: serial and USB I/O, the terminal screens,
  the procedure's event loop, floating-point readings, and the `faer` solve.
- `tests/` exercises the library on concrete values.
