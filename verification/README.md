# cycle_helper

A helper for tracking battery cells on cycle-life test: it keeps the
tracking sheet of the cyclers' channels, finds the data files each cycler
exports, reads the cycle count and capacity out of them, and brings them
into the table.

## Layout

- `src/` — the library, verified with Verus.
  - `text` — character-level string work: trimming, padding, decimal numbers.
  - `pattern` — the one entry point to regular expressions.
  - `data`, `manager::format` — the enums of the sheet (test status,
    temperature, cell model) and their labels.
  - `data::list` — a tracked channel, its cycle bookkeeping and its card.
  - `input` — data-file descriptions, reading the channel list and the
    console table of it.
  - `plugin` — recognising a data file by its name and reading the cycle
    and channel cells of each cycler's export.
  - `manager` — the tracking workflow: the table's columns, looking up
    channels, matching channels with data files, applying what was read,
    the dialog that settles a cycle count that would go down, and the
    plans for organising and exporting files.
  - `utils` — the device configuration and its validation.
- `tests/` — tests of the library on concrete values.
- `app/` — the program around it: the interactive menu, Excel reading and
  writing, file dialogs, the configuration file and coloured output.
