# wttrbar

A weather indicator for Waybar and other status bars, fed by the JSON reports
of [wttr.in](https://wttr.in). The logic is written in Verus and proved
against its contracts; a thin command-line program around it does the I/O.

## Layout

- `src/` — the verified library:
  - `text`, `numeric`, `floats`: characters, decimal and hexadecimal text,
    the integer and float syntaxes of `FromStr`, whitespace and trimming;
  - `html`: escaping of the tooltip text, with the laws that escaping can be
    read back and leaves no markup characters;
  - `location`: validation of the location asked for, with the law that an
    accepted location cannot climb out of a directory;
  - `cache`: the address of the report and the name of the file it is kept
    in, with the law that this name is a plain file name;
  - `lang`, `icons`, `clock`: words, icons, times and dates;
  - `model`: the weather report, the options and the errors;
  - `report`, `tooltip`, `weather`: the text of the bar and of the tooltip;
  - `markup`: the law that texts of the report cannot add markup to the
    tooltip;
  - `fetch`: when a fetched report is kept, when fetching gives up, and the
    exponential delay between attempts.
- `app/` — the program: command line (clap), HTTP (reqwest), JSON
  (serde_json), the cache file and the output.
- `tests/` — tests of the library.
