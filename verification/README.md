# nettune_core

Verified core of NetTune, a tool that applies low-latency network settings
of the operating system (Windows registry, Linux `/proc/sys` and `ethtool`,
macOS `sysctl`) and keeps a backup of every value it replaces so that each
change can be put back.

- `src/` is the library, checked with Verus:
  - `text.rs`: whitespace, trimming, splitting, decimal numbers and `a:b` pairs;
  - `tweaks/`: the `Tweak` trait, the tweaks of each system with the paths,
    values and commands they use and the parsers of what those commands print;
  - `backup.rs`: the backup records, the first value found being the one kept;
  - `session.rs`: what applying and reverting a tweak decide;
  - `info.rs`: what the graphical front end lists;
  - `lib.rs`: the tweaks offered on each system.
- `app/` is the command-line program: argument parsing, logging, the backup
  file (JSON) and the system calls themselves.
- `tests/` exercises the library.
