# recovery_core

Decision core of a file recovery pipeline with two sources. Two programs
recovered the same damaged disk; the pipeline measures what each of them brought
back, repairs what can be repaired and merges the better copies into one golden
copy.

* `src/` is the verified library. It holds every rule, text and state machine,
  with contracts proved by Verus. It touches no disk: a phase is told what was
  read and answers with the next piece of work.
* `app/` performs that work: SQLite, the file system, threads.
* `tests/` runs the library on concrete values and on a disk in memory.

| module | what it decides |
| --- | --- |
| `phases::phase7` | the class of a file by its Shannon entropy, and the report |
| `phases::phase8` | the verdict on every file and the Euro-CSV sheet |
| `phases::repair_modules` | which module repairs a file, how, and whether the result passes |
| `phases::phase9` | which copy wins, where it goes, and that nothing is overwritten |
