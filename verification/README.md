# file_identify

Identifies files by name, extension, content and shebang line, and gives each
file a set of tags: its kind (`file`, `directory`, `symlink`, `socket`), its
mode (`executable`, `non-executable`), its encoding (`text`, `binary`) and its
language or format (`python`, `rust`, `json`, ...).

The library in `src/` is written in Verus, and every function there carries a
contract that Verus proves:

- `tags` — the tag vocabulary and `TagSet`, a set of tags;
- `extensions`, `interpreters` — the tables of tags for extensions, file names
  and interpreters, and their lookups;
- `names` — identification by file name, by interpreter, and text detection;
- `shebang` — parsing of `#!` lines into their components;
- `identify` — identification from pre-loaded file information
  (`tags_from_info`, `FileIdentifier::identify_from`), and the steps that
  identification of a file on disk takes;
- `table_order`, `table_facts` — the tables' own rules (sorted keys, exactly
  one encoding tag per key, disjoint key sets), proved row by row;
- `laws` — properties that relate these functions, such as that the steps
  taken for a file on disk give what `identify_from` gives for its content;
- `text` — character-level helpers and the few standard-library calls that the
  logic relies on, with their trusted contracts.

`app/` holds the command-line tool and the functions that read files from
disk; they call the library's steps and hand them what they read.
