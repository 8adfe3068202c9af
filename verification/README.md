# stash

A terminal inventory manager: items with SKUs, categories, warehouses, stock levels
and an audit log of stock movements, kept in SQLite and browsed in a terminal UI.

The library in `src/` is written in Verus and verified. It holds the domain rules
(SKU and name validation, money, stock arithmetic and its movement log), the SQL
statements and row decoding the storage layer relies on, the CSV import decisions,
and the whole state machine of the terminal front end: what each key and each
storage reply does to the screen, the forms and the loaded lists. Public proof
functions named `law_*` state properties that span several operations.

`app/` is the program around it: command line, configuration file, logging, the
SQLite repositories, the storage task, and drawing with ratatui. It hands the
library plain values and performs the commands the library returns.

`tests/` runs the library on concrete values.
