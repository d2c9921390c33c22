# vpg

A project generator for the Violet hypervisor. It reads a TOML configuration
file that describes the virtual machines, the kernel and the physical
environment, and creates a new Cargo project for it: the main source from its template, a module per virtual
machine, a setup file filled in from a template, the hypervisor dependency,
Cargo's configuration and the target files.

The library in `src/` is verified with Verus:

- `value` — the TOML document as plain values, its model, and the lookups on it;
  the one call into the `toml` crate that parses a text.
- `param` — the configuration types and their models.
- `format` — the configuration reader: what each key means, its default, and
  which missing sections are errors (`format::toml`), with laws on which
  documents are accepted and which sections become virtual machines.
- `text` — decimal and hexadecimal numerals, placeholder substitution with the
  semantics of `str::replace`, path joining.
- `generator` — the ordered steps of generating a project (`generator::vm` holds
  the text of a virtual machine's module).

`app/` is the command-line program: option parsing, reading the configuration
file and carrying out the generation steps on the file system.
