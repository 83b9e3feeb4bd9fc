# nand2tetris

A verified toolchain for the Hack platform of the nand2tetris course, written
in Verus.

- `src/tokens`: the Jack tokenizer (keywords, symbols, literals, identifiers,
  comments) and an in-memory reader that locates each token.
- `src/gramar`: the syntax tree of Jack classes, the state machines that check
  the token sequence of each construct, and the grammar units (types, segments,
  variable names and their styles).
- `src/compiler`: the Jack-to-VM compiler: symbol tables, the code of every
  construct stated as a specification, and the subroutine compiler that hands
  out that code one instruction at a time.
- `src/vm`: VM instructions and their text, the VM commands of the translator,
  the lexer of VM text (with the law that it reads back what the text printer
  writes), the line assembler from VM text to Hack assembly, the translation of
  memory, arithmetic, branch and function commands into Hack lines, the
  translator buffer that queues commands and hands their lines out in
  chunks, and the bookkeeping of an output file.
- `src/hack`: Hack assembly instructions with their reading and writing.
- `app/main.rs`: the VM translator program around the library: a `.vm` file,
  or a directory after the `Sys.init` bootstrap and the built-in functions,
  into one `.asm` file (file input and output, arguments, environment).

Every public function in `src` carries a contract that Verus proves; the laws of the
library stand as public proof functions beside the code they speak of.
