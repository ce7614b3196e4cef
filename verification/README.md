# codeptit

A command-line client for the CodePTIT judge, built around a library whose
behaviour is specified and proved with Verus.

- `src/` is the verified library: the configuration and how logging in, out
  and choosing a course change it (`config`), course listing and selection
  (`course`), the submission form, verdicts and the checks made before a
  submission (`submit`), telling the language from a file name and finding
  the question code in the first line of the code (`util`), request forming
  and the retry policy while waiting for a verdict (`api`), the command line
  and duration options (`cli`), and the text operations they rest on
  (`text`).
- `app/` is the program around it: argument parsing, the configuration file,
  terminal prompts and the HTTP exchange.
- `tests/` exercises the library on concrete values.
