# cq — commit quick

A terminal editor for commit messages that lets you type while the
pre-commit hook runs in the background.

- `src/` is the verified library: the editor state and how it reacts to keys
  and hook events (`app`), the laws those steps obey (`laws`), the key model
  (`key`), the message editor (`textarea`), what the screen shows (`ui`), how
  git's and the hook's answers are read (`git`, `hook`, `install`), errors
  (`error`) and the text operations they rest on (`text`).
- `app/` is the program around it: command line, terminal, running git and
  the hook, and drawing the panels the library describes.
- `tests/` runs the library on concrete inputs.
