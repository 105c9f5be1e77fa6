# orangu console

The logic of a terminal client for language models that work on a local
workspace, verified with Verus, and the program around it.

- `src/` is the library. It reads commands and phrases, edits the input line,
  keeps the transcript and the history, completes input, plans runs of git and
  builds, lists files, and shows markdown and source text in colour. Every
  public function states what it returns or changes, and Verus proves it.
- `tests/` runs the library on concrete values.
- `app/` is the program: it runs other programs, reads files and the terminal,
  talks to the server, and draws the screen. It takes the configuration, the
  conversation with the model and the layout of the screen from the `orangu`
  crate.

## How the parts meet

The library does no input or output. Where a command takes several programs, it
says which program to run next, and the program hands the result back:
`git_start`, `git_request` and `git_advance` for git, `show_start` and its
followers for listings, `build_output` and `next_build_step` for builds. A turn
of the console is `Console::begin_turn`, `Console::take_input`,
`handle_command`, `show_outcome`, `admit_prompt` and `show_answer`.

Texts are sequences of characters in contracts; offsets that leave the library
count bytes of UTF-8, and times are nanoseconds.

## What is taken on trust

Calls into other crates stand behind small functions whose contracts are not
proved: the ignore rules (`ignore`), the parser for markdown (`markdown`), the
highlighter (`syntect`) and the tokenizer (`tiktoken-rs`). The comment above
each of them says what is claimed. Laws of the library as a whole are public
proof functions whose names begin with `law_`.
