# s3_browser_tool

A small S3 bucket browser (desktop window and command-line tool) whose
decision logic is verified with Verus.

- `src/` — the verified library:
  - `browser.rs`: the window's state machine (`App::update` answers each
    message with the next state and the work to start) and what the window
    shows (`App::screen`), both proved against the spec functions `step` and
    `screen_of`;
  - `laws.rs`: properties of the state machine across messages;
  - `listing.rs`: collecting object keys page by page, and the printed
    listing lines;
  - `paths.rs`: the object key chosen for an uploaded file;
  - `error.rs`, `commands.rs`, `text.rs`: error messages, command-line
    report lines, decimal numbers.
- `app/` — the program around it: AWS SDK calls, the iced window, the file
  picker and the command line.
- `tests/` — tests of the library on concrete values.
