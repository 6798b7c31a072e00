# unix_terminal

The decisions behind a Unix terminal handle: raw mode, the size of the window, and the questions
that the terminal itself answers (keyboard enhancement support and the cursor position). They are
written in Rust and verified with Verus.

Every operation is a small machine. Starting it yields a `Step`: either the result, or a request
together with what is pending. Whoever carries out the request hands the reply to the matching
`_resume` function and gets the next step.

- `src/protocol.rs`: requests, replies, steps and errors
- `src/attributes.rs`: terminal attributes and their raw form
- `src/size.rs`: window sizes and the output of `tput`
- `src/terminal.rs`: the terminal handle, raw mode and size
- `src/query.rs`: keyboard enhancement support and the cursor position
- `src/global.rs`: the terminal of the process
- `src/descriptor.rs`: raw mode and the window size by way of file descriptors and C calls
- `src/laws.rs` and `src/laws/`: what holds of whole operations, whatever replies they get
- `app/`: the device, the processes and the globals around the library
