# ivyterm

Sessions with tmux in control mode, on this machine or over SSH.

The library decides; the program around it acts. Each part of the library that
follows something outside (a login, a connection, an output stream) is a value
with a stage. The stage says what is waited for, the program does it, and hands
the reply back.

- `src/ssh/config.rs`: the SSH client configuration and what it sets for a host
- `src/ssh/target.rs`: whom to log in as, where, and with which options
- `src/ssh/readiness.rs`: what a poll reports
- `src/ssh/check.rs`: waiting for a TCP connection to be made
- `src/ssh/connect.rs`: connecting to the first usable address
- `src/ssh/login.rs`: the whole login
- `src/tmux_api/types.rs`: what is said to tmux, and what it says
- `src/tmux_api/queue.rs`: the commands whose replies are awaited
- `src/tmux_api/launch.rs`: starting tmux
- `src/tmux_api/ring.rs`: the buffer for its output
- `src/tmux_api/reader.rs`: reading its output

`app/` holds the sockets, processes and files. The widget toolkit's main loop,
the window and the parser of tmux's output come from the program that uses it.
