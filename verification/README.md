# beginning_linux_programming

Small Linux programs around sockets, threads and the terminal, with the
parts that compute or decide written as a library verified with Verus.

- `src/` — the verified library:
  - `byte_order`: host byte order detection, `htons`/`htonl`/`ntohs`/`ntohl`;
  - `decimal`: decimal formatting and `u16` parsing (as `str::parse`, with
    `trim_end` for the kernel's backlog file);
  - `sockaddr`, `tcp_server`: the addresses and server state the programs use;
  - `select`, `chat`, `epoll`, `reactor`: the decisions of the select, poll,
    epoll and asynchronous servers;
  - `http`, `ping`: the HTTP response header and the ICMP echo request;
  - `terminal`: terminal flags and `getopt` results;
  - `consts`: the C library constants the logic reads.
- `tests/` — tests of the library.
- `app/` — the programs themselves: every system call, thread and loop that
  waits on the kernel, calling the library for each decision.
