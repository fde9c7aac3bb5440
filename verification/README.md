# opentrace_bpf

The user-space logic of an eBPF tracing toolkit, written in Verus and proved against its
contracts.

- `src/protocol`, `src/protocols`: HTTP/1.x and HTTP/2 (HPACK) recognition of socket
  payloads, and the IP and Ethernet protocol numbers.
- `src/collectors`: what the kernel programs report and how it becomes events: pairing of
  requests with responses on sockets, rendering of exchanges and dropped packets, CPU
  profile stacks and their prefix tree, and the plans of which programs to attach where.
- `src/probes`, `src/env`: the probes and BTF information the running kernel offers.
- `src/exporter`, `src/sink`, `src/formatter`: where rendered events go.
- `app/`: the I/O around the library: reading `/sys` and `/proc`, loading and attaching
  the kernel programs with libbpf, reading perf buffers, printing and sending events.
