# dsh_desktop

The decision logic of the DeepSeek Harness desktop shell, verified with Verus.

- `src/status.rs`: the status record published to the web view.
- `src/manager.rs`: the lifecycle of the managed `dsh` server (start, stop,
  restart) as a step machine: it returns the next action (terminate, publish,
  launch, finish) and takes the outcome back; with its invariants and laws.
- `src/readiness.rs`: the readiness wait as a step machine, and the judgement
  of the server's HTTP answer.
- `src/ports.rs`: the scan for a free localhost port.
- `src/runtime.rs`: the choice of the runtime directory, the Node.js binary
  and the entrypoint; the server's command line and the termination commands.
- `src/startup.rs`: the tail of the startup log and the failure report.
- `src/text.rs`: decimal rendering.
- `app/`: the Tauri shell, which performs the processes, sockets, files and
  window events and runs the step machines.
