# background_jobs

A background e-mail job server. It asks for an SMTP relay and credentials,
upgrades the session to TLS, and takes e-mail jobs from clients over a Unix
socket, which worker threads then process.

`src/` is the verified library (Verus): the reading of the relay's replies and
advertised mechanisms, the choice of mechanism and the credentials, the SASL
payloads, the job counter, and the decisions of the socket listener, the
client handler, the workers and the signal watcher. `app/` is the program
around it: terminal prompts, TCP and TLS, the socket, threads and signals.
