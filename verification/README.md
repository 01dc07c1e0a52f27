# opencoders

A terminal client for the OpenCode server. The library under `src/` holds
the client's logic with its contracts, checked by Verus: the application
model and its update function, the message store, text layout, selectors,
server discovery parsing, error classification and identifier generation.
`app/` is the program around it: terminal setup and drawing with ratatui,
the event loop, and the HTTP requests to the server.
