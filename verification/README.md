# messagerie

An instant-messaging chat whose messages travel encrypted with AES-128 in CBC
mode (PKCS#7 padding) under a key and IV that every program shares.

- `src/` is the verified library: the cipher framing (`crypto`), line
  handling (`text`), error reporting (`program`), and the decisions of each
  program on every message it reads: the chat server (`chat_server`), the
  broadcasting server that relays messages as typed (`user_server`), the chat
  client (`chat_client`), the base64 client (`b64_client`), the echo server
  (`echo_server`) and its client (`echo_client`).
- `app/` runs the programs (`messagerie client|server|user-server|b64-client|echo-server|echo-client`):
  sockets, threads, the terminal and process exit.
- `tests/` runs the library on concrete messages.
