# FastFile

A service for passing texts and files between devices, in the form of a chat: one
password, messages in a database, files in a directory, links that work until
their message is deleted, and uploads in parts that can be broken off and taken
up again.

- `src/` is the library. It decides what requests lead to, and its functions are
  proved against their contracts with Verus. The calls into other crates, in
  `outside`, are the exception: their contracts are taken without proof.
- `app/` is the service around it: routes, JSON, the database, the files. Playback
  positions of videos are floating-point numbers and are dealt with there.
- `tests/` runs the library.

## How a request is worked off

The library does not touch the database or the files. A request is a state machine:
it asks for one action at a time (`Step::Ask`), is told what came of it, and ends
with a reply or a refusal. `accepts` tells whether a state can deal with an event,
`next` gives the following step. `app/storage.rs` performs the actions.

## Where to find what

- `access`, `session`, `headers`: who may do what.
- `post`, `list`, `delete`, `message`: messages.
- `download`, `range`: files by their links.
- `upload_init`, `upload_chunk`, `upload_complete`, `upload_cancel`, `parts`: uploads.
- `ui_state`, `admin`, `config`, `stamp`: the rest of the service.
- `outside`: the calls into other crates, with what is taken from them without proof.
- `store`: the storage as a mathematical value; `session_laws`, `message_laws`,
  `delete_laws`, `download_laws`, `ui_laws`, `upload_laws`, `upload_promises`,
  `broken_off`, `parallel` and `history` state over it what the service can be relied
  on for.

## Settings

Read from `./fastfile.env`, or from the file that `FASTFILE_CONFIG_FILE` names, and
then from the environment. `FASTFILE_PASSWORD` and `FASTFILE_SESSION_TTL_SECONDS` are
read again every 3 seconds. `FASTFILE_STORAGE`, `FASTFILE_PORT` (8000 where it is not
set) and `FASTFILE_ALLOW_WEB_RESTART` are read once. The page is `./index.html`, read
whenever it is asked for.
