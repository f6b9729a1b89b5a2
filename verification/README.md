# nfs_mamont

A user-space NFS server library: the ONC RPC / XDR layer, the request
parser, the MOUNT, port mapper and NFS version 3 and 4 procedure logic, and
the byte-range arithmetic of NLM locks. The library is written in Verus and
every function in `src/` carries a contract that Verus proves, with one
exception: a few small wrappers marked `#[verifier::external_body]` make the
calls into other code (`byteorder` for big-endian reads and writes,
`num-traits` for checked integer conversions, `dashmap` for the table of
calls seen, `String::from_utf8`, and the system clock). Their contracts
restate what those libraries document and are trusted, not proved; each
wrapper's doc comment says what it claims.

## Scope

NFS version 3 calls are served for NULL, GETATTR, READ, WRITE, MKDIR, LINK
and PATHCONF. The other procedures of the protocol (SETATTR, LOOKUP,
ACCESS, READLINK, CREATE, SYMLINK, MKNOD, REMOVE, RMDIR, RENAME, READDIR,
READDIRPLUS, FSSTAT, FSINFO and COMMIT) have no handler here and are
answered `PROC_UNAVAIL`. The MOUNT program answers NULL, DUMP, UMNT, UMNTALL and
EXPORT; its MNT procedure has no handler and is answered `PROC_UNAVAIL`.
Read and write data travel in ordinary byte vectors; there is no
zero-copy buffer allocator.

## Layout

- `src/encoding.rs`: big-endian integers and XDR padding.
- `src/parser/`: the request parser. `Cursor` is a byte source whose every
  read is stated as a spec parse; `RpcParser` decodes whole record-marked
  requests (RPC header, credential and the NFSv3, MOUNT or NLM arguments).
- `src/protocol/xdr/`: XDR types of RPC, MOUNT, NFSv3 and NFSv4 with their
  encodings and decodings; the `RoundTrip` law states that decoding an
  encoding gives the value back.
- `src/protocol/rpc/`: decoding of RPC messages, routing to the programs
  served, and retransmission detection (`TransactionTracker`).
- `src/protocol/nfs/`: the procedures. NFSv3 handlers are step functions:
  given the arguments and the answers gathered so far they either ask the
  file system the next question or give the reply bytes.
- `src/read_task.rs`, `src/response_buffer.rs`, `src/rpc_command.rs`: the
  decisions of a connection (what to do with the next request) and the
  record marking of replies.
- `src/nlm/`: lock ranges, overlap and conflicts.
- `app/`: the tokio / io_uring side: sockets, tasks, channels and the loop
  that asks a file system backend the handlers' questions.
- `tests/`: tests of the library on concrete bytes.
