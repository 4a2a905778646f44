# pcodec_miniblock

Pcodec compression of fixed-width mini-block pages, verified with Verus.

A page of 16, 32 or 64 bit values is compressed as a whole by `pco` into a
single chunk with a single buffer. Signed integers and floating point numbers
travel as the unsigned values with the same bytes. There is no random access
within a compressed page.

- `pcodec`: the encoder, the decompressor and their contracts
- `codec`: pages of one value type, to streams and back
- `laws`: what holds of compression and decompression together
- `value`, `bytes`: the values that a page holds, in the machine's byte order
- `block`: blocks of data and compressed pages
- `error`, `text`: errors and their messages
- `streams`, `casts`: the calls into `pco` and `bytemuck`, whose contracts are
  taken on trust
