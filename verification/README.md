# ffpipeline

The planning side of an ffmpeg transcoding pipeline for a live TV channel server,
written in Verus and verified.

- `src/` is the library. It decides which filters and codecs run on which hardware
  (`accel/`: Intel Quick Sync and AMD AMF), models what the AMF and oneVPL runtimes
  report (`capabilities/`, including the decisions of the AMF runtime probe), picks the
  GPU for AMF among the DXGI adapters, reads what
  an ffmpeg build supports from its help output (`ffmpeg_info`), builds the ffmpeg
  argument list (`pipeline`), expands stream URL variables, and renders the error
  card shown when an item cannot be played. Each function states what it returns in a
  contract (the one exception reports the machine's byte order, which no contract can
  fix), and the laws that relate several functions are proof functions beside them.
- `app/` runs the processes: ffprobe, the ffmpeg capability queries, and the lookup
  of the channel binary. It hands plain values to the library.
- `tests/` exercise the library on concrete values.
