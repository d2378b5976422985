# pano-monitor

The core of a desktop player for RTSP video streams, written and proved in Verus, with a program
around it that talks to GStreamer and egui.

- `src/` is the library. It decides what happens; every function of it has a contract that Verus
  proves.
  - `video_source`: the state of the source, and what samples and bus messages do to it.
  - `pipeline`: which elements make up the playback pipeline, in which order they are made and
    linked, which decoder is tried when, and what each failure leads to.
  - `app`: the player behind the window: connecting, disconnecting, the status line, the frames that
    wait to be shown.
  - `image`: from an RGBx frame to an image.
  - `queue`: the bounded queues, on `crossbeam`'s `ArrayQueue`.
  - `frame`, `text`: frames, and text for the user.
- `app/` is the program: GStreamer on one side (`session.rs`), the window on the other
  (`window.rs`). The player sits behind a mutex that both sides share.
- `tests/` runs the library on concrete values.

The calls into `crossbeam` and `egui` are believed, not proved: each stands in a function of its own
whose comment says what is claimed of it.

The pipeline is

```
rtspsrc -> rtph264depay -> [nvh264dec | vaapih264dec | vtdec_h264 | avdec_h264]
        -> videoconvert -> capsfilter(RGB) -> appsink
```

To build the program, GStreamer 1.x has to be installed with its base, good, bad, ugly and libav
plugins.
