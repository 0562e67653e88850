# avdecoder

The decisions of a GStreamer element that decodes Vorbis audio with rust-av,
verified with Verus.

- `src/lacing.rs`: packs the stream headers of the sink caps into the
  decoder's extradata (count byte, length laces, headers).
- `src/event_types.rs`: GStreamer event types by their numeric values: kind,
  serialized flag, stream order.
- `src/timing.rs`: timestamps between buffers and packets.
- `src/codec.rs`: the av-codec decoder behind the element, with a ghost
  record of what it has been handed and what it answered, and the plain values read from its
  frames.
- `src/state.rs`: the element's state machine: which events wait for the
  caps, what is pushed when, what the first frame decides, and what a state
  change does; what each step hands the decoder; and laws over single steps
  and over whole runs of steps (queued events go out once each, in order;
  caps are announced at most once, with the first decoded buffer).
- `src/element.rs`: element metadata, pad templates and registration.
- `app/`: the GStreamer plugin itself (pads, locking, pushing), which calls
  the library for every decision.
