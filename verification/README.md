# vidyffy

A small video editor built on ffmpeg: open a video, trim, crop, scale or
change its volume, step back through every version made so far, and save it
in another format.

- `src/` is the verified library (Verus): the numeric text fields, the crop
  rectangle and how it is kept inside the video, the edit pipeline, gif
  playback, the ffmpeg command lines and the messages the editor shows.
- `app/` is the window around it (iced): playing the video, the file
  dialogs, running ffmpeg, and the screens whose values are floating point.
- `tests/` exercises the library on concrete values.
