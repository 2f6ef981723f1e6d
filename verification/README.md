# facecam

A floating webcam bubble for macOS. `src/` is the verified interaction logic
(which grip the pointer is over, what a press, drag and release do, what the
feedback ring shows); `app/` is the AppKit/AVFoundation program around it,
which measures the pointer, moves and resizes the window and paints the ring.
