# kindle-button-mapper

Maps buttons, D-pad directions and triggers of input devices on a Kindle to
shell scripts, and hosts the small HTTP helper the on-device settings app
talks to.

The crate is written in Verus. `src/` is the library, every function of it
verified against its contract:

- `ini` reads `config.ini`: which devices to serve and what each binding runs;
- `config` is what a device's section says;
- `mapper` decides, event by event, which script a press, hold, release,
  D-pad move or trigger pull runs (debounce, long press, repeat);
- `worker` holds the decisions around a device worker's event loop: who
  holds the device, where each event goes, the capture pause, keep-awake;
- `input` picks the node to read among those found;
- `reload` is the registry a re-read of the file updates in place;
- `kolayout` and `keysym` translate a keyboard layout for KOReader;
- `koreader`, `xkey`, `layout`, `vkeyboard` build what is sent to KOReader,
  to X, to `xkbcomp` and to uinput;
- `waf` answers the settings app's requests;
- `text` and `order` are the text operations and the string order the rest
  is stated in.

`app/` is the program around it: the threads, sockets, files, devices and
processes, and the floating-point shape matching of touch strokes. It
carries out what the library decides.

Not served: there are no default bindings for a gamepad whose section binds
nothing (such a pad is held and its presses run nothing until something is
mapped), and touch contacts, analogue sticks and relative pointer motion only
count as activity: no gesture, stick or pointer binding exists, and pointer
motion is not relayed. A device's `keyboard_layout` is installed system-wide
each time that device connects.
