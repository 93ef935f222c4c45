# tickeys

Instant audio feedback for typing, on macOS. The verified library (`src/`)
holds the decisions: which sound a key press plays (a scheme's own key map,
else one of its first shared sounds), which presses stay silent (quick
repeats of one key, muted applications), which of the player's sources plays
it (the one idle longest), when the "qaz123" shortcut opens the settings,
which scheme the stored preference selects, the filter list of applications,
the property and selector names of the Objective-C classes, and the update
notice.

`app/` is the macOS program around it: Cocoa, the keyboard event tap,
OpenAL/ALUT playback, stored preferences, the settings window and the update
check over HTTP.

Schemes are described in `data/schemes.json`:

```json
{
    "name": "myDrum",
    "display_name": "My Drum",
    "files": ["1.wav", "2.wav", "3.wav", "4.wav", "space.wav", "backspace.wav", "enter.wav"],
    "non_unique_count": 4,
    "key_audio_map": {"36": 6, "49": 4, "51": 5}
}
```
