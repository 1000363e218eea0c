# window_vibrancy

Windows vibrancy effects (Mica, Mica Alt, Acrylic, Blur), rounded corners and
the choice of an effect by Windows version, with the decisions proved in Verus.

- `src/windows.rs`: the version model (`OsVersionParts`), which effect each
  version supports, and the window calls that apply or clear each effect.
- `src/lib.rs`: the public effects with their fallbacks (Mica to Acrylic,
  Tabbed to Mica to Acrylic), switching, the best effect, window handles.
- `src/calls.rs`: the window calls as values, the accent policy of
  `SetWindowCompositionAttribute`, and how a call's outcome maps to an error.
- `src/run.rs`: carrying out a list of calls, stopping at the first failure.
- `src/error.rs`: the error type and its messages.
- `src/laws.rs`: properties that span the functions above.
- `app/`: the Win32 side: gets a window's handle, performs the calls, and
  offers the functions that take a window.
