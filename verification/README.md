# macos_liquid_glass

Liquid Glass windows on macOS that follow **System Settings ▸ Appearance ▸
Icon & widget style**, with their decisions written in Verus and proved.

## Layout

- `src/` is the verified library. It holds every decision the windowing code
  makes, on plain values:
  - `icon_style` — the nine `AppleIconAppearanceTheme` tokens, their names,
    integers, family and light/dark axis; the two lenient fallbacks; the
    resolved `WidgetStyle` and its equality; and `ObserverState`, the state
    machine behind the style observer (which KVO key enqueues a pass, when a
    pass runs, when a read style is delivered, the 50 ms timer floor, and
    shutting down).
  - `appearance` — light/dark resolution from an appearance's best stock
    match.
  - `window` — the two window shapes, their style masks and setup, and the
    Escape-closes decision that honours a delegate's veto.
  - `glass` — the glass material styles and the availability check.
  - `drawable` — modifier flags, mouse buttons and click counts, the
    text-input client's marked text counted in UTF-16 units, the display-link
    slot, and the pixel surface's geometry.
  - `menu` — the main menu layout.
  - `bundle` — what the bundling tool decides: its task, the `Info.plist`,
    the staleness filter and the launch environment.
  - `interval`, `text` — a nanosecond interval and small text helpers.
- `app/` is ordinary Rust over AppKit (objc2): it reads the preference,
  builds the windows, views and menus, runs the observer and the timer, and
  calls into `src/` for every decision.
- `tests/` exercises the library.
