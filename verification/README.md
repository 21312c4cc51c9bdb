# native

Native dialogues and menus for a Flutter app, verified with Verus.

- `src/` is the verified library: file, message and share dialogues and their builders
  (`dialog::file`, `dialog::message`, `dialog::share`), the state through which a shown
  dialogue hands its result to the future awaiting it (`dialog::state`), the choices the
  desktop dialogues make (`dialog::desktop`), the native entries of a context menu
  (`menu::context`) and the default main menu bar (`menu::main_menu`).
- `app/` shows them with native-dialog, UIKit and AppKit, and holds the GTK host window
  that draws with sokol under the Flutter view.
- `tests/` runs the library on concrete values.
