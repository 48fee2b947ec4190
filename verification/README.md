# hachimi_installer

The decision logic of the Hachimi installer for the Steam version of
Umamusume: Pretty Derby, verified with Verus, and the Windows program around it.

- `src/` — the verified library:
  - `target.rs`: the install targets, their DLL names and install methods;
  - `paths.rs`: joining file names onto the install directory (`std::path`);
  - `installer.rs`: the `Installer` — every path it reads or writes, and what
    pre-install, install, post-install and uninstall do, each with its error;
  - `pe.rs`: finding the version resource of an installed DLL (pelite);
  - `version_info.rs`: the product name and version taken from its string
    table, the DLL's label, and whether it is Hachimi;
  - `patch.rs`: patching the game executable with bsdiff;
  - `window.rs`, `process.rs`: centring a window, and recognising the game's
    process by its executable name;
  - `error.rs`: the installer's error.
- `app/` — the program: command line handling, file-system operations, Steam
  detection, reading a version resource's string table (pelite's parser of
  that resource can panic on malformed data) and the Windows API calls. It
  builds for Windows only.
- `tests/` — tests of the library.

The program embeds `hachimi.dll` and `FunnyHoney.exe` (the modded game
executable) from the crate root; they are build inputs and must be placed
there before building it.
