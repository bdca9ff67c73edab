# gpui-updater (verified core)

Self-update for desktop apps hosted on GitHub Releases or static JSON
manifests: check a release source, download the platform artifact, verify
it (SHA-256 and minisign), and swap it into place.

Layout:

- `src/` — the library, verified with Verus:
  - `version` — semantic versions, ordered by the `semver` crate;
  - `release`, `error`, `status`, `source` — release metadata, errors and
    their messages, the observable update status, the release-source trait;
  - `engine` — configuration, the check for a newer release, download
    locations;
  - `verify` — the verification policy and the SHA-256 / minisign checks;
  - `http` — request headers, response handling, download progress;
  - `install` — the install protocols as step machines: the macOS bundle
    swap, whose new bundle replaces the old one in a single atomic exchange
    (proved over every run: the install root always holds the whole old
    bundle or the whole new one), after which the old bundle and any stale
    backup are removed; the Windows choice between staging an `.msi` for an
    `msiexec /passive /norestart` handoff after exit and renaming a bare
    `.exe` aside (proved to leave the old executable in place on failure,
    provided moving it back succeeds); and the `.tar.gz` install, whose
    extracted binary is renamed over the installed one in one atomic step;
  - `updater` — the decisions of an observable updater (busy guards, what
    each outcome shows);
  - `paths`, `text` — path and text helpers.
- `app/` — blocking I/O: the HTTP transport, file-system and process steps,
  and the download/install pipeline that drives the library.
- `tests/` — tests of the library.
