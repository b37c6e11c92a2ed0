# ink_density

Recording of CMYK ink density readings from a spectrodensitometer, and the
exports built from them: a print-ready HTML report (single job or several jobs
side by side), a multi-page SVG drawing and a spreadsheet plan.

`src/` is the library, verified with Verus: every public function states its
result in `ensures` over spec functions and views.

- `models` — jobs, inks, dot shapes and LPI readings; a reading is the bit
  pattern of the value the instrument reported, `0` for an empty cell.
- `session` — lenient loading of session documents (old field names, missing
  fields, ink and step counts padded or trimmed) and writing them back.
- `settings` — presets, defaults, the flat string settings, reading once.
- `report`, `pantone` — the HTML report and the Pantone swatch colours of
  spot ink headers.
- `svg`, `excel` — page and sheet layout of the other two exports.
- `job_config`, `weight_grid`, `illustrator` — data entry panel state, the
  grid's column-major tab order, and Illustrator batch scripts.
- `text` — escaping, joining and decimal digits shared by the exporters.

Numbers are formatted, and dot gain targets interpolated, by the caller: the
library takes the formatted texts and lays them out.

`app/` is the web server (axum) that serves the client, reads and writes
session and settings files, formats the numbers and writes spreadsheets.

`tests/` exercise the library on concrete values.
