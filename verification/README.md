# peterfan

The decision logic of the PeterFan menu-bar fan monitor, as a verified Verus
library.

- `src/` is the library. Each public function carries a contract over spec
  functions and views; the laws that tie functions together are public proof
  functions (`lemma_*`). Modules: text and number helpers (`text`, `number`,
  `float_order`), version and daemon rules (`version`, `daemon`, `install`,
  `setup`, `login`, `platform`, `app_update`), fan control commands, pins and
  the app's own fallback writes (`commands`, `control`, `local_control`, `smc`,
  `hardware`, `mock`), sensors and the headline temperature (`settings`,
  `sensors`, `cpu`, `selection`, `ranking`), the menu-bar behaviour (`ui`),
  and the dashboard page and its messages (`dashboard`, `messages`).
- `tests/` runs the library on concrete values.
- `app/` is the program around it: arguments, files, sockets, processes, the
  simulated readings and the runner drawing, which are floating point.
