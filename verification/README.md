# saju_engine

Korean four-pillars (사주팔자) astrology computation, verified with Verus.

Given a birth date and time, the library computes the four pillars, the element balance,
the ten gods, branch relations, voids (공망), stars (신살), lucky items, daily, weekly and
monthly fortunes, the ten-year great-luck periods (대운) and the compatibility of two
charts, with their Korean texts. Every function of `src/` carries a contract that states
its result exactly; a reading for today is exact for the date the system clock gives (the
week ahead returns that date with the week), and reports a clock error when the clock reads
before 1970 or beyond the dates chrono holds. The laws of the library (cycles of the
calendar pillars, symmetry of the branch relations, the order of the stars, the shape of
the great-luck periods, the ranges of the scores, dates that read back as written, and
others) are proof functions next to the code they speak of.

Layout:

- `src/` – the verified library. `types`, `tables`, `calendar` and `pillars` build the
  chart; `elements`, `ten_gods`, `branches`, `gongmang`, `shinsal`, `lucky` and
  `interpreter` read it; `daily`, `outlook`, `daeun` and `compat` make the readings;
  `input` reads request fields; `engine` picks and assembles the reading a request asks
  for. The monthly fortune over a whole year (reading type `monthly_fortune`) is not
  computed: it gets the same fallback reply as an unknown reading type. Dates come from
  chrono, and the time from `std::time::SystemTime`, through small functions in `calendar`.
- `tests/` – tests of the library.
- `app/` – the JSON front end: reads a request from a `serde_json::Value`, asks the engine
  and writes the reading back as JSON.
