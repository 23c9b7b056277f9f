# ta_calc

Computes teaching-assistant allocations for courses from their enrollment,
lecture and lab sections and unit weight.

- `src/` is the verified library: course classification from the course
  code, the tables of allocation items and special cases, which items count
  for a course, the minimum enrollments, and the special-case lookup. Amounts
  in the tables are kept as integers in hundredths.
- `app/` is the command-line tool: it reads the courses from a CSV file, adds
  up the hours in `f32` along the plan the library returns, rounds them to
  quarter TAs, applies the special case and writes `TA-Allocations.csv`.
