# backend

The verified core of a character and skill database server for a football
RPG. The library (`src/`, verified with Verus) holds:

- `models`: the game enumerations (element, position, style, skill category,
  aura type) with their stored codes, level-50 statistics, and the reading of
  database rows into character summaries, special moves and auras;
- `character`: character summaries named through a translation;
- `translations`: the translated text tables and their lookups;
- `routes`: the SQL text of the character search (filters, ordering, joins),
  its cache key, the skill and hero queries, and the reading of their rows;
- `sql`: the trusted slice of sqlx's `QueryBuilder` the queries are built with;
- `setup`: the statements each database connection runs and the listening
  address;
- `laws`: properties relating several of these functions.

`app/` is the axum server around it: the routes, the database pool and the
response cache, and the serde copies of the library's records.
