# eng_dict

An English-to-Japanese dictionary web service. Users log in, look words up,
and see the words looked up so far; answers come from MongoDB when the word
is stored there and from the Glosbe web dictionary otherwise.

- `src/` is the verified library:
  - `text`: character-level string operations (trim, pattern removal,
    field splitting, character replacement);
  - `session`: session ids and the `xauth` cookie;
  - `page_handler`: the four pages, request routing, template data, and in
    `page_handler::lookup` the step function that drives a word lookup.
- `app/` is the Iron server around it: Redis sessions, MongoDB, HTTP.
- `tests/` runs the library on concrete values.
