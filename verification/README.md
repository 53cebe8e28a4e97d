# provider_models

Model catalogs for providers that publish their own list of models.

A provider can serve a manifest that names its models and what they can do. The
manifest is remote input, so nothing of it reaches a catalog before it has been
held to a fixed set of rules, and nothing that the program decides locally
(prompts, tools, headers, addresses) can be changed by it.

- `src/` is the library. Every function states what it returns, and Verus proves
  it.
  - `provider_manifest` turns a manifest into a catalog: `rules` are the rules,
    `entry` is the catalog entry of one model, `budget` bounds the manifest text
    that can be shown to another model, `catalog` puts them together, and `laws`
    says what holds of every catalog.
  - `models_client` describes the fetch of a manifest or of a list of models,
    and makes its result out of the answer.
  - `transport` decides what goes out for a request, what is traced of it and
    what an answer means. `headers` reads the entity tag.
  - `listing` and `model_catalog` hold the models that people are shown.
  - `models` and `text` are the types and the text functions that the rest uses.
- `app/` sends and receives with `reqwest` and decodes JSON with `serde`.
- `tests/` runs the library on concrete values.
