# shop_api

A small shop back end (categories, products with images and feature lines,
posts, users) whose decisions are verified with Verus.

- `src/` is the verified library: slugs and the other text helpers, request
  payload rules and their error lists, the JSON error envelope, the category,
  post and user service decisions, the product operations as step machines
  (lookup, listing, creation, change, deletion), password hashing with Argon2
  and access-token claims.
- `app/` is the HTTP service around it: axum routes and handlers, sea-orm
  entities and queries, the JSON shapes of payloads and answers, and token
  signing. It performs each database action that a step machine asks for and
  hands the answer back.
- `tests/` runs the library on concrete values.
