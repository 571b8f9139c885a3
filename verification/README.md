# gestor

Management core of a small shop (products, categories, stock, warranties,
returns, sales and reports), verified with Verus.

- `src/` is the verified library: the entities and their mathematical views,
  the storage interfaces (each seen as the sequence of what it stores), the
  in-memory storages, and the use cases, each with its rules stated as its
  contract. Laws that span operations (a consistent catalog, stock that never
  goes negative, a movement undone by its opposite, valid statuses) are proof
  functions beside the use cases.
- `app/` is the HTTP server around it: settings, SQLite storage, request and
  response bodies, and the floating-point arithmetic on money amounts (the
  revenue of the sales report, the total price of a sale), which the library
  leaves to its callers.
- `tests/` exercises the library on concrete values.
