# miracle_backend

The backend of a wholesale sourcing platform: customers submit requirements,
receive quotations, accept them into orders and pay; suppliers are verified by
staff; background jobs deliver notifications.

- `src/` — the domain logic, written in Verus and proved against its contracts:
  configuration parsing and validation, the order, quotation, payment and
  supplier status machines, quotation totals and acceptance into an order,
  decoding of stored quotations, request validation, listing filters, the job
  retry policy and the decisions taken by the use cases. Laws that span several
  functions are public proof functions next to the code they speak of.
- `tests/` — tests of the library on concrete values.
- `app/` — the service around the library: environment snapshot, PostgreSQL
  and Redis connections, the HTTP router and middleware, the job worker loop
  and the transactions of the use cases (order status changes, supplier
  verification, quotation acceptance).
