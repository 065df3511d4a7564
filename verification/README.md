# invoicer

An invoice manager: it keeps companies, partners and services, makes
invoices as PDF pages and shows them in a window.

- `src/` is the verified library: the page plan of an invoice (which text
  and which rule goes where, `layout`), the texts it is made of (`text`),
  the records the plan reads and the partner list (`invoice`), the quit
  confirmation of the window (`session`) and the Discord presence client
  (`rpc`).
- `app/` is the program around it: reading and writing the JSON files,
  drawing the plan with printpdf and the amounts of money, which are
  floating point, and the egui window.
- `tests/` runs the library on concrete invoices.
