# factura_pdf

Renders El Salvador electronic invoices (DTE) as PDF files and mails them.

- `src/` is the verified library: the invoice's data model, the pagination of
  the product list, the text of every section (labels, values, table cells,
  page numbers, the public lookup address), the QR code image of the document,
  the logo image (decoded, fitted and re-encoded through the `image` crate),
  and the notification e-mail's subject and body.
- `app/` is the web service around it: the HTTP route, reading the JSON
  document, the page geometry (in floating-point millimetres), drawing with
  `printpdf`, reading and writing the logo files, and sending the e-mail.
- `tests/` runs the library on concrete invoices.
