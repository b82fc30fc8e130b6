# tfkosmos

A library that turns cloud inventory into Terraform code, with its logic
verified by Verus.

- `src/json.rs` — the JSON documents the library reads and writes, with
  their mathematical view.
- `src/text.rs` — text helpers (equality, prefixes, search, decimal text).
- `src/models/` — scan and generation requests, drift report types.
- `src/providers/` — the resource templates of each provider and how an AWS
  scan is split into scanner groups.
- `src/aws/` — the AWS scanners: records built from what each client call
  returns, name filters, trust-policy summaries, progress reports, and the
  step that writes what each scan target gave into a scan result.
- `src/azure/` — Azure role definitions, role assignments and web apps, read
  from what the `az` CLI prints.
- `src/generators/` — naming conventions, resource names, template rendering,
  import commands and scripts, and the plan of files a generation writes.
- `src/terraform/` — reading state files and what the `terraform` CLI prints.
- `src/query/` — the resource query language: lexer, parser, evaluator and
  wildcard matching.
- `app/` — the command-line front end: files, processes and the `az` and
  `terraform` commands.
- `tests/` — tests on concrete values.
