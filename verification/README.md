# greenverify

Verified building blocks for ESG (environmental, social, governance) analysis, written in
Verus.

- `src/` is the verified library. Every function there carries a contract that Verus proves:
  the rating scale (`types`), claim-intensity parsing and evidence-domain counting
  (`verification`), keyword evidence and board/audit scores (`governance`), industry
  benchmark tables and target alignment (`environmental`, `social`), use-of-proceeds
  matching, credit component scores, additionality and permanence risk (`bonds`), and the
  pipeline that holds the engines (`pipeline`). `text` holds substring search and the one
  trusted call, `str::to_lowercase`, whose result is named `lowercase`.
  Properties that span calls (monotonicity of risk and score functions, the rating order, the
  relation between category presence and match counts, ...) are public proof functions.
- `app/` holds what works on floating-point numbers: metric records and their ratios, the
  weighted composite scores, greenwashing and consistency checks, greenium and credit
  quality, entity ranking and report assembly, and serde forms of the library's types. It
  calls the library for every integer-valued score and every text check.
- `tests/` exercises the library on concrete inputs.
