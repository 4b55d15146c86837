# radzen_leptos

The logic of a set of Leptos UI components in the Radzen style (alert, badge,
button, card, check box, date picker, drop-down, icon, image, label, link,
numeric, pager, password, select bar, stack, text, text area, text box),
written in Verus and proved against its contracts.

- `src/` — the verified library: CSS class building (`ClassList`), style
  strings, the pager's paging and keyboard logic, drop-down and select-bar
  selection, the calendar grid and date formatting and parsing, the time
  spinner, the check box's state cycle, and the rules of the component
  attribute. Calls into chrono stand behind trusted functions in
  `src/components/date_picker.rs`; the string helpers of std that vstd does not
  specify stand in `src/text.rs`.
- `app/` — the Leptos components themselves, which render with Leptos and take
  their classes and decisions from the library.
- `tests/` — tests of the library on concrete values.
