# localization

Localization of messages for a browser, with its behaviour stated in contracts and proved by Verus.

The library in `src/`:

- `nsstring`: the byte strings of the browser, which may be void.
- `rebrand`: the names that replace others in the values of messages and attributes.
- `args`, `keys`: arguments and keys, on their way to Fluent.
- `messages`: values, attributes and messages, on their way to the browser.
- `errors`: what Fluent reports, and the report on a missing argument.
- `locales`: the locales that a handle is made for.
- `localization`: the handle, and the requests that go through it.
- `lists`: the `ThinVec` lists in which the browser hands values over.

What is trusted of `fluent`, `fluent_fallback`, `thin_vec`, `unic_langid` and the standard library is
stated on the functions and names that say `Trusted` or stand beside them; everything else is
proved.

`app/` joins the library to the bundles of `fluent_fallback` (`engine`) and gives it the C interface
of the browser (`gecko`). The latter needs crates of the browser's source tree.
