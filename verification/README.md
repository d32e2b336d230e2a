# rust-email

A mail client for the terminal, whose logic is verified with Verus.

`src/` is the library. Its functions have contracts over mathematical models of text, messages,
forms and the client itself, and are proved to keep them, except for the calls into other crates.

- `text`, `number`, `columns`, `dates`: text, numbers, columns of the terminal, dates.
- `charset`, `codec`, `header`, `mime`, `summary`: charsets, transfer encodings, header fields, the
  parts of a message, summaries of messages.
- `imap`, `client`, `flags`: what is said to the mail server, and what its answers come to.
- `numbering`: the numbers by which attachments are found and fetched.
- `store`, `vault`: accounts, folders and messages as rows of a store; passwords and their keys.
- `account_form`, `compose`, `folder_list`, `mail_list`, `mail_view`, `status_bar`, `ui`, `keys`,
  `utils`: the views, the keys that they take, and what they draw.
- `action`, `app`, `replies`, `events`: the client as a machine that begins an action, says what it
  needs, and goes on with the answer.
- `types`: messages, folders and accounts.

Calls into other crates, and into those parts of the standard library that Verus does not know,
stand in small functions marked `#[verifier::external_body]`. Their contracts are believed, not
proved; the one that draws random bytes promises nothing. The comment above each names the function
that it calls and what is taken for granted of it.

`app/` is the program around the library: the terminal, the network, the store and the log. It does
what the client asks for and hands it the answers.

`tests/` holds the tests of the library.
